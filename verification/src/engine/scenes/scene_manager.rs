//! The catalog of scenes by name, and the building of a scene from the
//! descriptions of its entities.

use vstd::prelude::*;
use crate::engine::graphics::internal_object::graphics_object::{
    CollisionMode,
    CollisionModes,
    Generic2DGraphicsObject,
    ObjectView,
    RenderResources,
};
use crate::engine::graphics::texture_manager::TextureManager;
use crate::engine::graphics::util::master_id_generator::MasterIdGenerator;
use crate::engine::math::fixed::{normalized_rotation, Heading, Vector3};
use crate::engine::math::matrix::identity;
use crate::engine::scenes::scene::Scene;
use crate::engine::util::name_table::NameTable;

verus! {

/// The description of one entity: what a scene file says of it, with the
/// handles of the shader program and of the buffers that were made for it.
pub struct ObjectData {
    pub name: String,
    pub vertex_data: Vec<i32>,
    pub texture_coords: Vec<i32>,
    pub shader_program: u32,
    pub resources: RenderResources,
    /// The three coordinates of the position.
    pub position: Vec<i32>,
    pub rotation: i32,
    pub heading: Heading,
    pub scale: i32,
    pub texture_name: String,
    /// The names of the collision modes; a name that is none of `AABB`,
    /// `Circle` and `OBB` counts for nothing.
    pub collision_modes: Vec<String>,
}

/// Why a scene could not be built.
#[derive(Debug, Clone, Copy, PartialEq, Eq, Structural)]
pub enum SceneLoadError {
    /// The description at this place has a position that is not three
    /// coordinates, a coordinate without a partner, or not one texture
    /// coordinate per vertex coordinate.
    MalformedObject(usize),
    /// The description at this place names a texture that was not loaded.
    UnknownTexture(usize),
}

/// The collision mode that a name stands for.
pub open spec fn mode_named(name: Seq<char>) -> Option<CollisionMode> {
    if name == "AABB"@ {
        Some(CollisionMode::AABB)
    } else if name == "Circle"@ {
        Some(CollisionMode::Circle)
    } else if name == "OBB"@ {
        Some(CollisionMode::OBB)
    } else {
        None
    }
}

/// The collision modes that a list of names stands for.
pub open spec fn modes_named(names: Seq<String>) -> Set<CollisionMode> {
    Set::new(
        |mode: CollisionMode|
            exists|i: int| 0 <= i < names.len() && #[trigger] mode_named(names[i]@) == Some(mode),
    )
}

/// Whether a description has the shape of an entity.
pub open spec fn well_shaped(description: ObjectData) -> bool {
    &&& description.position@.len() == 3
    &&& description.vertex_data@.len() % 2 == 0
    &&& description.texture_coords@.len() == description.vertex_data@.len()
}

/// What is wrong with the description at a place, if anything.
pub open spec fn fault(description: ObjectData, at: int, textures: Map<Seq<char>, u32>) -> Option<
    SceneLoadError,
> {
    if !well_shaped(description) {
        Some(SceneLoadError::MalformedObject(at as usize))
    } else if !textures.contains_key(description.texture_name@) {
        Some(SceneLoadError::UnknownTexture(at as usize))
    } else {
        None
    }
}

/// The fault of the first description that has one.
pub open spec fn first_fault(descriptions: Seq<ObjectData>, textures: Map<Seq<char>, u32>) -> Option<
    SceneLoadError,
>
    decreases descriptions.len(),
{
    if descriptions.len() == 0 {
        None
    } else {
        match first_fault(descriptions.drop_last(), textures) {
            Some(error) => Some(error),
            None => fault(descriptions.last(), descriptions.len() - 1, textures),
        }
    }
}

/// The entity that a description without fault describes.
pub open spec fn described(description: ObjectData, id: u64, textures: Map<Seq<char>, u32>) -> ObjectView {
    ObjectView {
        id,
        name: description.name@,
        vertex_data: description.vertex_data@,
        texture_coords: description.texture_coords@,
        resources: description.resources,
        shader_program: description.shader_program,
        texture_id: Some(textures[description.texture_name@]),
        position: Vector3 {
            x: description.position@[0],
            y: description.position@[1],
            z: description.position@[2],
        },
        rotation: normalized_rotation(description.rotation as int) as i32,
        heading: description.heading,
        scale: description.scale,
        model_matrix: identity(),
        collision_modes: modes_named(description.collision_modes@),
    }
}

/// The scene that a list of descriptions describes, its entities numbered
/// from `first_id` on.
pub open spec fn described_scene(
    descriptions: Seq<ObjectData>,
    first_id: int,
    textures: Map<Seq<char>, u32>,
) -> Seq<ObjectView> {
    Seq::new(descriptions.len(), |i: int| described(descriptions[i], (first_id + i) as u64, textures))
}

/// No description has a fault exactly when `first_fault` finds none, and a
/// fault that it finds is that of the first description with a fault.
pub proof fn lemma_first_fault(descriptions: Seq<ObjectData>, textures: Map<Seq<char>, u32>)
    ensures
        first_fault(descriptions, textures) is None <==> forall|i: int|
            0 <= i < descriptions.len() ==> #[trigger] fault(descriptions[i], i, textures) is None,
        first_fault(descriptions, textures) is Some ==> exists|at: int|
            0 <= at < descriptions.len() && first_fault(descriptions, textures) == #[trigger] fault(
                descriptions[at],
                at,
                textures,
            ) && forall|i: int| 0 <= i < at ==> #[trigger] fault(descriptions[i], i, textures) is None,
    decreases descriptions.len(),
{
    if descriptions.len() > 0 {
        let earlier = descriptions.drop_last();
        lemma_first_fault(earlier, textures);
        let last = descriptions.len() - 1;
        assert forall|i: int| 0 <= i < last implies fault(earlier[i], i, textures) == fault(
            descriptions[i],
            i,
            textures,
        ) by {}
        if first_fault(earlier, textures) is Some {
            let at = choose|at: int|
                0 <= at < earlier.len() && first_fault(earlier, textures) == #[trigger] fault(
                    earlier[at],
                    at,
                    textures,
                ) && forall|i: int| 0 <= i < at ==> #[trigger] fault(earlier[i], i, textures) is None;
            assert(fault(descriptions[at], at, textures) == first_fault(descriptions, textures));
            assert forall|i: int| 0 <= i < at implies #[trigger] fault(descriptions[i], i, textures) is None by {
                assert(fault(earlier[i], i, textures) is None);
            }
        } else {
            assert forall|i: int| 0 <= i < last implies #[trigger] fault(descriptions[i], i, textures) is None by {
                assert(fault(earlier[i], i, textures) is None);
            }
            if fault(descriptions[last], last, textures) is Some {
                assert(first_fault(descriptions, textures) == fault(descriptions[last], last, textures));
            }
        }
    }
}

/// The collision mode that a name stands for.
pub fn parse_collision_mode(name: &String) -> (mode: Option<CollisionMode>)
    ensures
        mode == mode_named(name@),
{
    if *name == "AABB".to_owned() {
        Some(CollisionMode::AABB)
    } else if *name == "Circle".to_owned() {
        Some(CollisionMode::Circle)
    } else if *name == "OBB".to_owned() {
        Some(CollisionMode::OBB)
    } else {
        None
    }
}

/// The collision modes that a list of names stands for.
pub fn parse_collision_modes(names: &Vec<String>) -> (modes: CollisionModes)
    ensures
        modes@ == modes_named(names@),
{
    let mut modes = CollisionModes::new();
    let mut i: usize = 0;
    while i < names.len()
        invariant
            i <= names.len(),
            modes@ == modes_named(names@.take(i as int)),
        decreases names.len() - i,
    {
        let ghost before = modes@;
        match parse_collision_mode(&names[i]) {
            Some(mode) => {
                modes.insert(mode);
            },
            None => {},
        }
        proof {
            let shorter = names@.take(i as int);
            let longer = names@.take(i + 1);
            assert forall|mode: CollisionMode| modes@.contains(mode) == modes_named(longer).contains(
                mode,
            ) by {
                if modes_named(longer).contains(mode) {
                    let j = choose|j: int|
                        0 <= j < longer.len() && #[trigger] mode_named(longer[j]@) == Some(mode);
                    if j < i {
                        assert(mode_named(shorter[j]@) == Some(mode));
                    }
                }
                if before.contains(mode) {
                    let j = choose|j: int|
                        0 <= j < shorter.len() && #[trigger] mode_named(shorter[j]@) == Some(mode);
                    assert(mode_named(longer[j]@) == Some(mode));
                }
                if mode_named(names[i as int]@) == Some(mode) {
                    assert(mode_named(longer[i as int]@) == Some(mode));
                }
            }
            assert(modes@ =~= modes_named(longer));
        }
        i += 1;
    }
    assert(names@.take(i as int) =~= names@);
    modes
}

/// The name of the scene that a file holds: the stem of the file's name,
/// or `Unnamed` for a path without one.
pub fn scene_name(stem: Option<String>) -> (name: String)
    ensures
        name@ == match stem {
            Some(text) => text@,
            None => "Unnamed"@,
        },
{
    match stem {
        Some(text) => text,
        None => "Unnamed".to_owned(),
    }
}

/// What is wrong with the description at a place, if anything.
pub fn check_description(description: &ObjectData, at: usize, texture_manager: &TextureManager) -> (found: Option<
    SceneLoadError,
>)
    requires
        texture_manager.well_formed(),
    ensures
        found == fault(*description, at as int, texture_manager@),
{
    if description.position.len() != 3 || description.vertex_data.len() % 2 != 0
        || description.texture_coords.len() != description.vertex_data.len() {
        Some(SceneLoadError::MalformedObject(at))
    } else if texture_manager.get_texture_id(description.texture_name.as_str()).is_none() {
        Some(SceneLoadError::UnknownTexture(at))
    } else {
        None
    }
}

/// The fault of the first description that has one.
pub fn check_descriptions(descriptions: &Vec<ObjectData>, texture_manager: &TextureManager) -> (found: Option<
    SceneLoadError,
>)
    requires
        texture_manager.well_formed(),
    ensures
        found == first_fault(descriptions@, texture_manager@),
{
    let mut i: usize = 0;
    while i < descriptions.len()
        invariant
            i <= descriptions.len(),
            texture_manager.well_formed(),
            first_fault(descriptions@.take(i as int), texture_manager@) is None,
        decreases descriptions.len() - i,
    {
        let found = check_description(&descriptions[i], i, texture_manager);
        proof {
            let longer = descriptions@.take(i + 1);
            assert(longer.drop_last() =~= descriptions@.take(i as int));
            assert(longer.last() == descriptions[i as int]);
        }
        if found.is_some() {
            proof {
                lemma_fault_of_prefix(descriptions@, texture_manager@, i + 1);
            }
            return found;
        }
        i += 1;
    }
    assert(descriptions@.take(i as int) =~= descriptions@);
    None
}

/// A fault among the first descriptions is the first fault of them all.
pub proof fn lemma_fault_of_prefix(descriptions: Seq<ObjectData>, textures: Map<Seq<char>, u32>, count: int)
    requires
        0 <= count <= descriptions.len(),
        first_fault(descriptions.take(count), textures) is Some,
    ensures
        first_fault(descriptions, textures) == first_fault(descriptions.take(count), textures),
    decreases descriptions.len(),
{
    if count < descriptions.len() {
        assert(descriptions.drop_last().take(count) =~= descriptions.take(count));
        lemma_fault_of_prefix(descriptions.drop_last(), textures, count);
    } else {
        assert(descriptions.take(count) =~= descriptions);
    }
}

/// The scenes, by name.
pub struct SceneManager {
    scenes: NameTable<Scene>,
}

/// What a table of scenes holds, as plain mathematical values.
pub open spec fn scene_views(table: Map<Seq<char>, Scene>) -> Map<Seq<char>, Seq<ObjectView>> {
    table.map_values(|scene: Scene| scene@)
}

impl View for SceneManager {
    type V = Map<Seq<char>, Seq<ObjectView>>;

    closed spec fn view(&self) -> Map<Seq<char>, Seq<ObjectView>> {
        scene_views(self.scenes@)
    }
}

impl SceneManager {
    /// The catalog's invariant, which `new` establishes and every operation
    /// keeps: no name occurs twice.
    pub closed spec fn well_formed(&self) -> bool {
        self.scenes.well_formed()
    }

    /// The names, in the order in which they were first added.
    pub closed spec fn names(&self) -> Seq<Seq<char>> {
        self.scenes.names()
    }

    /// A catalog without scenes.
    pub fn new() -> (manager: Self)
        ensures
            manager.well_formed(),
            manager@ == Map::<Seq<char>, Seq<ObjectView>>::empty(),
            manager.names() == Seq::<Seq<char>>::empty(),
    {
        let manager = SceneManager { scenes: NameTable::new() };
        assert(manager@ =~= Map::<Seq<char>, Seq<ObjectView>>::empty());
        manager
    }

    /// Puts a scene under a name, in place of a scene that had the name.
    pub fn add_scene(&mut self, name: String, scene: Scene)
        requires
            old(self).well_formed(),
        ensures
            final(self).well_formed(),
            final(self)@ == old(self)@.insert(name@, scene@),
    {
        self.scenes.insert(name, scene);
        assert(self@ =~= old(self)@.insert(name@, scene@));
    }

    /// The scene under a name.
    pub fn get_scene(&self, name: &str) -> (found: Option<&Scene>)
        requires
            self.well_formed(),
        ensures
            match found {
                Some(scene) => self@.contains_key(name@) && scene@ == self@[name@],
                None => !self@.contains_key(name@),
            },
    {
        self.scenes.get(name)
    }

    /// Takes the scene under a name out of the catalog and returns it.
    pub fn remove_scene(&mut self, name: &str) -> (removed: Option<Scene>)
        requires
            old(self).well_formed(),
        ensures
            final(self).well_formed(),
            final(self)@ == old(self)@.remove(name@),
            match removed {
                Some(scene) => old(self)@.contains_key(name@) && scene@ == old(self)@[name@],
                None => !old(self)@.contains_key(name@),
            },
    {
        let removed = self.scenes.remove(name);
        assert(self@ =~= old(self)@.remove(name@));
        removed
    }

    /// The names of the scenes, each once.
    pub fn list_scenes(&self) -> (names: Vec<String>)
        requires
            self.well_formed(),
        ensures
            names@.map_values(|name: String| name@) == self.names(),
            self.names().no_duplicates(),
            forall|name: Seq<char>| self.names().contains(name) <==> self@.contains_key(name),
    {
        self.scenes.name_list()
    }

    /// Builds the scene that a list of descriptions describes and puts it
    /// under a name. Each entity gets the next identifier of the generator
    /// and the handle of the texture that its description names. Where a
    /// description has a fault, nothing is built: the catalog and the
    /// generator stay as they are.
    pub fn load_scene_from_descriptions(
        &mut self,
        name: String,
        descriptions: &Vec<ObjectData>,
        texture_manager: &TextureManager,
        id_generator: &mut MasterIdGenerator,
    ) -> (result: Result<(), SceneLoadError>)
        requires
            old(self).well_formed(),
            texture_manager.well_formed(),
            old(id_generator).next_id() + descriptions@.len() <= u64::MAX,
        ensures
            final(self).well_formed(),
            match first_fault(descriptions@, texture_manager@) {
                Some(error) => result == Err::<(), SceneLoadError>(error) && final(self)@ == old(self)@
                    && final(id_generator).next_id() == old(id_generator).next_id(),
                None => result is Ok && final(self)@ == old(self)@.insert(
                    name@,
                    described_scene(descriptions@, old(id_generator).next_id() as int, texture_manager@),
                ) && final(id_generator).next_id() == old(id_generator).next_id() + descriptions@.len(),
            },
    {
        match check_descriptions(descriptions, texture_manager) {
            Some(error) => {
                return Err(error);
            },
            None => {},
        }
        proof {
            lemma_first_fault(descriptions@, texture_manager@);
        }
        let ghost first_id = id_generator.next_id() as int;
        let ghost target = described_scene(descriptions@, first_id, texture_manager@);
        let mut scene = Scene::new();
        let mut i: usize = 0;
        while i < descriptions.len()
            invariant
                i <= descriptions.len(),
                texture_manager.well_formed(),
                first_id + descriptions@.len() <= u64::MAX,
                id_generator.next_id() == first_id + i,
                target == described_scene(descriptions@, first_id, texture_manager@),
                forall|j: int|
                    0 <= j < descriptions.len() ==> #[trigger] fault(descriptions[j], j, texture_manager@) is None,
                scene@ == target.take(i as int),
            decreases descriptions.len() - i,
        {
            let description = &descriptions[i];
            assert(fault(*description, i as int, texture_manager@) is None);
            let id = id_generator.generate_id();
            let texture_id = texture_manager.get_texture_id(description.texture_name.as_str());
            let position = Vector3::new(description.position[0], description.position[1], description.position[2]);
            let object = Generic2DGraphicsObject::new(
                id,
                description.name.clone(),
                description.vertex_data.clone(),
                description.texture_coords.clone(),
                description.resources,
                description.shader_program,
                position,
                description.rotation,
                description.heading,
                description.scale,
                texture_id,
                parse_collision_modes(&description.collision_modes),
            );
            assert(object@ == target[i as int]);
            scene.add_object(object);
            assert(scene@ =~= target.take(i + 1));
            i += 1;
        }
        assert(target.take(i as int) =~= target);
        self.add_scene(name, scene);
        Ok(())
    }
}

} // verus!
