//! A scene that is written down in code: two textured squares side by side
//! and a shape of four vertices between them.

use vstd::prelude::*;
use crate::engine::graphics::assets::custom_shader::CustomShader;
use crate::engine::graphics::assets::square_shader::SquareShader;
use crate::engine::graphics::internal_object::graphics_object::{
    CollisionMode,
    CollisionModes,
    Generic2DGraphicsObject,
    ObjectView,
    RenderResources,
};
use crate::engine::graphics::texture_manager::TextureManager;
use crate::engine::graphics::util::master_id_generator::MasterIdGenerator;
use crate::engine::math::fixed::{Heading, Vector3, UNIT};
use crate::engine::math::matrix::identity;
use crate::engine::scenes::scene::Scene;

verus! {

/// The vertices of the shape between the squares.
pub open spec fn custom_vertices() -> Seq<i32> {
    seq![300_000i32, 300_000i32, 100_000i32, -100_000i32, -100_000i32, -100_000i32, -100_000i32, 100_000i32]
}

/// The texture coordinates of the shape between the squares.
pub open spec fn custom_texture_coords() -> Seq<i32> {
    seq![1_000_000i32, 0i32, 1_000_000i32, 1_000_000i32, 0i32, 1_000_000i32, 0i32, 0i32]
}

/// The handle of the texture under a name, if there is one.
pub open spec fn texture_named(textures: Map<Seq<char>, u32>, name: Seq<char>) -> Option<u32> {
    if textures.contains_key(name) {
        Some(textures[name])
    } else {
        None
    }
}

/// An entity of the scene: unturned, of scale 1, on the plane `z = 0`, and
/// colliding by box and by circle.
pub open spec fn test_entity(
    id: u64,
    name: Seq<char>,
    vertex_data: Seq<i32>,
    texture_coords: Seq<i32>,
    shader_program: u32,
    resources: RenderResources,
    x: i32,
    texture_id: Option<u32>,
) -> ObjectView {
    ObjectView {
        id,
        name,
        vertex_data,
        texture_coords,
        resources,
        shader_program,
        texture_id,
        position: Vector3 { x, y: 0, z: 0 },
        rotation: 0,
        heading: Heading::from_components(UNIT, 0),
        scale: UNIT,
        model_matrix: identity(),
        collision_modes: Set::<CollisionMode>::empty().insert(CollisionMode::AABB).insert(
            CollisionMode::Circle,
        ),
    }
}

/// The vertices of the shape between the squares.
pub fn custom_vertex_data() -> (data: Vec<i32>)
    ensures
        data@ == custom_vertices(),
{
    let data: Vec<i32> = vec![300_000, 300_000, 100_000, -100_000, -100_000, -100_000, -100_000, 100_000];
    assert(data@ =~= custom_vertices());
    data
}

/// The texture coordinates of the shape between the squares.
pub fn custom_texture_data() -> (data: Vec<i32>)
    ensures
        data@ == custom_texture_coords(),
{
    let data: Vec<i32> = vec![1_000_000, 0, 1_000_000, 1_000_000, 0, 1_000_000, 0, 0];
    assert(data@ =~= custom_texture_coords());
    data
}

fn build(
    id: u64,
    name: &str,
    vertex_data: Vec<i32>,
    texture_coords: Vec<i32>,
    shader_program: u32,
    resources: RenderResources,
    x: i32,
    texture_id: Option<u32>,
) -> (object: Generic2DGraphicsObject)
    ensures
        object@ == test_entity(
            id,
            name@,
            vertex_data@,
            texture_coords@,
            shader_program,
            resources,
            x,
            texture_id,
        ),
{
    let mut modes = CollisionModes::new();
    modes.insert(CollisionMode::AABB);
    modes.insert(CollisionMode::Circle);
    Generic2DGraphicsObject::new(
        id,
        name.to_owned(),
        vertex_data,
        texture_coords,
        resources,
        shader_program,
        Vector3::new(x, 0, 0),
        0,
        Heading::forward(),
        UNIT,
        texture_id,
        modes,
    )
}

/// The scene of three entities.
pub struct TestScene {
    scene: Scene,
}

impl View for TestScene {
    type V = Seq<ObjectView>;

    closed spec fn view(&self) -> Seq<ObjectView> {
        self.scene@
    }
}

impl TestScene {
    /// The scene before its entities are made.
    pub fn new() -> (test_scene: Self)
        ensures
            test_scene@ == Seq::<ObjectView>::empty(),
    {
        TestScene { scene: Scene::new() }
    }

    /// Makes the three entities and appends them: a square at 0.3 on the x
    /// axis, a square at -0.3, and the shape of four vertices at the
    /// origin. Each takes the next identifier and the texture of its name,
    /// if that was loaded.
    pub fn initialize(
        &mut self,
        master_id_generator: &mut MasterIdGenerator,
        texture_manager: &TextureManager,
        new_square: &SquareShader,
        new_square_resources: RenderResources,
        other_square: &SquareShader,
        other_square_resources: RenderResources,
        custom: &CustomShader,
        custom_resources: RenderResources,
    )
        requires
            texture_manager.well_formed(),
            old(master_id_generator).next_id() + 3 <= u64::MAX,
        ensures
            final(master_id_generator).next_id() == old(master_id_generator).next_id() + 3,
            final(self)@.len() == old(self)@.len() + 3,
            final(self)@.take(old(self)@.len() as int) == old(self)@,
            ({
                let first = final(self)@[old(self)@.len() as int];
                let id = old(master_id_generator).next_id() as u64;
                first == test_entity(
                    id,
                    "newsquare"@,
                    new_square.vertex_data(),
                    new_square.texture_coords(),
                    new_square.shader_program(),
                    new_square_resources,
                    300_000,
                    texture_named(texture_manager@, "FamiliarBlock"@),
                )
            }),
            ({
                let second = final(self)@[old(self)@.len() as int + 1];
                let id = (old(master_id_generator).next_id() + 1) as u64;
                second == test_entity(
                    id,
                    "othersquare"@,
                    other_square.vertex_data(),
                    other_square.texture_coords(),
                    other_square.shader_program(),
                    other_square_resources,
                    -300_000i32,
                    texture_named(texture_manager@, "BasicCharacterGreen"@),
                )
            }),
            ({
                let third = final(self)@[old(self)@.len() as int + 2];
                let id = (old(master_id_generator).next_id() + 2) as u64;
                third == test_entity(
                    id,
                    "customobject"@,
                    custom.vertex_data(),
                    custom.texture_coords(),
                    custom.shader_program(),
                    custom_resources,
                    0,
                    texture_named(texture_manager@, "BasicCharacterRed"@),
                )
            }),
    {
        let new_square_texture = texture_manager.get_texture_id("FamiliarBlock");
        let first = build(
            master_id_generator.generate_id(),
            "newsquare",
            new_square.get_vertex_data(),
            new_square.get_texture_coords(),
            new_square.get_shader_program(),
            new_square_resources,
            300_000,
            new_square_texture,
        );
        let other_square_texture = texture_manager.get_texture_id("BasicCharacterGreen");
        let second = build(
            master_id_generator.generate_id(),
            "othersquare",
            other_square.get_vertex_data(),
            other_square.get_texture_coords(),
            other_square.get_shader_program(),
            other_square_resources,
            -300_000,
            other_square_texture,
        );
        let custom_texture = texture_manager.get_texture_id("BasicCharacterRed");
        let third = build(
            master_id_generator.generate_id(),
            "customobject",
            custom.get_vertex_data(),
            custom.get_texture_coords(),
            custom.get_shader_program(),
            custom_resources,
            0,
            custom_texture,
        );
        self.add_object(first);
        self.add_object(second);
        self.add_object(third);
        assert(self@.take(old(self)@.len() as int) =~= old(self)@);
    }

    /// Appends an entity.
    pub fn add_object(&mut self, obj: Generic2DGraphicsObject)
        ensures
            final(self)@ == old(self)@.push(obj@),
    {
        self.scene.add_object(obj);
    }

    /// The entities, in the order in which they were added.
    pub fn get_objects(&self) -> (objects: &Vec<Generic2DGraphicsObject>)
        ensures
            objects@.map_values(|object: Generic2DGraphicsObject| object@) == self@,
    {
        self.scene.get_objects()
    }

    /// The scene.
    pub fn get_scene(&self) -> (scene: &Scene)
        ensures
            scene@ == self@,
    {
        &self.scene
    }
}

} // verus!
