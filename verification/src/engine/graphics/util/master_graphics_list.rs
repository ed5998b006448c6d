//! The registry of the entities that take part in the running frame loop,
//! keyed by name.

use vstd::prelude::*;
use crate::engine::graphics::internal_object::graphics_object::{
    Generic2DGraphicsObject,
    ObjectView,
    RenderResources,
};
use crate::engine::scenes::scene::Scene;
use crate::engine::util::name_table::NameTable;

verus! {

/// The copy of a scene's entity that the registry holds: the same state,
/// with render resources of its own.
pub open spec fn loaded_copy(template: ObjectView, resources: RenderResources) -> ObjectView {
    ObjectView { resources, ..template }
}

/// The registry after the entities of a scene were copied into it one by
/// one, each with its own render resources. Of two entities with one name
/// the later one stays.
pub open spec fn with_scene(
    registry: Map<Seq<char>, ObjectView>,
    scene: Seq<ObjectView>,
    resources: Seq<RenderResources>,
) -> Map<Seq<char>, ObjectView>
    decreases scene.len(),
{
    if scene.len() == 0 {
        registry
    } else {
        with_scene(registry, scene.drop_last(), resources.drop_last()).insert(
            scene.last().name,
            loaded_copy(scene.last(), resources.last()),
        )
    }
}

/// After a scene was loaded, the registry holds under the name of each of
/// the scene's entities a copy of the last entity of that name: its state as
/// the scene has it, and render resources that are the copy's own. Names
/// that the scene does not use keep their entities. The scene is only read:
/// what happens to the copies leaves its entities as they are.
pub proof fn lemma_loaded_scene(
    registry: Map<Seq<char>, ObjectView>,
    scene: Seq<ObjectView>,
    resources: Seq<RenderResources>,
    at: int,
)
    requires
        scene.len() == resources.len(),
        0 <= at < scene.len(),
        forall|later: int| at < later < scene.len() ==> scene[later].name != scene[at].name,
    ensures
        with_scene(registry, scene, resources).contains_key(scene[at].name),
        with_scene(registry, scene, resources)[scene[at].name] == loaded_copy(scene[at], resources[at]),
        with_scene(registry, scene, resources)[scene[at].name].position == scene[at].position,
        with_scene(registry, scene, resources)[scene[at].name].resources == resources[at],
    decreases scene.len(),
{
    if at < scene.len() - 1 {
        lemma_loaded_scene(registry, scene.drop_last(), resources.drop_last(), at);
    }
}

/// Names that a scene does not use keep what they had when it is loaded.
pub proof fn lemma_loading_keeps_other_names(
    registry: Map<Seq<char>, ObjectView>,
    scene: Seq<ObjectView>,
    resources: Seq<RenderResources>,
    name: Seq<char>,
)
    requires
        forall|i: int| 0 <= i < scene.len() ==> scene[i].name != name,
    ensures
        with_scene(registry, scene, resources).contains_key(name) == registry.contains_key(name),
        registry.contains_key(name) ==> with_scene(registry, scene, resources)[name] == registry[name],
    decreases scene.len(),
{
    if scene.len() > 0 {
        lemma_loading_keeps_other_names(registry, scene.drop_last(), resources.drop_last(), name);
    }
}

/// What a table of entities holds, as plain mathematical values.
pub open spec fn views(table: Map<Seq<char>, Generic2DGraphicsObject>) -> Map<Seq<char>, ObjectView> {
    table.map_values(|object: Generic2DGraphicsObject| object@)
}

/// The live registry: one entity per name.
pub struct MasterGraphicsList {
    objects: NameTable<Generic2DGraphicsObject>,
}

impl View for MasterGraphicsList {
    type V = Map<Seq<char>, ObjectView>;

    closed spec fn view(&self) -> Map<Seq<char>, ObjectView> {
        views(self.objects@)
    }
}

impl MasterGraphicsList {
    /// The registry's invariant, which `new` establishes and every operation
    /// keeps: no name occurs twice.
    pub closed spec fn well_formed(&self) -> bool {
        self.objects.well_formed()
    }

    /// The names, in the order in which they were first added.
    pub closed spec fn names(&self) -> Seq<Seq<char>> {
        self.objects.names()
    }

    /// The entities, each at the place of its name.
    pub closed spec fn entries(&self) -> Seq<ObjectView> {
        self.objects.items().map_values(|object: Generic2DGraphicsObject| object@)
    }

    /// The entity at a place is the entity under the name at that place,
    /// and the registry holds the names of its places and no others.
    pub proof fn lemma_entries_by_name(&self, at: int)
        requires
            self.well_formed(),
            0 <= at < self.names().len(),
        ensures
            self.entries().len() == self.names().len(),
            self.names().no_duplicates(),
            self@.contains_key(self.names()[at]),
            self@[self.names()[at]] == self.entries()[at],
            forall|name: Seq<char>| self@.contains_key(name) <==> self.names().contains(name),
    {
        crate::engine::util::name_table::lemma_table_lookup(self.names(), self.objects.items(), at);
    }

    /// An empty registry.
    pub fn new() -> (list: Self)
        ensures
            list.well_formed(),
            list@ == Map::<Seq<char>, ObjectView>::empty(),
            list.names() == Seq::<Seq<char>>::empty(),
            list.entries() == Seq::<ObjectView>::empty(),
    {
        let list = MasterGraphicsList { objects: NameTable::new() };
        assert(list@ =~= Map::<Seq<char>, ObjectView>::empty());
        assert(list.entries() =~= Seq::<ObjectView>::empty());
        list
    }

    /// Puts an entity under its own name and returns its identifier. An
    /// entity that the registry held under that name is replaced.
    pub fn add_object(&mut self, obj: Generic2DGraphicsObject) -> (id: u64)
        requires
            old(self).well_formed(),
        ensures
            final(self).well_formed(),
            final(self)@ == old(self)@.insert(obj@.name, obj@),
            id == obj@.id,
    {
        let id = obj.get_id();
        let name = obj.get_name().to_owned();
        self.objects.insert(name, obj);
        assert(self@ =~= old(self)@.insert(obj@.name, obj@));
        id
    }

    /// Copies every entity of a scene into the registry, each copy with the
    /// render resources at its place in `resources`. Returns `false`, and
    /// leaves the registry as it is, unless there is one set of resources
    /// per entity.
    pub fn load_scene(&mut self, scene: &Scene, resources: &Vec<RenderResources>) -> (loaded: bool)
        requires
            old(self).well_formed(),
        ensures
            final(self).well_formed(),
            loaded == (scene@.len() == resources@.len()),
            loaded ==> final(self)@ == with_scene(old(self)@, scene@, resources@),
            !loaded ==> final(self)@ == old(self)@,
    {
        let objects = scene.get_objects();
        if objects.len() != resources.len() {
            return false;
        }
        let mut i: usize = 0;
        while i < objects.len()
            invariant
                i <= objects.len(),
                objects.len() == resources.len(),
                objects@.map_values(|object: Generic2DGraphicsObject| object@) == scene@,
                self.well_formed(),
                self@ == with_scene(old(self)@, scene@.take(i as int), resources@.take(i as int)),
            decreases objects.len() - i,
        {
            let copy = objects[i].clone_with_resources(resources[i]);
            proof {
                let taken = scene@.take(i + 1);
                let given = resources@.take(i + 1);
                assert(taken.drop_last() =~= scene@.take(i as int));
                assert(given.drop_last() =~= resources@.take(i as int));
                assert(taken.last() == objects[i as int]@);
                assert(given.last() == resources[i as int]);
            }
            self.add_object(copy);
            i += 1;
        }
        proof {
            assert(scene@.take(i as int) =~= scene@);
            assert(resources@.take(i as int) =~= resources@);
        }
        true
    }

    /// The entity under a name.
    pub fn get_object(&self, name: &str) -> (found: Option<&Generic2DGraphicsObject>)
        requires
            self.well_formed(),
        ensures
            match found {
                Some(object) => self@.contains_key(name@) && object@ == self@[name@],
                None => !self@.contains_key(name@),
            },
    {
        self.objects.get(name)
    }

    /// The first entity, in the registry's order, that has an identifier.
    pub fn get_object_by_id(&self, id: u64) -> (found: Option<&Generic2DGraphicsObject>)
        requires
            self.well_formed(),
        ensures
            match found {
                Some(object) => exists|at: int|
                    0 <= at < self.entries().len() && #[trigger] self.entries()[at] == object@
                        && object@.id == id && forall|earlier: int|
                        0 <= earlier < at ==> (#[trigger] self.entries()[earlier]).id != id,
                None => forall|at: int|
                    0 <= at < self.entries().len() ==> (#[trigger] self.entries()[at]).id != id,
            },
    {
        let count = self.objects.len();
        let mut i: usize = 0;
        while i < count
            invariant
                i <= count,
                count == self.entries().len(),
                forall|earlier: int| 0 <= earlier < i ==> (#[trigger] self.entries()[earlier]).id != id,
            decreases count - i,
        {
            let object = self.objects.value_at(i);
            if object.get_id() == id {
                assert(self.entries()[i as int] == object@);
                return Some(object);
            }
            i += 1;
        }
        None
    }

    /// The entity under a name, to be changed where it stands. The registry
    /// keeps it under that name whatever becomes of it.
    pub fn get_object_mut(&mut self, name: &str) -> (found: Option<&mut Generic2DGraphicsObject>)
        requires
            old(self).well_formed(),
        ensures
            final(self).well_formed(),
            final(self).names() == old(self).names(),
            match found {
                Some(object) => old(self)@.contains_key(name@) && object@ == old(self)@[name@] && final(self)@ == old(self)@.insert(name@, final(object)@),
                None => !old(self)@.contains_key(name@) && final(self)@ == old(self)@,
            },
    {
        proof {
            let table = self.objects@;
            assert forall|object: Generic2DGraphicsObject| #[trigger]
                views(table.insert(name@, object)) == self@.insert(name@, object@) by {
                assert(views(table.insert(name@, object)) =~= self@.insert(name@, object@));
            }
        }
        self.objects.get_mut(name)
    }

    /// The number of entities.
    pub fn len(&self) -> (count: usize)
        requires
            self.well_formed(),
        ensures
            count == self.names().len(),
            count == self.entries().len(),
    {
        self.objects.len()
    }

    /// The name at a place.
    pub fn name_at(&self, at: usize) -> (name: &String)
        requires
            at < self.names().len(),
        ensures
            name@ == self.names()[at as int],
    {
        self.objects.name_at(at)
    }

    /// The entity at a place.
    pub fn object_at(&self, at: usize) -> (object: &Generic2DGraphicsObject)
        requires
            at < self.entries().len(),
        ensures
            object@ == self.entries()[at as int],
    {
        self.objects.value_at(at)
    }

    /// All entities, each at the place of its name.
    pub fn get_objects(&self) -> (objects: &Vec<Generic2DGraphicsObject>)
        ensures
            objects@.map_values(|object: Generic2DGraphicsObject| object@) == self.entries(),
    {
        self.objects.values()
    }

    /// Recomputes the model matrix of every entity, as a frame does before
    /// it draws.
    pub fn update_model_matrices(&mut self)
        requires
            old(self).well_formed(),
        ensures
            final(self).well_formed(),
            final(self).names() == old(self).names(),
            final(self).entries() == old(self).entries().map_values(|object: ObjectView| object.refreshed()),
            final(self)@ == old(self)@.map_values(|object: ObjectView| object.refreshed()),
    {
        let count = self.objects.len();
        let mut i: usize = 0;
        while i < count
            invariant
                i <= count,
                count == self.objects.items().len(),
                self.well_formed(),
                self.names() == old(self).names(),
                self.entries().len() == count,
                old(self).entries().len() == count,
                forall|j: int| 0 <= j < i ==> self.entries()[j] == (#[trigger] old(self).entries()[j]).refreshed(),
                forall|j: int| i <= j < count ==> self.entries()[j] == #[trigger] old(self).entries()[j],
            decreases count - i,
        {
            let ghost before = self.entries();
            let object = self.objects.value_at_mut(i);
            object.update_model_matrix();
            assert(self.entries() =~= before.update(i as int, before[i as int].refreshed()));
            i += 1;
        }
        proof {
            let names = self.names();
            let renewed = old(self).entries().map_values(|object: ObjectView| object.refreshed());
            assert(self.entries() =~= renewed);
            assert forall|name: Seq<char>| #[trigger] self@.contains_key(name) implies self@[name]
                == old(self)@[name].refreshed() by {
                let at = names.index_of(name);
                crate::engine::util::name_table::lemma_table_lookup(names, self.objects.items(), at);
                crate::engine::util::name_table::lemma_table_lookup(names, old(self).objects.items(), at);
                assert(self.entries()[at] == old(self).entries()[at].refreshed());
            }
            assert(self@ =~= old(self)@.map_values(|object: ObjectView| object.refreshed()));
        }
    }

    /// Takes the entity under a name out of the registry.
    pub fn remove_object(&mut self, name: &str)
        requires
            old(self).well_formed(),
        ensures
            final(self).well_formed(),
            final(self)@ == old(self)@.remove(name@),
    {
        self.objects.remove(name);
        assert(self@ =~= old(self)@.remove(name@));
    }

    /// Empties the registry.
    pub fn remove_all(&mut self)
        ensures
            final(self).well_formed(),
            final(self)@ == Map::<Seq<char>, ObjectView>::empty(),
    {
        self.objects.clear();
        assert(self@ =~= Map::<Seq<char>, ObjectView>::empty());
    }
}

} // verus!
