//! A scene: an ordered collection of drawable entities that serves as a
//! template. Loading it into the registry copies its entities.

use vstd::prelude::*;
use crate::engine::graphics::internal_object::graphics_object::{Generic2DGraphicsObject, ObjectView};

verus! {

/// An ordered collection of drawable entities.
pub struct Scene {
    objects: Vec<Generic2DGraphicsObject>,
}

impl View for Scene {
    type V = Seq<ObjectView>;

    closed spec fn view(&self) -> Seq<ObjectView> {
        self.objects@.map_values(|object: Generic2DGraphicsObject| object@)
    }
}

impl Scene {
    /// A scene without entities.
    pub fn new() -> (scene: Self)
        ensures
            scene@ == Seq::<ObjectView>::empty(),
    {
        let scene = Scene { objects: Vec::new() };
        assert(scene@ =~= Seq::<ObjectView>::empty());
        scene
    }

    /// Appends an entity.
    pub fn add_object(&mut self, obj: Generic2DGraphicsObject)
        ensures
            final(self)@ == old(self)@.push(obj@),
    {
        self.objects.push(obj);
        assert(self@ =~= old(self)@.push(obj@));
    }

    /// The entities, in the order in which they were added.
    pub fn get_objects(&self) -> (objects: &Vec<Generic2DGraphicsObject>)
        ensures
            objects@.map_values(|object: Generic2DGraphicsObject| object@) == self@,
    {
        &self.objects
    }
}

} // verus!
