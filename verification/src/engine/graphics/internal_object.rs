//! The drawable entity, its geometry and its collision predicates.

pub mod bounds;
pub mod graphics_object;
pub mod overlap;
