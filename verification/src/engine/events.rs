//! What a frame does to the entities: moving them and finding collisions.

pub mod collision;
pub mod movement;
