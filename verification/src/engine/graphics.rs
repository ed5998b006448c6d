//! Drawable entities and the collections that hold them.

pub mod assets;
pub mod internal_object;
pub mod texture_manager;
pub mod util;
