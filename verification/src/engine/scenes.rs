//! Scenes, the templates from which the live registry is filled.

pub mod scene;
pub mod scene_manager;
pub mod testscene;
