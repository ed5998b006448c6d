//! Ready-made shapes with the sources of their shader programs.

pub mod custom_shader;
pub mod square;
pub mod square_shader;
