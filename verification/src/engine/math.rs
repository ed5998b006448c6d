//! Exact integer arithmetic for the fixed-point quantities of the engine.

pub mod fixed;
pub mod matrix;
pub mod wide;
