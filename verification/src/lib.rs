//! The object and scene model of a small real-time 2D rendering engine:
//! drawable entities with their transforms and collision tests, the scenes
//! that serve as templates, the catalog of scenes, and the registry of the
//! entities that take part in the frame loop.
//!
//! Every quantity is an exact integer. Lengths, scale factors, headings and
//! times are fixed-point numbers with `UNIT` for 1; angles count in steps of
//! which `FULL_ROTATION` make a turn. The collision tests and the composition
//! of transforms are decided without rounding, so that what the contracts
//! say holds of every input.
//!
//! The library does no input or output. Handles of shader programs, buffers
//! and textures come from the program around it, and so does the heading
//! that belongs to an angle.

pub mod engine;
