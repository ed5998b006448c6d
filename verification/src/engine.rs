//! The engine's components, leaf first.

pub mod event_loop;
pub mod events;
pub mod graphics;
pub mod key_states;
pub mod math;
pub mod scenes;
pub mod util;
