//! Helpers that the engine's components share.

pub mod master_clock;
pub mod name_table;
