//! Bookkeeping around the drawable entities.

pub mod master_graphics_list;
pub mod master_id_generator;
