//! Command layer of a desktop application: a greeting formatter and a
//! shared, atomically swappable configuration cell read by request-style
//! handlers.

pub mod config_cell;
pub mod greeting;
