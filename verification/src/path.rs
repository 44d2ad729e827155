//! Paths in the file system, and the configuration files that they lead to.

pub mod simple_types;
pub mod type_state;
