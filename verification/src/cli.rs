//! The command lines of the two clients.

pub mod args;
pub mod data_center;
pub mod resolver;
