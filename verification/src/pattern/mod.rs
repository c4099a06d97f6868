//! Rules that a host or a path is held against.

pub mod engine;
pub mod laws;
pub mod matcher;
pub mod wildcard;
