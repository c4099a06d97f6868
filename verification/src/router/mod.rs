//! From a request to the backend that serves it.

pub mod gateway;
pub mod laws;
pub mod location_table;
pub mod registry;
