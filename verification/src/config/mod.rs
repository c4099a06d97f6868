//! The declarative configuration a gateway is built from.

pub mod backend;
pub mod host;
pub mod inet_address;
pub mod location;
pub mod router_config;
