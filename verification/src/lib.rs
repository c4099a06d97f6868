//! Routing core of a reverse-proxy gateway: pattern rules, ordered location
//! tables, a gateway registry with request dispatch, and the structured
//! error values every stage reports faults with.

pub mod config;
pub mod error;
pub mod pattern;
pub mod text;
pub mod router;
pub mod order;
