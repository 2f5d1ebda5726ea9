//! How connections to an address are treated.

pub mod api;
pub mod client;
pub mod discover;
pub mod laws;
pub mod logical;
pub mod logical_laws;
pub mod types;
pub mod weights;
