//! Outbound connections.

pub mod laws;
pub mod profiles;
pub mod router;
