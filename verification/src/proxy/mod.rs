//! Serving connections by the protocol that they carry.

pub mod forward;
pub mod instrumented;
pub mod laws;
pub mod server;
pub mod skip_detect;
