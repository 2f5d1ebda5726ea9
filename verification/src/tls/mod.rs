//! Accepting connections, with or without TLS.

pub mod accept;
pub mod buf;
pub mod detect;
pub mod identity;
pub mod laws;
pub mod operation_laws;
pub mod ports;
