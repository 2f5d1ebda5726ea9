//! A buffer of requests before a service, which is probed while it is idle.

pub mod dispatch;
pub mod error;
pub mod laws;
pub mod layer;
pub mod operation_laws;
pub mod service;
