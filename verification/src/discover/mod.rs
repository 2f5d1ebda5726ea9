//! Turning the updates of a resolution into changes of a set of services.

pub mod active;
pub mod from_resolve;
pub mod laws;
pub mod operation_laws;
