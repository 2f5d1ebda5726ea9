//! The endpoints of a service as the control plane describes them.

pub mod api;
pub mod authority;
pub mod labels;
pub mod laws;
pub mod pb;
