//! Service profiles: how the requests to a service are told apart and treated.

pub mod api;
pub mod budget;
pub mod client;
pub mod laws;
pub mod pattern;
pub mod request;
pub mod request_laws;
pub mod route_laws;
pub mod response;
pub mod route;
pub mod updates;
