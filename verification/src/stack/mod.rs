//! Putting services together.

pub mod boxed;
pub mod chain;
pub mod layer_response;
