//! Resolutions of a target to its endpoints.
//!
//! An endpoint is known by its identifier: two endpoints are the same endpoint if
//! and only if their identifiers are equal.

pub mod inner;
pub mod inner_laws;
pub mod laws;
pub mod recover;
pub mod resolution;
pub mod resolution_laws;
pub mod update;
