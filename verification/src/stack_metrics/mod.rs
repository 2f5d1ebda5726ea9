//! Counting what happens to the services of a stack.

pub mod counters;
pub mod laws;
pub mod report;
pub mod services;
