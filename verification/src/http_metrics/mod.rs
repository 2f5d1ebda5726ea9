//! Metrics of HTTP requests: which are kept, and under which names they are reported.

pub mod last_update;
pub mod registry;
pub mod report;
