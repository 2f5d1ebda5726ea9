//! A middleware for sharing an inner service via mutual exclusion.
//!
//! Each lock has a state of its own, and all clones of a lock share one state that
//! holds the service while no lock does. The tasks that wait for the service are
//! known by number: the functions here say which of them are to be notified.

pub mod error;
pub mod laws;
pub mod operation_laws;
pub mod service;
pub mod shared;
pub mod waiter;
