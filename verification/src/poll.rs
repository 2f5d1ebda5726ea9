//! The outcome of polling for a value that may not be available yet.

use vstd::prelude::*;

verus! {

/// Whether a polled value is available.
#[derive(Clone, Copy, Debug, PartialEq, Eq)]
pub enum Poll<T> {
    Ready(T),
    Pending,
}

} // verus!
