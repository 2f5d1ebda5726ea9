//! How a buffered service fails.

use std::sync::Arc;
use vstd::prelude::*;

verus! {

/// The service behind the buffer is gone.
#[derive(Clone, Copy, Debug, PartialEq, Eq)]
pub struct Closed(pub ());

/// The service behind the buffer failed.
#[derive(Debug)]
pub struct Failed<E>(pub Arc<E>);

impl Closed {
    /// The message of this error.
    pub fn message(&self) -> (message: String)
        ensures
            message@ == "Closed"@,
    {
        "Closed".to_owned()
    }
}

} // verus!
