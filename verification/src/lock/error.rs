//! How a lock fails.

use std::sync::Arc;
use vstd::prelude::*;

verus! {

/// The shared state was abandoned in the middle of a change.
#[derive(Debug)]
pub struct Poisoned(pub ());

/// The inner service failed. All clones of the lock fail with the same error.
#[derive(Debug)]
pub struct ServiceError<E>(pub Arc<E>);

impl Poisoned {
    /// The message of this error.
    pub fn message(&self) -> (message: String)
        ensures
            message@ == "poisoned"@,
    {
        "poisoned".to_owned()
    }
}

impl<E> ServiceError<E> {
    /// The error of the inner service.
    pub fn inner(&self) -> (inner: &E)
        ensures
            *inner == *self.0,
    {
        &self.0
    }
}

/// An error of a lock says what it is, or holds the error of the service.
pub proof fn law_errors_say_what_they_are<E>(
    poisoned: Poisoned,
    message: String,
    error: ServiceError<E>,
    inner: &E,
)
    requires
        call_ensures(Poisoned::message, (&poisoned,), message),
        call_ensures(ServiceError::<E>::inner, (&error,), inner),
    ensures
        message@ == "poisoned"@,
        *inner == *error.0,
{
}

} // verus!
