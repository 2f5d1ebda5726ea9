//! Forwarding connections as they are.

use vstd::prelude::*;

verus! {

/// Forwards connections to where `connect` connects.
#[derive(Debug)]
pub struct Forward<C> {
    pub connect: C,
}

impl<C> Forward<C> {
    pub fn new(connect: C) -> (forward: Self)
        ensures
            forward.connect == connect,
    {
        Forward { connect }
    }
}

impl<C: Clone> Forward<C> {
    /// What a connection that is meant for `target` is forwarded with: a connector of its own.
    pub fn call<T, I>(&self, target: T, io: I) -> (plan: (C, T, I))
        ensures
            cloned(self.connect, plan.0),
            plan.1 == target,
            plan.2 == io,
    {
        (self.connect.clone(), target, io)
    }
}

} // verus!
