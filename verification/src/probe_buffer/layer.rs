//! Putting a buffer before a service.

use super::dispatch::{Dispatch, Phase};
use crate::time::Duration;
use std::marker::PhantomData;
use vstd::prelude::*;

verus! {

/// Puts a buffer of `capacity` requests before a service.
#[derive(Debug)]
pub struct SpawnProbeBufferLayer<Req> {
    pub capacity: usize,
    pub probe_timeout: Duration,
    pub marker: PhantomData<Req>,
}

impl<Req> SpawnProbeBufferLayer<Req> {
    pub fn new(capacity: usize, probe_timeout: Duration) -> (layer: Self)
        ensures
            layer.capacity == capacity,
            layer.probe_timeout == probe_timeout,
    {
        SpawnProbeBufferLayer { capacity, probe_timeout, marker: PhantomData }
    }

    /// The capacity of the queue before `inner`, and what drives `inner`.
    pub fn layer<S, D, E>(&self, inner: S) -> (made: (usize, Dispatch<S, D, E>))
        ensures
            made.0 == self.capacity,
            made.1 == (Dispatch::<S, D, E> {
                inner: Some(inner),
                probe_timeout: self.probe_timeout,
                probe: None,
                phase: Phase::Idle,
            }),
    {
        (self.capacity, Dispatch::new(inner, self.probe_timeout))
    }
}

impl<Req> Clone for SpawnProbeBufferLayer<Req> {
    fn clone(&self) -> (layer: Self)
        ensures
            layer.capacity == self.capacity,
            layer.probe_timeout == self.probe_timeout,
    {
        SpawnProbeBufferLayer::new(self.capacity, self.probe_timeout)
    }
}

} // verus!
