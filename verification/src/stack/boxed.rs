//! Hiding the type of a service.

use std::marker::PhantomData;
use vstd::prelude::*;

verus! {

/// Hides the type of services with these requests, responses and errors.
#[derive(Debug)]
pub struct BoxLayer<Req, Rsp, E> {
    pub marker: PhantomData<(Req, Rsp, E)>,
}

impl<Req, Rsp, E> BoxLayer<Req, Rsp, E> {
    pub fn new() -> (layer: Self)
        ensures
            layer.marker == PhantomData::<(Req, Rsp, E)>,
    {
        BoxLayer { marker: PhantomData }
    }
}

} // verus!
