//! Handing the responses of a service to another one.

use vstd::prelude::*;

verus! {

/// Hands the responses of `a` to `b`.
#[derive(Debug)]
pub struct Chain<A, B> {
    pub a: A,
    pub b: B,
}

impl<A, B> Chain<A, B> {
    pub fn new(a: A, b: B) -> (chain: Self)
        ensures
            chain == (Chain { a, b }),
    {
        Chain { a, b }
    }
}

impl<A, B: Clone> Chain<A, B> {
    /// The service to call next and its request, of which `response` is the outcome of calling
    /// the first service. An error of the first service is the outcome.
    pub fn call<T, X>(&self, response: Result<T, X>) -> (next: Result<(B, T), X>)
        ensures
            match response {
                Ok(request) => next matches Ok((b, handed)) && cloned(self.b, b) && handed
                    == request,
                Err(error) => next == Err::<(B, T), X>(error),
            },
    {
        match response {
            Ok(request) => Ok((self.b.clone(), request)),
            Err(error) => Err(error),
        }
    }
}

/// The second service gets the response of the first as it is, and an error of the first is the
/// outcome.
pub proof fn law_responses_are_handed_on<A, B: Clone, T, X>(
    a: A,
    b: B,
    chain: Chain<A, B>,
    response: Result<T, X>,
    next: Result<(B, T), X>,
)
    requires
        call_ensures(Chain::<A, B>::new, (a, b), chain),
        call_ensures(Chain::<A, B>::call::<T, X>, (&chain, response), next),
    ensures
        chain.a == a,
        next matches Ok((service, request)) ==> cloned(b, service) && response == Ok::<T, X>(
            request,
        ),
        next matches Err(error) ==> response == Err::<T, X>(error),
{
}

} // verus!
