//! Discovering a strategy by the profile of a service.

use crate::profiles::route::Routes;
use vstd::prelude::*;

verus! {

/// Discovers strategies.
#[derive(Debug)]
pub struct Discover<P, E> {
    pub get_profiles: P,
    pub get_endpoints: E,
}

/// The strategy for a service whose destination is not overridden.
#[derive(Clone, Copy, Debug, PartialEq, Eq)]
pub struct Strategy {}

impl<P, E> Discover<P, E> {
    /// The strategy by the first profile, if one was received before the stream ended.
    ///
    /// Overridden destinations are not supported.
    pub fn call<B, X>(received: Result<Option<Routes<B>>, X>) -> (strategy: Result<Strategy, X>)
        requires
            received matches Ok(Some(routes)) ==> routes.dst_overrides@.len() == 0,
        ensures
            strategy == match received {
                Ok(_) => Ok::<Strategy, X>(Strategy {  }),
                Err(error) => Err(error),
            },
    {
        match received {
            Ok(_) => Ok(Strategy {  }),
            Err(error) => Err(error),
        }
    }
}

} // verus!
