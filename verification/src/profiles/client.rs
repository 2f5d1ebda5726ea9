//! Looking up the profile of a service.
//!
//! The control plane, the timer and the channel that profiles are published on are driven
//! from outside.

use super::route::{NameAddr, Routes};
use crate::net::SocketAddr;
use crate::time::Duration;
use vstd::prelude::*;

verus! {

/// The address of a service.
#[derive(Debug)]
pub enum Addr {
    Name(NameAddr),
    Socket(SocketAddr),
}

/// There is no profile for the address.
#[derive(Debug)]
pub struct InvalidProfileAddr(pub Addr);

/// Looks up profiles of the services under the domains `suffixes`.
#[derive(Debug)]
pub struct Client<S, R, D> {
    pub initial_timeout: Duration,
    pub suffixes: Vec<D>,
    pub context_token: String,
    pub service: S,
    pub recover: R,
}

/// A request for a profile.
#[derive(Debug)]
pub struct GetDestination {
    pub path: String,
    pub context_token: String,
}

/// What comes first after a profile was requested.
pub enum Initial<B, X> {
    /// A profile, or a failure that was not recovered from.
    Profile(Result<Routes<B>, X>),
    /// The initial timeout.
    TimedOut,
}

/// What comes after the first profile.
pub enum Event<B, X> {
    /// All receivers of the profile are gone.
    Closed,
    /// The next profile, or nothing if there will be no other.
    Profile(Option<Result<Routes<B>, X>>),
    /// Whether there was a receiver for a profile that was published.
    Broadcast(bool),
}

/// How publishing profiles goes on.
pub enum Step<B> {
    /// Wait for the next profile or for the receivers to go.
    Wait,
    /// Publish the profile.
    Broadcast(Routes<B>),
    /// Stop.
    Stop,
}

impl InvalidProfileAddr {
    /// The address that has no profile.
    pub fn addr(&self) -> (addr: &Addr)
        ensures
            *addr == self.0,
    {
        &self.0
    }
}

/// Whether one of `contains` is true.
pub open spec fn any(contains: Seq<bool>) -> bool {
    exists|i: int| 0 <= i < contains.len() && #[trigger] contains[i]
}

impl<S, R, D> Client<S, R, D> {
    pub fn new(
        service: S,
        recover: R,
        initial_timeout: Duration,
        context_token: String,
        suffixes: Vec<D>,
    ) -> (client: Self)
        ensures
            client == (Client { initial_timeout, suffixes, context_token, service, recover }),
    {
        Client { initial_timeout, suffixes, context_token, service, recover }
    }

    /// The request for the profile of `dst`, which is written `path`.
    ///
    /// `contains` says for each suffix whether the name of `dst` is under it. An address
    /// without a name, or with a name under no suffix, has no profile.
    pub fn routes(&self, dst: Addr, path: String, contains: &Vec<bool>) -> (request: Result<
        GetDestination,
        InvalidProfileAddr,
    >)
        requires
            contains@.len() == self.suffixes@.len(),
        ensures
            match request {
                Ok(request) => dst is Name && any(contains@) && request.path == path
                    && request.context_token@ == self.context_token@,
                Err(InvalidProfileAddr(addr)) => addr == dst && !(dst is Name && any(contains@)),
            },
    {
        if let Addr::Socket(_) = dst {
            return Err(InvalidProfileAddr(dst));
        }
        let mut i: usize = 0;
        while i < contains.len()
            invariant
                i <= contains@.len(),
                dst is Name,
                forall|j: int| 0 <= j < i ==> !#[trigger] contains@[j],
            decreases contains@.len() - i,
        {
            if contains[i] {
                assert(contains@[i as int]);
                return Ok(GetDestination { path, context_token: self.context_token.clone() });
            }
            i += 1;
        }
        Err(InvalidProfileAddr(dst))
    }

    /// The first profile. Nothing is known of a service whose profile does not come before
    /// the initial timeout.
    pub fn initial_profile<B, X>(initial: Initial<B, X>) -> (profile: Result<Routes<B>, X>)
        ensures
            match initial {
                Initial::Profile(result) => profile == result,
                Initial::TimedOut => {
                    &&& profile matches Ok(routes)
                    &&& routes.routes@.len() == 0
                    &&& routes.dst_overrides@.len() == 0
                },
            },
    {
        match initial {
            Initial::Profile(result) => result,
            Initial::TimedOut => Ok(Routes::empty()),
        }
    }

    /// How publishing profiles goes on after `event`.
    pub fn publish<B, X>(event: Event<B, X>) -> (step: Step<B>)
        ensures
            step == match event {
                Event::Closed => Step::Stop,
                Event::Profile(Some(Ok(profile))) => Step::Broadcast(profile),
                Event::Profile(_) => Step::Stop,
                Event::Broadcast(true) => Step::Wait,
                Event::Broadcast(false) => Step::<B>::Stop,
            },
    {
        match event {
            Event::Closed => Step::Stop,
            Event::Profile(Some(Ok(profile))) => Step::Broadcast(profile),
            Event::Profile(_) => Step::Stop,
            Event::Broadcast(heard) => {
                if heard {
                    Step::Wait
                } else {
                    Step::Stop
                }
            },
        }
    }
}

} // verus!
