//! Strategies for outbound connections by the profiles of services.
//!
//! Profiles are looked up outside, and the channels that profiles and strategies are
//! published on are driven there.

use crate::net::{self, SocketAddr};
use crate::profiles::route::Routes;
use crate::strategy::types::{self, Detect, LogicalView, Split, Strategy};
use std::collections::HashSet;
use std::sync::Arc;
use vstd::prelude::*;

verus! {

/// Accepts connections with what `make_accept` makes of a strategy.
#[derive(Debug)]
pub struct Router<S, M> {
    pub get_strategy: S,
    pub make_accept: M,
}

/// Finds strategies by profiles. Connections to `opaque_ports` are forwarded as they are.
pub struct FromProfiles<P> {
    pub opaque_ports: Arc<HashSet<u16>>,
    pub get_profiles: P,
}

/// How connections to `addr` are treated. `V` receives strategies and `R` profiles.
#[derive(Debug)]
pub struct Target<V, R> {
    pub addr: SocketAddr,
    pub strategy: V,
    pub profile: R,
}

/// How a strategy is found.
#[derive(Debug)]
pub enum Called<B> {
    /// It is known, as is the profile. Both are held until nobody receives them.
    Opaque(Target<Strategy, Routes<B>>),
    /// The profile of this address is to be looked up.
    GetProfiles(SocketAddr),
}

/// What happens while strategies are published.
pub enum Event<'a, B> {
    /// All receivers of strategies are gone.
    Closed,
    /// The next profile, nothing if there will be no other.
    Profile(Option<&'a Routes<B>>),
}

/// How publishing strategies goes on.
#[derive(Debug)]
pub enum Step {
    /// Publish the strategy, then wait again.
    Broadcast(Strategy),
    /// Wait again.
    Wait,
    /// Stop.
    Stop,
}

impl<S, M> Router<S, M> {
    pub fn new(get_strategy: S, make_accept: M) -> (router: Self)
        ensures
            router.get_strategy == get_strategy,
            router.make_accept == make_accept,
    {
        Router { get_strategy, make_accept }
    }
}

impl<P, M> Router<FromProfiles<P>, M> {
    /// Accepts connections with strategies that are found by profiles.
    pub fn from_profiles(opaque_ports: &Vec<u16>, get_profiles: P, make_accept: M) -> (router: Self)
        ensures
            forall|port: u16| #[trigger]
                router.get_strategy.opaque_ports@.contains(port) <==> opaque_ports@.contains(port),
            router.get_strategy.get_profiles == get_profiles,
            router.make_accept == make_accept,
    {
        broadcast use vstd::std_specs::hash::group_hash_axioms;

        let mut ports: HashSet<u16> = HashSet::new();
        let mut i: usize = 0;
        while i < opaque_ports.len()
            invariant
                i <= opaque_ports@.len(),
                forall|port: u16| #[trigger]
                    ports@.contains(port) <==> opaque_ports@.take(i as int).contains(port),
            decreases opaque_ports@.len() - i,
        {
            proof {
                let before = opaque_ports@.take(i as int);
                let after = opaque_ports@.take(i + 1);
                assert(after =~= before.push(opaque_ports@[i as int]));
                assert forall|port: u16| #[trigger]
                    after.contains(port) <==> before.contains(port) || port
                        == opaque_ports@[i as int] by {
                    if before.contains(port) {
                        let k = choose|k: int| 0 <= k < before.len() && before[k] == port;
                        assert(after[k] == port);
                    }
                    assert(after[i as int] == opaque_ports@[i as int]);
                }
            }
            ports.insert(opaque_ports[i]);
            i += 1;
        }
        assert(opaque_ports@.take(i as int) =~= opaque_ports@);
        Router::new(FromProfiles { opaque_ports: Arc::new(ports), get_profiles }, make_accept)
    }
}

/// Whether `strategy` forwards connections to `addr` as they are.
pub open spec fn forwards(strategy: Strategy, addr: SocketAddr) -> bool {
    &&& strategy.addr == addr
    &&& strategy.detect == Detect::Opaque
    &&& types::logical_view(strategy.logical) == LogicalView::Forward(
        addr,
        types::unknown_endpoint(),
    )
}

/// Whether `strategy` is the one for `addr` by the profile `routes`, which sends connections to
/// `split` if it overrides the destination.
pub open spec fn by_profile<B>(
    strategy: Strategy,
    addr: SocketAddr,
    routes: Routes<B>,
    split: Split,
) -> bool {
    &&& strategy.addr == addr
    &&& strategy.detect == (Detect::Client { buffer_capacity: 0, timeout: types::no_time() })
    &&& types::logical_view(strategy.logical) == if routes.dst_overrides@.len() == 0 {
        LogicalView::Forward(addr, types::unknown_endpoint())
    } else {
        LogicalView::Split(types::logical_views(split.targets@), split.weights@)
    }
}

impl<P> FromProfiles<P> {
    /// How the strategy for `addr` is found. That of an opaque port is known.
    pub fn call<B>(&self, addr: SocketAddr) -> (called: Called<B>)
        ensures
            if self.opaque_ports@.contains(addr.2) {
                &&& called matches Called::Opaque(target)
                &&& target.addr == addr
                &&& forwards(target.strategy, addr)
                &&& target.profile.routes@.len() == 0
                &&& target.profile.dst_overrides@.len() == 0
            } else {
                called == Called::<B>::GetProfiles(addr)
            },
    {
        broadcast use vstd::std_specs::hash::group_hash_axioms;

        let port: u16 = net::port(&addr);
        if self.opaque_ports.contains(&port) {
            Called::Opaque(
                Target { addr, strategy: Strategy::opaque(addr), profile: Routes::empty() },
            )
        } else {
            Called::GetProfiles(addr)
        }
    }

    /// The first strategy for `addr`, of which `profile` is the outcome of looking up its
    /// profile.
    pub fn initial<B, X>(addr: SocketAddr, profile: Result<&Routes<B>, X>, split: Split) -> (initial:
        Result<Strategy, X>)
        ensures
            match profile {
                Ok(routes) => initial matches Ok(strategy) && by_profile(
                    strategy,
                    addr,
                    *routes,
                    split,
                ),
                Err(error) => initial == Err::<Strategy, X>(error),
            },
    {
        match profile {
            Ok(routes) => Ok(Strategy::from_profile(addr, routes, split)),
            Err(error) => Err(error),
        }
    }

    /// How publishing strategies for `addr` goes on after `event`.
    pub fn publish<B>(addr: SocketAddr, event: Event<'_, B>, split: Split) -> (step: Step)
        ensures
            match event {
                Event::Closed => step is Stop,
                Event::Profile(Some(routes)) => step matches Step::Broadcast(strategy)
                    && by_profile(strategy, addr, *routes, split),
                Event::Profile(None) => step is Wait,
            },
    {
        match event {
            Event::Closed => Step::Stop,
            Event::Profile(Some(routes)) => Step::Broadcast(
                Strategy::from_profile(addr, routes, split),
            ),
            Event::Profile(None) => Step::Wait,
        }
    }
}

} // verus!
