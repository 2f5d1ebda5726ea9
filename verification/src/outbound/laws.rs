//! How outbound connections are treated.

use super::profiles::{Called, Event, FromProfiles, Router, Step};
use super::router;
use crate::net::SocketAddr;
use crate::profiles::route::Routes;
use crate::strategy::logical_laws as strategies;
use crate::strategy::types::{self, Detect, Logical, Split, Strategy};
use vstd::prelude::*;

verus! {

/// A connection to an opaque port is forwarded as it is, without a profile. For any other the
/// profile of its address is looked up.
pub proof fn law_opaque_ports_are_forwarded<P, B>(
    by: FromProfiles<P>,
    addr: SocketAddr,
    called: Called<B>,
)
    requires
        call_ensures(FromProfiles::<P>::call::<B>, (&by, addr), called),
    ensures
        called is Opaque <==> by.opaque_ports@.contains(addr.2),
        called matches Called::GetProfiles(of) ==> of == addr,
        called matches Called::Opaque(target) ==> {
            &&& target.addr == addr
            &&& target.strategy.addr == addr
            &&& target.strategy.detect is Opaque
            &&& strategies::is_itself(target.strategy.logical, addr)
            &&& target.profile.routes@.len() == 0
            &&& target.profile.dst_overrides@.len() == 0
        },
{
    if let Called::Opaque(target) = called {
        strategies::lemma_itself(target.strategy.logical, addr);
    }
}

/// Whether `strategy` detects protocols of connections to `addr`, which go to `addr` itself
/// unless the profile overrides that, and to `split` if it does.
pub open spec fn is_by_profile<B>(
    strategy: Strategy,
    addr: SocketAddr,
    routes: Routes<B>,
    split: Split,
) -> bool {
    &&& strategy.addr == addr
    &&& strategy.detect matches Detect::Client { buffer_capacity, timeout }
    &&& buffer_capacity == 0
    &&& timeout.secs == 0
    &&& timeout.nanos == 0
    &&& if routes.dst_overrides@.len() == 0 {
        strategies::is_itself(strategy.logical, addr)
    } else {
        &&& strategy.logical matches Logical::Split(made)
        &&& made.weights@ == split.weights@
        &&& types::logical_views(made.targets@) == types::logical_views(split.targets@)
    }
}

/// The first strategy is that of the first profile, and without a profile there is none.
pub proof fn law_first_strategy_is_by_profile<P, B, X>(
    addr: SocketAddr,
    profile: Result<&Routes<B>, X>,
    split: Split,
    initial: Result<Strategy, X>,
)
    requires
        call_ensures(FromProfiles::<P>::initial::<B, X>, (addr, profile, split), initial),
    ensures
        initial matches Ok(strategy) ==> (profile matches Ok(routes) && is_by_profile(
            strategy,
            addr,
            *routes,
            split,
        )),
        initial matches Err(error) ==> profile == Err::<&Routes<B>, X>(error),
{
    if let (Ok(strategy), Ok(routes)) = (initial, profile) {
        if routes.dst_overrides@.len() == 0 {
            strategies::lemma_itself(strategy.logical, addr);
        }
    }
}

/// Each profile publishes its strategy, until nobody is left to publish to. A stream of profiles
/// that ends leaves the last strategy.
pub proof fn law_strategies_are_published<P, B>(
    addr: SocketAddr,
    event: Event<'_, B>,
    split: Split,
    step: Step,
)
    requires
        call_ensures(FromProfiles::<P>::publish::<B>, (addr, event, split), step),
    ensures
        step is Stop <==> event is Closed,
        step is Wait <==> event matches Event::Profile(None),
        step matches Step::Broadcast(strategy) ==> (event matches Event::Profile(Some(routes))
            && is_by_profile(strategy, addr, *routes, split)),
{
    if let (Step::Broadcast(strategy), Event::Profile(Some(routes))) = (step, event) {
        if routes.dst_overrides@.len() == 0 {
            strategies::lemma_itself(strategy.logical, addr);
        }
    }
}

/// A router keeps what it is made of, and the opaque ports are those that are listed.
pub proof fn law_router_settings<P, M>(
    opaque_ports: Vec<u16>,
    get_profiles: P,
    make_accept: M,
    made: Router<FromProfiles<P>, M>,
    port: u16,
)
    requires
        call_ensures(
            Router::<FromProfiles<P>, M>::from_profiles,
            (&opaque_ports, get_profiles, make_accept),
            made,
        ),
    ensures
        made.get_strategy.opaque_ports@.contains(port) <==> opaque_ports@.contains(port),
        made.get_strategy.get_profiles == get_profiles,
        made.make_accept == make_accept,
{
}

/// Connections are accepted for their target, and the client decides on their protocol. What is
/// detected is proxied to the target, and a connection that fails is dropped. An opaque
/// connection carries what is not known.
pub proof fn law_connections_are_proxied<I, X>(
    by: router::Router,
    target: SocketAddr,
    accept: router::Accept,
    detected: Result<(router::Protocol, I), X>,
    proxied: Option<(SocketAddr, router::Protocol, I)>,
    io: I,
    found: (router::Protocol, I),
)
    requires
        call_ensures(router::Router::call, (&by, target), accept),
        call_ensures(router::Accept::call::<I, X>, (&accept, detected), proxied),
        call_ensures(router::Detect::detect::<I>, (&router::Detect::Opaque, io), found),
    ensures
        accept.target == target,
        accept.detect is Client,
        proxied is Some <==> detected is Ok,
        proxied matches Some((to, protocol, given)) ==> to == target && detected == Ok::<
            (router::Protocol, I),
            X,
        >((protocol, given)),
        found.0 is Unknown,
        found.1 == io,
{
}

} // verus!
