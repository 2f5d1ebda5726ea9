//! What a profile says of routes, budgets and destinations, and how profiles are watched.

use super::api;
use super::budget::{convert_retry_budget, BudgetParams};
use super::client::{self, Addr, Client, GetDestination, Initial, InvalidProfileAddr, Step};
use super::laws;
use super::request::RequestMatch;
use super::request_laws;
use super::response;
use super::route::{
    convert_dst_override, convert_route, set_route_retry, set_route_timeout, NameAddr, Route,
    Routes, WeightedAddr,
};
use super::updates::{self, Event, Item, Phase, Profiles};
use crate::text;
use crate::time::{self, Duration};
use std::sync::Arc;
use vstd::prelude::*;

verus! {

/// A route is kept if its condition says something. It has the labels of the message in their
/// order, its classes, the budget if requests may be retried, and the timeout if there is one.
pub proof fn law_routes_are_kept<B>(
    orig: api::Route,
    budget: Option<&Arc<B>>,
    made: Option<(RequestMatch, Route<B>)>,
)
    requires
        call_ensures(convert_route::<B>, (orig, budget), made),
    ensures
        made is Some <==> (orig.condition matches Some(condition) && !request_laws::says_nothing(
            condition,
        )),
        made matches Some((condition, route)) ==> {
            let kept = orig.response_classes@.filter(
                |class: api::ResponseClass| laws::has_meaning(class),
            );
            &&& orig.condition matches Some(said)
            &&& request_laws::says(said, condition)
            &&& route.labels@.len() == orig.metrics_labels@.len()
            &&& forall|i: int|
                0 <= i < route.labels@.len() ==> (#[trigger] route.labels@[i]).0@
                    == orig.metrics_labels@[i].0@ && route.labels@[i].1@
                    == orig.metrics_labels@[i].1@
            &&& route.response_classes@.len() == kept.len()
            &&& forall|i: int|
                0 <= i < kept.len() ==> laws::class_says(
                    kept[i],
                    #[trigger] route.response_classes@[i],
                )
            &&& route.retries is Some <==> orig.is_retryable && budget is Some
            &&& route.retries matches Some(retries) ==> retries == *budget->0
            &&& route.timeout is Some <==> (orig.timeout matches Some(span) && time::has_length(
                span,
            ))
            &&& route.timeout matches Some(timeout) ==> time::is_length_of(
                timeout,
                orig.timeout->0,
            )
        },
{
    if let Some(condition) = orig.condition {
        let made_condition = match made {
            Some((condition, _)) => Some(condition),
            None => None,
        };
        request_laws::lemma_condition(condition, made_condition);
    }
    if let Some((_, route)) = made {
        laws::lemma_classes(orig.response_classes@, route.response_classes@);
        if let Some(span) = orig.timeout {
            time::lemma_converted(span);
        }
        let labels = text::pair_views(route.labels@);
        let said = text::pair_views(orig.metrics_labels@);
        assert(labels.len() == said.len());
        assert forall|i: int| 0 <= i < route.labels@.len() implies (#[trigger] route.labels@[i]).0@
            == orig.metrics_labels@[i].0@ && route.labels@[i].1@ == orig.metrics_labels@[i].1@ by {
            assert(labels[i] == said[i]);
        }
    }
}

/// A budget and a timeout are set if there are any, and nothing else of a route changes.
pub proof fn law_routes_are_set<B>(
    before: Route<B>,
    budget: Option<&Arc<B>>,
    retried: Route<B>,
    timeout: Option<Duration>,
    timed: Route<B>,
)
    requires
        exists|r: &mut Route<B>|
            *r == before && *final(r) == retried && #[trigger] call_ensures(
                set_route_retry::<B>,
                (r, budget),
                (),
            ),
        exists|r: &mut Route<B>|
            *r == before && *final(r) == timed && #[trigger] call_ensures(
                set_route_timeout::<B>,
                (r, timeout),
                (),
            ),
    ensures
        retried.labels == before.labels,
        retried.response_classes == before.response_classes,
        retried.timeout == before.timeout,
        budget matches Some(budget) ==> retried.retries == Some(*budget),
        budget is None ==> retried.retries == before.retries,
        timed.labels == before.labels,
        timed.response_classes == before.response_classes,
        timed.retries == before.retries,
        timed.timeout == if timeout is Some {
            timeout
        } else {
            before.timeout
        },
{
}

/// A destination overrides another if it has a weight and an address, and keeps both.
pub proof fn law_overrides_are_weighted(
    orig: api::WeightedDst,
    addr: Option<NameAddr>,
    dst: Option<WeightedAddr>,
)
    requires
        call_ensures(convert_dst_override, (&orig, addr), dst),
    ensures
        dst is Some <==> orig.weight > 0 && addr is Some,
        dst matches Some(dst) ==> dst.weight == orig.weight && Some(dst.addr) == addr,
{
}

/// How long a message lets a budget remember, in nanoseconds.
pub open spec fn counted(orig: api::RetryBudget) -> int {
    match orig.ttl {
        Some(ttl) => if time::signed_total(ttl) >= 0 {
            time::signed_total(ttl)
        } else {
            time::signed_total(ttl) + 0x1_0000_0000
        },
        None => -1,
    }
}

/// A budget is accepted exactly if its retries can be counted, its ratio is between zero and a
/// thousand, and it remembers for a second at least and a minute at most. It keeps its settings.
pub proof fn law_budgets_are_bounded(orig: api::RetryBudget, budget: Option<BudgetParams>)
    requires
        call_ensures(convert_retry_budget, (orig,), budget),
    ensures
        budget is Some <==> {
            &&& orig.min_retries_per_second < 0x7fff_ffff
            &&& orig.retry_ratio <= 0x447a_0000 || orig.retry_ratio == 0x8000_0000
            &&& orig.ttl matches Some(ttl)
            &&& time::has_length(ttl)
            &&& 1_000_000_000 <= counted(orig) <= 60_000_000_000
        },
        budget matches Some(budget) ==> {
            &&& budget.min_retries == orig.min_retries_per_second
            &&& budget.retry_ratio == orig.retry_ratio
            &&& time::is_length_of(budget.ttl, orig.ttl->0)
        },
{
    if let Some(ttl) = orig.ttl {
        time::lemma_converted(ttl);
    }
}

/// A profile is asked for exactly if the address has a name under one of the suffixes, with the
/// token of the client. Other addresses are handed back.
pub proof fn law_profiles_are_asked_for<S, R, D>(
    by: Client<S, R, D>,
    dst: Addr,
    path: String,
    contains: Vec<bool>,
    request: Result<GetDestination, InvalidProfileAddr>,
)
    requires
        contains@.len() == by.suffixes@.len(),
        call_ensures(Client::<S, R, D>::routes, (&by, dst, path, &contains), request),
    ensures
        request is Ok <==> dst is Name && contains@.contains(true),
        request matches Ok(request) ==> request.path@ == path@ && request.context_token@
            == by.context_token@,
        request matches Err(invalid) ==> invalid.0 == dst,
{
    if client::any(contains@) {
        let i = choose|i: int| 0 <= i < contains@.len() && #[trigger] contains@[i];
        assert(contains@[i] == true);
    }
    if contains@.contains(true) {
        let i = choose|i: int| 0 <= i < contains@.len() && contains@[i] == true;
        assert(contains@[i]);
    }
}

/// The first profile is the one that comes in time, and an empty one if none does.
pub proof fn law_first_profile<S, R, D, B, X>(
    initial: Initial<B, X>,
    profile: Result<Routes<B>, X>,
)
    requires
        call_ensures(Client::<S, R, D>::initial_profile::<B, X>, (initial,), profile),
    ensures
        initial matches Initial::Profile(received) ==> profile == received,
        initial is TimedOut ==> {
            &&& profile matches Ok(routes)
            &&& routes.routes@.len() == 0
            &&& routes.dst_overrides@.len() == 0
        },
{
}

/// Each profile is published, and then the next one is waited for, until there is no other, one
/// fails, or nobody is left to publish to.
pub proof fn law_profiles_are_published<S, R, D, B, X>(
    event: client::Event<B, X>,
    step: Step<B>,
)
    requires
        call_ensures(Client::<S, R, D>::publish::<B, X>, (event,), step),
    ensures
        step matches Step::Broadcast(profile) ==> event == client::Event::<B, X>::Profile(
            Some(Ok(profile)),
        ),
        event matches client::Event::Profile(Some(Ok(_))) ==> step is Broadcast,
        step is Wait <==> event == client::Event::<B, X>::Broadcast(true),
        step is Stop <==> (event is Closed || event == client::Event::<B, X>::Broadcast(false)
            || event == client::Event::<B, X>::Profile(None) || event
            matches client::Event::Profile(Some(Err(_)))),
{
}

/// Which work an event is an outcome of.
pub proof fn law_events_answer<B, T, U, X>(event: Event<B, T, U, X>, phase: Phase<T>)
    requires
        updates::answers(event, phase),
    ensures
        event is BackedOff <==> phase is Backoff,
        event is Replied <==> phase is Request,
        event is Recovery <==> phase is Recover,
        event is Update <==> phase is Updates,
{
}

/// The phase after each event is the one that the recovery cycle asks for: the policy is asked
/// about a failed request, a recovery waits for a backoff, a passed backoff leads to a request,
/// and a reply to its updates. After the last update the profile is requested again, after the
/// backoff if there is one.
pub proof fn law_profiles_cycle<B, T, U, X>(
    before: Profiles<B, T>,
    event: Event<B, T, U, X>,
    after: Profiles<B, T>,
    item: Item<U, X>,
)
    requires
        updates::answers(event, before.phase),
        exists|p: &mut Profiles<B, T>|
            *p == before && *final(p) == after && #[trigger] call_ensures(
                Profiles::<B, T>::follow::<U, X>,
                (p, event),
                item,
            ),
    ensures
        after.phase is Recover <==> event matches Event::Replied(Err(_)),
        after.phase is Backoff <==> (event matches Event::Recovery(Ok(_))) || (event
            matches Event::Update(None) && before.backoff is Some),
        after.phase is Request <==> event is BackedOff || (event matches Event::Update(None)
            && before.backoff is None),
        after.phase is Failed <==> (event matches Event::Recovery(Err(_))) || (event
            matches Event::Update(Some(Err(_)))),
        after.phase is Updates <==> (event matches Event::Replied(Ok(_))) || (event
            matches Event::Update(Some(Ok(_)))),
        event matches Event::Replied(Ok(stream)) ==> after.phase == Phase::Updates(stream),
        event matches Event::Update(Some(Ok(_))) ==> after.phase == before.phase,
        event matches Event::Recovery(Ok(fresh)) ==> after.backoff == (if before.backoff is Some {
            before.backoff
        } else {
            Some(fresh)
        }),
        !(event matches Event::Recovery(Ok(_))) ==> after.backoff == before.backoff,
{
}

/// Each update is yielded, the policy is asked about each failed request, and the stream ends
/// with the error that ended it. Nothing else comes of an event.
pub proof fn law_profiles_tell<B, T, U, X>(
    before: Profiles<B, T>,
    event: Event<B, T, U, X>,
    after: Profiles<B, T>,
    item: Item<U, X>,
)
    requires
        updates::answers(event, before.phase),
        exists|p: &mut Profiles<B, T>|
            *p == before && *final(p) == after && #[trigger] call_ensures(
                Profiles::<B, T>::follow::<U, X>,
                (p, event),
                item,
            ),
    ensures
        item matches Item::Yield(update) ==> event == Event::<B, T, U, X>::Update(Some(Ok(update))),
        event matches Event::Update(Some(Ok(_))) ==> item is Yield,
        item matches Item::Ask(error) ==> event == Event::<B, T, U, X>::Replied(Err(error)),
        event matches Event::Replied(Err(_)) ==> item is Ask,
        item matches Item::Fail(error) ==> event == Event::<B, T, U, X>::Recovery(Err(error))
            || event == Event::<B, T, U, X>::Update(Some(Err(error))),
        item is Fail <==> after.phase is Failed,
{
}

/// A stream of profiles starts with a request and without a backoff. A profile of which nothing
/// is known has no routes.
pub proof fn law_profiles_start<B, T, R>(
    profiles: Profiles<B, T>,
    nothing: Routes<R>,
    labels: Vec<(String, String)>,
    classes: Vec<response::ResponseClass>,
    route: Route<R>,
)
    requires
        call_ensures(Profiles::<B, T>::new, (), profiles),
        call_ensures(Routes::<R>::empty, (), nothing),
        call_ensures(Route::<R>::new, (labels, classes), route),
    ensures
        profiles.phase is Request,
        profiles.backoff is None,
        nothing.routes@.len() == 0,
        nothing.dst_overrides@.len() == 0,
        route.labels@ == labels@,
        route.response_classes@ == classes@,
        route.retries is None,
        route.timeout is None,
{
}

/// Each outcome of the work that a stream of profiles asks for is accepted.
pub proof fn law_outcomes_are_accepted<B, T, U, X>(
    profiles: Profiles<B, T>,
    event: Event<B, T, U, X>,
)
    requires
        match event {
            Event::BackedOff => profiles.phase is Backoff,
            Event::Replied(_) => profiles.phase is Request,
            Event::Recovery(_) => profiles.phase is Recover,
            Event::Update(_) => profiles.phase is Updates,
        },
    ensures
        forall|p: &mut Profiles<B, T>|
            *p == profiles ==> #[trigger] call_requires(
                Profiles::<B, T>::follow::<U, X>,
                (p, event),
            ),
{
}

/// A budget or a timeout that is set replaces the one before, and nothing else changes. The
/// address that has no profile is the one that was asked for.
pub proof fn law_settings_replace_others<B>(
    before: Route<B>,
    budget: Arc<B>,
    retried: Route<B>,
    timeout: Duration,
    timed: Route<B>,
    invalid: InvalidProfileAddr,
    addr: &Addr,
)
    requires
        exists|r: &mut Route<B>|
            *r == before && *final(r) == retried && #[trigger] call_ensures(
                Route::<B>::set_retries,
                (r, budget),
                (),
            ),
        exists|r: &mut Route<B>|
            *r == before && *final(r) == timed && #[trigger] call_ensures(
                Route::<B>::set_timeout,
                (r, timeout),
                (),
            ),
        call_ensures(InvalidProfileAddr::addr, (&invalid,), addr),
    ensures
        retried.retries == Some(budget),
        retried.labels == before.labels,
        retried.response_classes == before.response_classes,
        retried.timeout == before.timeout,
        timed.timeout == Some(timeout),
        timed.labels == before.labels,
        timed.response_classes == before.response_classes,
        timed.retries == before.retries,
        *addr == invalid.0,
{
}

/// A client keeps what it is made of.
pub proof fn law_client_settings<S, R, D>(
    service: S,
    recover: R,
    initial_timeout: Duration,
    context_token: String,
    suffixes: Vec<D>,
    made: Client<S, R, D>,
)
    requires
        call_ensures(
            Client::<S, R, D>::new,
            (service, recover, initial_timeout, context_token, suffixes),
            made,
        ),
    ensures
        made.service == service,
        made.recover == recover,
        made.initial_timeout == initial_timeout,
        made.context_token@ == context_token@,
        made.suffixes@ == suffixes@,
{
}

} // verus!
