//! What watching a strategy does at each step.

use super::api::StrategyResponse;
use super::client::{self, Client, Event, Failure, Item, Phase, StrategyRequest, Watch};
use super::logical::WeightOverflow;
use super::types::Strategy;
use crate::net::SocketAddr;
use vstd::prelude::*;

verus! {

/// The failure that `event` brings, if a request fails or a stream ends or fails.
pub open spec fn failure_in<B, T, V, X>(event: Event<B, T, V, X>) -> Option<Failure<X>> {
    match event {
        Event::Init(Ok((None, _))) | Event::Response(Ok(None)) => Some(Failure::ServerClosed),
        Event::Init(Err(status)) | Event::Response(Err(status)) => Some(Failure::Status(status)),
        _ => None,
    }
}

/// Whether `event` brings a response.
pub open spec fn brings_response<B, T, V, X>(event: Event<B, T, V, X>) -> bool {
    match event {
        Event::Init(Ok((Some(_), _))) | Event::Response(Ok(Some(_))) => true,
        _ => false,
    }
}

/// Whether `before` goes over into `after` as the recovery cycle asks: the policy is asked
/// about each failure, a recovery waits for a backoff, a passed backoff leads to a new request,
/// and the first response to its stream.
pub open spec fn cycles<B, T, V, X>(
    before: Watch<B, T>,
    event: Event<B, T, V, X>,
    after: Watch<B, T>,
) -> bool {
    &&& after.phase is Ask <==> failure_in(event) is Some
    &&& after.phase is Backoff <==> (event matches Event::Recovery(Ok(_)))
    &&& after.phase is Init <==> (event matches Event::BackedOff(true))
    &&& after.phase is Streaming <==> brings_response(event)
    &&& after.phase is Stopped <==> (event is Closed || (event matches Event::Recovery(Err(_)))
        || (event matches Event::BackedOff(false)))
    &&& event matches Event::Init(Ok((Some(_), stream))) ==> after.phase == Phase::Streaming(stream)
    &&& event matches Event::Response(Ok(Some(_))) ==> after.phase == before.phase
    &&& after.started <==> before.started || (event matches Event::Init(Ok((Some(_), _))))
    &&& match event {
        Event::Init(Ok((Some(_), _))) => after.backoff is None,
        Event::Recovery(Ok(fresh)) => after.backoff == (if before.backoff is Some {
            before.backoff
        } else {
            Some(fresh)
        }),
        _ => after.backoff == before.backoff,
    }
}

/// What an event can occur in: a request is answered where one is made, the policy answers
/// where it is asked, and so on. Receivers can only go once they have been served.
pub proof fn law_events_answer<B, T, V, X>(event: Event<B, T, V, X>, watch: Watch<B, T>)
    requires
        client::answers(event, watch),
    ensures
        watch.phase !is Stopped,
        event is Init ==> watch.phase is Init,
        event is Recovery ==> watch.phase is Ask,
        event is BackedOff ==> watch.phase is Backoff,
        event is Response ==> watch.phase is Streaming,
        event is Closed ==> watch.started,
{
}

/// Each outcome of the work that a watch asks for is accepted, and so is that the receivers have
/// gone once they have been served.
pub proof fn law_outcomes_are_accepted<B, T, V, X>(
    watch: Watch<B, T>,
    event: Event<B, T, V, X>,
    addr: SocketAddr,
    response: Event<B, T, StrategyResponse, X>,
)
    requires
        match event {
            Event::Init(_) => watch.phase is Init,
            Event::Recovery(_) => watch.phase is Ask,
            Event::BackedOff(_) => watch.phase is Backoff,
            Event::Response(_) => watch.phase is Streaming,
            Event::Closed => watch.started && watch.phase !is Stopped,
        },
        match response {
            Event::Init(_) => watch.phase is Init,
            Event::Recovery(_) => watch.phase is Ask,
            Event::BackedOff(_) => watch.phase is Backoff,
            Event::Response(_) => watch.phase is Streaming,
            Event::Closed => watch.started && watch.phase !is Stopped,
        },
    ensures
        forall|w: &mut Watch<B, T>|
            *w == watch ==> #[trigger] call_requires(Watch::<B, T>::follow::<V, X>, (w, event)),
        forall|w: &mut Watch<B, T>|
            *w == watch ==> #[trigger] call_requires(
                Watch::<B, T>::respond::<X>,
                (w, addr, response),
            ),
{
}

/// The phase after each event is the one that the recovery cycle asks for.
pub proof fn law_watch_cycles<B, T, V, X>(
    before: Watch<B, T>,
    event: Event<B, T, V, X>,
    after: Watch<B, T>,
    item: Item<V, X>,
)
    requires
        client::answers(event, before),
        exists|w: &mut Watch<B, T>|
            *w == before && *final(w) == after && #[trigger] call_ensures(
                Watch::<B, T>::follow::<V, X>,
                (w, event),
                item,
            ),
    ensures
        cycles(before, event, after),
{
}

/// Each response is published, the policy is asked about each failure, and a watch that ends
/// says why. Nothing else comes of an event.
pub proof fn law_watch_tells<B, T, V, X>(
    before: Watch<B, T>,
    event: Event<B, T, V, X>,
    after: Watch<B, T>,
    item: Item<V, X>,
)
    requires
        client::answers(event, before),
        exists|w: &mut Watch<B, T>|
            *w == before && *final(w) == after && #[trigger] call_ensures(
                Watch::<B, T>::follow::<V, X>,
                (w, event),
                item,
            ),
    ensures
        item matches Item::Publish(strategy) ==> (event matches Event::Init(Ok((Some(first), _)))
            && first == strategy) || event == Event::<B, T, V, X>::Response(Ok(Some(strategy))),
        item is Publish <==> after.phase is Streaming,
        item is Ask <==> after.phase is Ask,
        item matches Item::Ask(failure) ==> failure_in(event) == Some(failure),
        item is Stop <==> event is Closed,
        item is Fail <==> after.phase is Stopped && event !is Closed,
        item matches Item::Fail(failure) ==> match failure {
            Failure::Status(error) => event == Event::<B, T, V, X>::Recovery(Err(error)),
            Failure::BackoffExhausted => event == Event::<B, T, V, X>::BackedOff(false),
            Failure::ServerClosed => false,
        },
        item is Nothing <==> after.phase is Init || after.phase is Backoff,
{
}

/// Responses of the control plane drive the same cycle. Only one whose weights are too large
/// is refused, and then nothing changes.
pub proof fn law_responses_drive_the_watch<B, T, X>(
    before: Watch<B, T>,
    addr: SocketAddr,
    event: Event<B, T, StrategyResponse, X>,
    after: Watch<B, T>,
    item: Result<Item<Strategy, X>, WeightOverflow>,
)
    requires
        client::answers(event, before),
        exists|w: &mut Watch<B, T>|
            *w == before && *final(w) == after && #[trigger] call_ensures(
                Watch::<B, T>::respond::<X>,
                (w, addr, event),
                item,
            ),
    ensures
        item is Err ==> after == before && brings_response(event),
        item matches Ok(item) ==> {
            &&& cycles(before, event, after)
            &&& item is Publish <==> brings_response(event)
            &&& item matches Item::Publish(strategy) ==> strategy.addr == addr
            &&& item is Ask <==> failure_in(event) is Some
            &&& item matches Item::Ask(failure) ==> failure_in(event) == Some(failure)
            &&& item is Stop <==> event is Closed
            &&& item is Nothing <==> after.phase is Init || after.phase is Backoff
            &&& item matches Item::Fail(failure) ==> match failure {
                Failure::Status(error) => event == Event::<B, T, StrategyResponse, X>::Recovery(
                    Err(error),
                ),
                Failure::BackoffExhausted => event == Event::<
                    B,
                    T,
                    StrategyResponse,
                    X,
                >::BackedOff(false),
                Failure::ServerClosed => false,
            }
        },
{
}

/// Two failures in one recovery share their backoff, and after the response that ends it the
/// next recovery gets the backoff that the policy gives it.
pub proof fn law_recoveries_share_a_backoff<B, T, V, X>(
    watch: Watch<B, T>,
    failed: Watch<B, T>,
    event: Event<B, T, V, X>,
    fresh: B,
    recovering: Watch<B, T>,
    items: (Item<V, X>, Item<V, X>),
)
    requires
        client::answers(event, watch),
        failure_in(event) is Some,
        exists|w: &mut Watch<B, T>|
            *w == watch && *final(w) == failed && #[trigger] call_ensures(
                Watch::<B, T>::follow::<V, X>,
                (w, event),
                items.0,
            ),
        exists|w: &mut Watch<B, T>|
            *w == failed && *final(w) == recovering && #[trigger] call_ensures(
                Watch::<B, T>::follow::<V, X>,
                (w, Event::Recovery(Ok(fresh))),
                items.1,
            ),
    ensures
        recovering.phase is Backoff,
        watch.backoff is Some ==> recovering.backoff == watch.backoff,
        watch.backoff is None ==> recovering.backoff == Some(fresh),
{
}

/// A watch starts with a request, and nobody is served yet. A client asks for the strategy of
/// the address with its own token, and keeps what it is made of.
pub proof fn law_watch_starts<B, T, S, R>(
    watch: Watch<B, T>,
    service: S,
    recover: R,
    token: String,
    made: Client<S, R>,
    addr: SocketAddr,
    request: StrategyRequest,
)
    requires
        call_ensures(Watch::<B, T>::new, (), watch),
        call_ensures(Client::<S, R>::new, (service, recover, token), made),
        call_ensures(Client::<S, R>::request, (&made, addr), request),
    ensures
        watch.phase is Init,
        !watch.started,
        watch.backoff is None,
        made.service == service,
        made.recover == recover,
        request.target == addr,
        request.context_token@ == token@,
{
}

/// A failure has a message unless the control plane gave one.
pub proof fn law_failures_have_messages<X>(failure: Failure<X>, message: Option<String>)
    requires
        call_ensures(Failure::<X>::message, (&failure,), message),
    ensures
        message is None <==> failure is Status,
        failure is ServerClosed ==> (message matches Some(text) && text@
            == "server closed stream"@),
        failure is BackoffExhausted ==> (message matches Some(text) && text@
            == "Backoff exhausted"@),
{
}

} // verus!
