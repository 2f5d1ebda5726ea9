//! Watching the strategy for an address, over failures of the control plane.
//!
//! The control plane, the backoff, the recovery policy and the channel that strategies are
//! published on are driven from outside.

use super::api::StrategyResponse;
use super::logical::{self, WeightOverflow};
use super::types::{self, Strategy};
use crate::net::SocketAddr;
use crate::text;
use vstd::prelude::*;

verus! {

/// Watches strategies.
#[derive(Debug)]
pub struct Client<S, R> {
    pub service: S,
    pub recover: R,
    pub context_token: String,
}

/// A request for the strategy for an address.
#[derive(Debug)]
pub struct StrategyRequest {
    pub target: SocketAddr,
    pub context_token: String,
}

impl<S, R> Client<S, R> {
    /// The request for the strategy for `addr`.
    pub fn request(&self, addr: SocketAddr) -> (request: StrategyRequest)
        ensures
            request.target == addr,
            request.context_token@ == self.context_token@,
    {
        StrategyRequest { target: addr, context_token: self.context_token.clone() }
    }

    pub fn new(client: S, recover: R, context_token: String) -> (made: Self)
        ensures
            made == (Client { service: client, recover, context_token }),
    {
        Client { service: client, recover, context_token }
    }
}

/// Why there is no strategy.
#[derive(Debug)]
pub enum Failure<X> {
    /// The control plane failed.
    Status(X),
    /// The control plane ended the stream.
    ServerClosed,
    /// The backoff has ended for good.
    BackoffExhausted,
}

impl<X> Failure<X> {
    /// The message of this failure, unless the control plane gave one.
    pub fn message(&self) -> (message: Option<String>)
        ensures
            text::text_view(message) == match *self {
                Failure::Status(_) => None,
                Failure::ServerClosed => Some("server closed stream"@),
                Failure::BackoffExhausted => Some("Backoff exhausted"@),
            },
    {
        match self {
            Failure::Status(_) => None,
            Failure::ServerClosed => Some("server closed stream".to_owned()),
            Failure::BackoffExhausted => Some("Backoff exhausted".to_owned()),
        }
    }
}

/// How far a watch is. `T` is a stream of responses.
pub enum Phase<T> {
    /// A stream is to be requested and its first response to be waited for.
    Init,
    /// The recovery policy is to be asked about a failure.
    Ask,
    /// The backoff is to be waited for.
    Backoff,
    /// The next response is to be waited for.
    Streaming(T),
    /// The watch has ended.
    Stopped,
}

/// A watch. `B` is a backoff.
pub struct Watch<B, T> {
    /// Whether a strategy was published.
    pub started: bool,
    /// The backoff of the recovery that is under way.
    pub backoff: Option<B>,
    pub phase: Phase<T>,
}

/// The outcome of outside work.
pub enum Event<B, T, V, X> {
    /// The stream and its first response, nothing if it ended at once.
    Init(Result<(Option<V>, T), X>),
    /// A new backoff, or the error if the failure cannot be recovered from.
    Recovery(Result<B, X>),
    /// Whether the backoff passed, or has ended for good.
    BackedOff(bool),
    /// The next response, nothing if the stream ended.
    Response(Result<Option<V>, X>),
    /// All receivers of strategies are gone.
    Closed,
}

/// What comes of an event.
pub enum Item<V, X> {
    /// Nothing, and the watch goes on.
    Nothing,
    /// The recovery policy is to be asked about this failure.
    Ask(Failure<X>),
    /// A strategy is published.
    Publish(V),
    /// The watch ends with an error.
    Fail(Failure<X>),
    /// The watch ends as nobody is left to serve.
    Stop,
}

/// Whether `event` can occur in the state of `watch`.
pub open spec fn answers<B, T, V, X>(event: Event<B, T, V, X>, watch: Watch<B, T>) -> bool {
    match event {
        Event::Init(_) => watch.phase is Init,
        Event::Recovery(_) => watch.phase is Ask,
        Event::BackedOff(_) => watch.phase is Backoff,
        Event::Response(_) => watch.phase is Streaming,
        Event::Closed => watch.started && watch.phase !is Stopped,
    }
}

/// The watch after `event`, and what comes of it.
pub open spec fn followed<B, T, V, X>(watch: Watch<B, T>, event: Event<B, T, V, X>) -> (
    Watch<B, T>,
    Item<V, X>,
)
    recommends
        answers(event, watch),
{
    let asking = Watch { phase: Phase::<T>::Ask, ..watch };
    let stopped = Watch { phase: Phase::<T>::Stopped, ..watch };
    match event {
        Event::Init(Ok((Some(strategy), stream))) => (
            Watch { started: true, backoff: None, phase: Phase::Streaming(stream) },
            Item::Publish(strategy),
        ),
        Event::Init(Ok((None, _))) => (asking, Item::Ask(Failure::ServerClosed)),
        Event::Init(Err(status)) => (asking, Item::Ask(Failure::Status(status))),
        // The backoff that exists is reused instead of resetting.
        Event::Recovery(Ok(new_backoff)) => (
            Watch {
                backoff: match watch.backoff {
                    Some(backoff) => Some(backoff),
                    None => Some(new_backoff),
                },
                phase: Phase::Backoff,
                ..watch
            },
            Item::Nothing,
        ),
        Event::Recovery(Err(error)) => (stopped, Item::Fail(Failure::Status(error))),
        Event::BackedOff(true) => (Watch { phase: Phase::Init, ..watch }, Item::Nothing),
        Event::BackedOff(false) => (stopped, Item::Fail(Failure::BackoffExhausted)),
        Event::Response(Ok(Some(strategy))) => (watch, Item::Publish(strategy)),
        Event::Response(Ok(None)) => (asking, Item::Ask(Failure::ServerClosed)),
        Event::Response(Err(status)) => (asking, Item::Ask(Failure::Status(status))),
        Event::Closed => (stopped, Item::Stop),
    }
}

/// The response that `event` brings, if it brings one.
pub open spec fn response_in<B, T, V, X>(event: Event<B, T, V, X>) -> Option<V> {
    match event {
        Event::Init(Ok((response, _))) => response,
        Event::Response(Ok(response)) => response,
        _ => None,
    }
}

/// Whether the same comes of an event, and nothing is published.
pub open spec fn same_item<V, W, X>(item: Item<V, X>, other: Item<W, X>) -> bool {
    match item {
        Item::Nothing => other is Nothing,
        Item::Ask(failure) => other == Item::<W, X>::Ask(failure),
        Item::Publish(_) => false,
        Item::Fail(failure) => other == Item::<W, X>::Fail(failure),
        Item::Stop => other is Stop,
    }
}

/// Whether `strategy` is what `response` says of connections to `addr`.
pub open spec fn says(response: StrategyResponse, addr: SocketAddr, strategy: Strategy) -> bool {
    &&& strategy.addr == addr
    &&& strategy.detect == logical::detection(response.detect)
    &&& types::logical_view(strategy.logical) == logical::place(addr, response.logical)
}

impl<B, T> Watch<B, T> {
    /// A watch that starts with a request.
    pub fn new() -> (watch: Self)
        ensures
            watch == (Watch::<B, T> { started: false, backoff: None, phase: Phase::Init }),
    {
        Watch { started: false, backoff: None, phase: Phase::Init }
    }

    /// Goes on with the outcome of outside work.
    pub fn follow<V, X>(&mut self, event: Event<B, T, V, X>) -> (item: Item<V, X>)
        requires
            answers(event, *old(self)),
        ensures
            (*final(self), item) == followed(*old(self), event),
    {
        match event {
            Event::Init(Ok((Some(strategy), stream))) => {
                self.started = true;
                self.backoff = None;
                self.phase = Phase::Streaming(stream);
                Item::Publish(strategy)
            },
            Event::Init(Ok((None, _))) => {
                self.phase = Phase::Ask;
                Item::Ask(Failure::ServerClosed)
            },
            Event::Init(Err(status)) => {
                self.phase = Phase::Ask;
                Item::Ask(Failure::Status(status))
            },
            Event::Recovery(Ok(new_backoff)) => {
                if self.backoff.is_none() {
                    self.backoff = Some(new_backoff);
                }
                self.phase = Phase::Backoff;
                Item::Nothing
            },
            Event::Recovery(Err(error)) => {
                self.phase = Phase::Stopped;
                Item::Fail(Failure::Status(error))
            },
            Event::BackedOff(passed) => {
                if passed {
                    self.phase = Phase::Init;
                    Item::Nothing
                } else {
                    self.phase = Phase::Stopped;
                    Item::Fail(Failure::BackoffExhausted)
                }
            },
            Event::Response(Ok(Some(strategy))) => Item::Publish(strategy),
            Event::Response(Ok(None)) => {
                self.phase = Phase::Ask;
                Item::Ask(Failure::ServerClosed)
            },
            Event::Response(Err(status)) => {
                self.phase = Phase::Ask;
                Item::Ask(Failure::Status(status))
            },
            Event::Closed => {
                self.phase = Phase::Stopped;
                Item::Stop
            },
        }
    }
}

impl<B, T> Watch<B, T> {
    /// Goes on with the outcome of outside work. What a response says of connections to `addr`
    /// is published. Nothing happens if the weights in it are too large.
    pub fn respond<X>(&mut self, addr: SocketAddr, event: Event<B, T, StrategyResponse, X>) -> (item:
        Result<Item<Strategy, X>, WeightOverflow>)
        requires
            answers(event, *old(self)),
        ensures
            match response_in(event) {
                Some(response) => if logical::response_fits(response) {
                    &&& item matches Ok(Item::Publish(strategy))
                    &&& says(response, addr, strategy)
                    &&& *final(self) == followed(*old(self), event).0
                } else {
                    item is Err && *final(self) == *old(self)
                },
                None => {
                    &&& item matches Ok(item)
                    &&& same_item(item, followed(*old(self), event).1)
                    &&& *final(self) == followed(*old(self), event).0
                },
            },
    {
        let event: Event<B, T, Strategy, X> = match event {
            Event::Init(Ok((Some(response), stream))) => match Strategy::checked_new(
                addr,
                &response,
            ) {
                Ok(strategy) => Event::Init(Ok((Some(strategy), stream))),
                Err(overflow) => {
                    return Err(overflow);
                },
            },
            Event::Init(Ok((None, stream))) => Event::Init(Ok((None, stream))),
            Event::Init(Err(status)) => Event::Init(Err(status)),
            Event::Recovery(recovery) => Event::Recovery(recovery),
            Event::BackedOff(passed) => Event::BackedOff(passed),
            Event::Response(Ok(Some(response))) => match Strategy::checked_new(addr, &response) {
                Ok(strategy) => Event::Response(Ok(Some(strategy))),
                Err(overflow) => {
                    return Err(overflow);
                },
            },
            Event::Response(Ok(None)) => Event::Response(Ok(None)),
            Event::Response(Err(status)) => Event::Response(Err(status)),
            Event::Closed => Event::Closed,
        };
        Ok(self.follow(event))
    }
}

/// In one recovery a backoff is not given up for another one. It is given up when a response
/// comes.
pub proof fn law_backoff_is_reused<B, T, V, X>(watch: Watch<B, T>, event: Event<B, T, V, X>)
    requires
        answers(event, watch),
        watch.backoff is Some,
    ensures
        ({
            let (next, item) = followed(watch, event);
            match event {
                Event::Init(Ok((Some(_), _))) => next.backoff is None && item is Publish,
                _ => next.backoff == watch.backoff,
            }
        }),
{
}

/// A watch ends only if nobody is left to serve, if the policy does not recover from a
/// failure, or if the backoff has ended for good.
pub proof fn law_watch_ends<B, T, V, X>(watch: Watch<B, T>, event: Event<B, T, V, X>)
    requires
        answers(event, watch),
    ensures
        followed(watch, event).0.phase is Stopped <==> (event is Closed || event
            matches Event::Recovery(Err(_)) || event matches Event::BackedOff(false)),
        followed(watch, event).0.phase is Stopped <==> (followed(watch, event).1 is Stop
            || followed(watch, event).1 is Fail),
{
}

/// Every response is published, and nothing else is.
pub proof fn law_responses_are_published<B, T, V, X>(
    watch: Watch<B, T>,
    event: Event<B, T, V, X>,
    strategy: V,
)
    requires
        answers(event, watch),
    ensures
        followed(watch, event).1 == Item::<V, X>::Publish(strategy) <==> match event {
            Event::Init(Ok((Some(first), _))) => first == strategy,
            Event::Response(Ok(Some(next))) => next == strategy,
            _ => false,
        },
{
}

} // verus!
