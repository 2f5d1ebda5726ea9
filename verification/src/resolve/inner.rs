//! The connection of a resolution: connecting, failing, backing off and connecting
//! again.
//!
//! The resolver, its futures and streams and the backoff are driven from outside.
//! A connection says which of them has to be polled, and what follows from the
//! outcome.

use crate::poll::Poll;
use crate::resolve::update::Update;
use vstd::prelude::*;

verus! {

/// How far a connection is.
///
/// `F` resolves to a resolution `R`, `B` is a backoff and `X` an error.
pub enum State<F, R, B, X> {
    /// A resolution is to be requested.
    Disconnected { backoff: Option<B> },
    /// A resolution was requested.
    Connecting { future: F, backoff: Option<B> },
    /// The resolution is established.
    Connected { resolution: R, inner: Connected<B> },
    /// A failure is to be recovered from.
    Recover { error: Option<X>, backoff: Option<B> },
    /// Waiting before a resolution is requested again.
    Backoff(Option<B>),
}

/// Whether an established resolution has shown that it works.
pub enum Connected<B> {
    /// Neither an update nor an error was received yet.
    Pending { backoff: Option<B> },
    /// An update was received, and is held until it is processed.
    Connected { initial: Option<Update<u64>> },
}

/// What has to be done to drive a connection forward.
#[derive(Clone, Copy, Debug, PartialEq, Eq, Structural)]
pub enum Work {
    /// Poll the resolver to readiness and request a resolution of the target.
    RequestResolution,
    /// Poll the request.
    PollRequest,
    /// Poll the resolution for its first update.
    PollFirstUpdate,
    /// Ask the recovery policy about the error.
    AskRecovery,
    /// Poll the backoff.
    PollBackoff,
    /// Nothing: the connection is established.
    Done,
}

/// The outcome of the work that a connection asked for.
pub enum Event<F, R, B, X> {
    /// The resolver's readiness and, once it is ready, the request.
    Requested(Poll<Result<F, X>>),
    /// The outcome of the request.
    Resolved(Poll<Result<R, X>>),
    /// The outcome of waiting for the first update.
    FirstUpdate(Poll<Result<Update<u64>, X>>),
    /// A new backoff, or the error if it cannot be recovered from.
    Recovery(Result<B, X>),
    /// The outcome of waiting for the backoff, which may be exhausted.
    BackedOff(Poll<Option<Result<(), X>>>),
}

/// The work that `state` asks for.
pub open spec fn work_of<F, R, B, X>(state: State<F, R, B, X>) -> Work {
    match state {
        State::Disconnected { .. } => Work::RequestResolution,
        State::Connecting { .. } => Work::PollRequest,
        State::Connected { inner: Connected::Pending { .. }, .. } => Work::PollFirstUpdate,
        State::Connected { inner: Connected::Connected { .. }, .. } => Work::Done,
        State::Recover { .. } => Work::AskRecovery,
        State::Backoff(_) => Work::PollBackoff,
    }
}

/// Whether `event` is an outcome of `work`.
pub open spec fn answers<F, R, B, X>(event: Event<F, R, B, X>, work: Work) -> bool {
    match event {
        Event::Requested(_) => work is RequestResolution,
        Event::Resolved(_) => work is PollRequest,
        Event::FirstUpdate(_) => work is PollFirstUpdate,
        Event::Recovery(_) => work is AskRecovery,
        Event::BackedOff(_) => work is PollBackoff,
    }
}

/// What drives a connection returns: nothing while it can be driven on.
pub type Outcome<X> = Option<Poll<Result<(), X>>>;

/// The state that follows `state` on `event`, and what is returned.
pub open spec fn followed<F, R, B, X>(state: State<F, R, B, X>, event: Event<F, R, B, X>) -> (
    State<F, R, B, X>,
    Outcome<X>,
)
    recommends
        answers(event, work_of(state)),
{
    match (state, event) {
        // If a previous failure is being recovered from, its backoff is retained in
        // case this attempt fails too.
        (State::Disconnected { backoff }, Event::Requested(Poll::Ready(Ok(future)))) => (
            State::Connecting { future, backoff },
            None,
        ),
        (State::Disconnected { .. }, Event::Requested(Poll::Ready(Err(error)))) => (
            state,
            Some(Poll::Ready(Err(error))),
        ),
        (State::Connecting { backoff, .. }, Event::Resolved(Poll::Ready(Ok(resolution)))) => (
            State::Connected { resolution, inner: Connected::Pending { backoff } },
            None,
        ),
        (State::Connecting { backoff, .. }, Event::Resolved(Poll::Ready(Err(error)))) => (
            State::Recover { error: Some(error), backoff },
            None,
        ),
        (
            State::Connected { resolution, inner: Connected::Pending { .. } },
            Event::FirstUpdate(Poll::Ready(Ok(initial))),
        ) => (
            State::Connected {
                resolution,
                inner: Connected::Connected { initial: Some(initial) },
            },
            None,
        ),
        (
            State::Connected { inner: Connected::Pending { backoff }, .. },
            Event::FirstUpdate(Poll::Ready(Err(error))),
        ) => (State::Recover { error: Some(error), backoff }, None),
        // A backoff that is already under way is continued.
        (State::Recover { backoff, .. }, Event::Recovery(Ok(new_backoff))) => (
            State::Backoff(
                match backoff {
                    Some(backoff) => Some(backoff),
                    None => Some(new_backoff),
                },
            ),
            None,
        ),
        (State::Recover { backoff, .. }, Event::Recovery(Err(error))) => (
            State::Recover { error: None, backoff },
            Some(Poll::Ready(Err(error))),
        ),
        (State::Backoff(backoff), Event::BackedOff(Poll::Ready(Some(Ok(()))))) => (
            State::Disconnected { backoff },
            None,
        ),
        (State::Backoff(_), Event::BackedOff(Poll::Ready(None))) => (
            State::Disconnected { backoff: None },
            None,
        ),
        // A backoff that fails cannot be recovered from.
        (State::Backoff(_), Event::BackedOff(Poll::Ready(Some(Err(error))))) => (
            state,
            Some(Poll::Ready(Err(error))),
        ),
        // The outside work is not done yet.
        _ => (state, Some(Poll::Pending)),
    }
}

impl<F, R, B, X> State<F, R, B, X> {
    /// What has to be done to drive this connection forward.
    pub fn work(&self) -> (work: Work)
        ensures
            work == work_of(*self),
    {
        match self {
            State::Disconnected { .. } => Work::RequestResolution,
            State::Connecting { .. } => Work::PollRequest,
            State::Connected { inner, .. } => match inner {
                Connected::Pending { .. } => Work::PollFirstUpdate,
                Connected::Connected { .. } => Work::Done,
            },
            State::Recover { .. } => Work::AskRecovery,
            State::Backoff(_) => Work::PollBackoff,
        }
    }

    /// Takes the outcome of the work into account.
    ///
    /// Where nothing is returned, the connection is to be driven on.
    pub fn follow(self, event: Event<F, R, B, X>) -> (next: (Self, Outcome<X>))
        requires
            answers(event, work_of(self)),
        ensures
            next == followed(self, event),
    {
        match event {
            Event::Requested(polled) => match self {
                State::Disconnected { backoff } => match polled {
                    Poll::Ready(Ok(future)) => (State::Connecting { future, backoff }, None),
                    Poll::Ready(Err(error)) => (
                        State::Disconnected { backoff },
                        Some(Poll::Ready(Err(error))),
                    ),
                    Poll::Pending => (State::Disconnected { backoff }, Some(Poll::Pending)),
                },
                state => (state, Some(Poll::Pending)),
            },
            Event::Resolved(polled) => match self {
                State::Connecting { future, backoff } => match polled {
                    Poll::Ready(Ok(resolution)) => (
                        State::Connected { resolution, inner: Connected::Pending { backoff } },
                        None,
                    ),
                    Poll::Ready(Err(error)) => (
                        State::Recover { error: Some(error), backoff },
                        None,
                    ),
                    Poll::Pending => (State::Connecting { future, backoff }, Some(Poll::Pending)),
                },
                state => (state, Some(Poll::Pending)),
            },
            Event::FirstUpdate(polled) => match self {
                State::Connected { resolution, inner: Connected::Pending { backoff } } => match polled {
                    Poll::Ready(Ok(initial)) => (
                        State::Connected {
                            resolution,
                            inner: Connected::Connected { initial: Some(initial) },
                        },
                        None,
                    ),
                    Poll::Ready(Err(error)) => (
                        State::Recover { error: Some(error), backoff },
                        None,
                    ),
                    Poll::Pending => (
                        State::Connected { resolution, inner: Connected::Pending { backoff } },
                        Some(Poll::Pending),
                    ),
                },
                state => (state, Some(Poll::Pending)),
            },
            Event::Recovery(recovery) => match self {
                State::Recover { error: _, backoff } => match recovery {
                    Ok(new_backoff) => match backoff {
                        Some(backoff) => (State::Backoff(Some(backoff)), None),
                        None => (State::Backoff(Some(new_backoff)), None),
                    },
                    Err(error) => (
                        State::Recover { error: None, backoff },
                        Some(Poll::Ready(Err(error))),
                    ),
                },
                state => (state, Some(Poll::Pending)),
            },
            Event::BackedOff(polled) => match self {
                State::Backoff(backoff) => match polled {
                    Poll::Ready(Some(Ok(()))) => (State::Disconnected { backoff }, None),
                    Poll::Ready(Some(Err(error))) => (
                        State::Backoff(backoff),
                        Some(Poll::Ready(Err(error))),
                    ),
                    Poll::Ready(None) => (State::Disconnected { backoff: None }, None),
                    Poll::Pending => (State::Backoff(backoff), Some(Poll::Pending)),
                },
                state => (state, Some(Poll::Pending)),
            },
        }
    }
}

/// A resolution of `target` by `resolve`, whose failures `recover` decides on.
pub struct Inner<T, V, E, F, R, B, X> {
    pub target: T,
    pub resolve: V,
    pub recover: E,
    pub state: State<F, R, B, X>,
}

impl<T, V, E, F, R, B, X> Inner<T, V, E, F, R, B, X> {
    /// Drives the state forward until it is connected.
    ///
    /// `event` is the outcome of the work that the state asks for, or nothing where
    /// it asks for none. Where nothing is returned, the state is to be driven on.
    pub fn poll_connected(&mut self, event: Option<Event<F, R, B, X>>) -> (outcome: Outcome<X>)
        requires
            match event {
                Some(event) => answers(event, work_of(old(self).state)),
                None => work_of(old(self).state) is Done,
            },
        ensures
            final(self).target == old(self).target,
            final(self).resolve == old(self).resolve,
            final(self).recover == old(self).recover,
            match event {
                Some(event) => (final(self).state, outcome) == followed(old(self).state, event),
                None => final(self).state == old(self).state && outcome == Some(
                    Poll::<Result<(), X>>::Ready(Ok(())),
                ),
            },
    {
        match event {
            None => Some(Poll::Ready(Ok(()))),
            Some(event) => {
                let mut state = State::Backoff(None);
                core::mem::swap(&mut self.state, &mut state);
                let (next, outcome) = state.follow(event);
                self.state = next;
                outcome
            },
        }
    }

    /// Takes the error that is to be recovered from out of the state.
    pub fn take_error(&mut self) -> (error: X)
        requires
            old(self).state matches State::Recover { error: Some(_), .. },
        ensures
            final(self).target == old(self).target,
            final(self).resolve == old(self).resolve,
            final(self).recover == old(self).recover,
            old(self).state matches State::Recover { error: Some(taken), backoff } && error == taken
                && final(self).state == (State::<F, R, B, X>::Recover { error: None, backoff }),
    {
        match &mut self.state {
            State::Recover { error, .. } => error.take().unwrap(),
            _ => vstd::pervasive::unreached(),
        }
    }
}

} // verus!
