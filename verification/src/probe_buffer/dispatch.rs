//! Driving a service that requests are queued for.
//!
//! The service, the queue, the channel that tells consumers of the service's readiness and
//! the timer are driven from outside. A dispatch says what has to be done, and what follows
//! from the outcome.

use super::error::Failed;
use crate::arc::share;
use crate::poll::Poll;
use crate::time::Duration;
use std::sync::Arc;
use vstd::prelude::*;

verus! {

/// How far a poll of a dispatch is.
pub enum Phase<E> {
    /// No poll is under way.
    Idle,
    /// It is to be checked whether all consumers are gone.
    CheckClosed,
    /// The service is to be polled for readiness.
    PollInner,
    /// Consumers are to be told of the service's readiness.
    Broadcast(Result<Poll<()>, Arc<E>>),
    /// The queue is to be polled for a request.
    PollQueue,
    /// The queue is to be polled for requests to fail.
    Drain(Arc<E>),
    /// A timer is to be started and polled.
    StartProbe,
}

/// Drives a service `S`. `D` is a timer.
pub struct Dispatch<S, D, E> {
    pub inner: Option<S>,
    pub probe_timeout: Duration,
    pub probe: Option<D>,
    pub phase: Phase<E>,
}

/// What has to be done, with requests `Q`.
pub enum Work<Q, E> {
    /// Check whether all consumers are gone.
    CheckClosed,
    /// Poll the service for readiness.
    PollInner,
    /// Tell consumers of the service's readiness or of its failure.
    Broadcast(Result<Poll<()>, Failed<E>>),
    /// Poll the queue.
    PollQueue,
    /// Call the service with the request, then poll the service again.
    Call(Q),
    /// Answer the request with the error, then poll the queue again.
    Fail(Q, Failed<E>),
    /// Start a timer and poll it.
    StartProbe(Duration),
    /// The poll returns.
    Return(Poll<()>),
}

/// The outcome of outside work.
pub enum Event<D, Q, E> {
    /// Whether all consumers are gone.
    Closed(bool),
    /// The service's readiness.
    Inner(Result<Poll<()>, E>),
    /// Whether there is a consumer that could be told.
    Broadcast(bool),
    /// The next request, or nothing if the queue is closed.
    Queue(Poll<Option<Q>>),
    /// The timer, and whether it has elapsed.
    Probe(D, bool),
}

/// Whether `event` is an outcome of the work that `phase` asks for.
pub open spec fn answers<D, Q, E>(event: Event<D, Q, E>, phase: Phase<E>) -> bool {
    match event {
        Event::Closed(_) => phase is CheckClosed,
        Event::Inner(_) => phase is PollInner,
        Event::Broadcast(_) => phase is Broadcast,
        Event::Queue(_) => phase is PollQueue || phase is Drain,
        Event::Probe(..) => phase is StartProbe,
    }
}

/// The dispatch after `event`, and the work that comes next.
pub open spec fn followed<S, D, Q, E>(
    dispatch: Dispatch<S, D, E>,
    event: Event<D, Q, E>,
) -> (Dispatch<S, D, E>, Work<Q, E>)
    recommends
        answers(event, dispatch.phase),
{
    let idle = Dispatch { phase: Phase::<E>::Idle, ..dispatch };
    let done = (idle, Work::Return(Poll::Ready(())));
    let wait = (idle, Work::Return(Poll::Pending));
    let again = (Dispatch { phase: Phase::<E>::PollInner, ..dispatch }, Work::<Q, E>::PollInner);
    match (dispatch.phase, event) {
        // The task is complete when all services are dropped.
        (Phase::CheckClosed, Event::Closed(true)) => done,
        (Phase::CheckClosed, Event::Closed(false)) => if dispatch.inner is Some {
            again
        } else {
            wait
        },
        (Phase::PollInner, Event::Inner(Ok(poll))) => (
            Dispatch { phase: Phase::Broadcast(Ok(poll)), ..dispatch },
            Work::Broadcast(Ok(poll)),
        ),
        (Phase::PollInner, Event::Inner(Err(error))) => {
            let shared = Arc::new(error);
            (
                Dispatch { phase: Phase::Broadcast(Err(shared)), ..dispatch },
                Work::Broadcast(Err(Failed(shared))),
            )
        },
        (Phase::Broadcast(_), Event::Broadcast(false)) => done,
        (Phase::Broadcast(Ok(Poll::Pending)), Event::Broadcast(true)) => wait,
        (Phase::Broadcast(Ok(Poll::Ready(()))), Event::Broadcast(true)) => (
            Dispatch { phase: Phase::PollQueue, ..dispatch },
            Work::PollQueue,
        ),
        (Phase::Broadcast(Err(shared)), Event::Broadcast(true)) => (
            Dispatch { phase: Phase::Drain(shared), ..dispatch },
            Work::PollQueue,
        ),
        // The sender of requests is dropped.
        (Phase::PollQueue, Event::Queue(Poll::Ready(None))) => done,
        (Phase::PollQueue, Event::Queue(Poll::Ready(Some(request)))) => (
            again.0,
            Work::Call(request),
        ),
        // The service is ready but there are no requests: the service is checked
        // periodically.
        (Phase::PollQueue, Event::Queue(Poll::Pending)) => (
            Dispatch { phase: Phase::StartProbe, ..dispatch },
            Work::StartProbe(dispatch.probe_timeout),
        ),
        (Phase::Drain(shared), Event::Queue(Poll::Ready(Some(request)))) => (
            dispatch,
            Work::Fail(request, Failed(shared)),
        ),
        // The service is dropped, but the task lives until all consumers are gone.
        (Phase::Drain(_), Event::Queue(_)) => (
            Dispatch { inner: None, ..idle },
            Work::Return(Poll::Pending),
        ),
        (Phase::StartProbe, Event::Probe(delay, false)) => (
            Dispatch { probe: Some(delay), ..idle },
            Work::Return(Poll::Pending),
        ),
        (Phase::StartProbe, Event::Probe(_, true)) => again,
        _ => (dispatch, Work::Return(Poll::Pending)),
    }
}

impl<S, D, E> Dispatch<S, D, E> {
    /// Drives `inner`, which is polled at least once per `probe_timeout`.
    pub fn new(inner: S, probe_timeout: Duration) -> (dispatch: Self)
        ensures
            dispatch == (Dispatch::<S, D, E> {
                inner: Some(inner),
                probe_timeout,
                probe: None,
                phase: Phase::Idle,
            }),
    {
        Dispatch { inner: Some(inner), probe_timeout, probe: None, phase: Phase::Idle }
    }

    /// Starts a poll. An existing probe is cleared, since the service is about to be polled.
    pub fn poll<Q>(&mut self) -> (work: Work<Q, E>)
        ensures
            *final(self) == (Dispatch { probe: None, phase: Phase::CheckClosed, ..*old(self) }),
            work == Work::<Q, E>::CheckClosed,
    {
        self.probe = None;
        self.phase = Phase::CheckClosed;
        Work::CheckClosed
    }

    /// Goes on with the outcome of outside work.
    pub fn follow<Q>(&mut self, event: Event<D, Q, E>) -> (work: Work<Q, E>)
        requires
            answers(event, old(self).phase),
        ensures
            (*final(self), work) == followed(*old(self), event),
    {
        let mut phase = Phase::Idle;
        core::mem::swap(&mut self.phase, &mut phase);
        match event {
            Event::Closed(closed) => {
                if closed {
                    return Work::Return(Poll::Ready(()));
                }
                if self.inner.is_some() {
                    self.phase = Phase::PollInner;
                    Work::PollInner
                } else {
                    Work::Return(Poll::Pending)
                }
            },
            Event::Inner(Ok(poll)) => {
                self.phase = Phase::Broadcast(Ok(poll));
                Work::Broadcast(Ok(poll))
            },
            Event::Inner(Err(error)) => {
                let shared = Arc::new(error);
                self.phase = Phase::Broadcast(Err(share(&shared)));
                Work::Broadcast(Err(Failed(shared)))
            },
            Event::Broadcast(heard) => {
                if !heard {
                    return Work::Return(Poll::Ready(()));
                }
                match phase {
                    Phase::Broadcast(Ok(Poll::Ready(()))) => {
                        self.phase = Phase::PollQueue;
                        Work::PollQueue
                    },
                    Phase::Broadcast(Err(shared)) => {
                        self.phase = Phase::Drain(shared);
                        Work::PollQueue
                    },
                    _ => Work::Return(Poll::Pending),
                }
            },
            Event::Queue(polled) => match phase {
                Phase::Drain(shared) => match polled {
                    Poll::Ready(Some(request)) => {
                        self.phase = Phase::Drain(share(&shared));
                        Work::Fail(request, Failed(shared))
                    },
                    _ => {
                        self.inner = None;
                        Work::Return(Poll::Pending)
                    },
                },
                _ => match polled {
                    Poll::Ready(None) => Work::Return(Poll::Ready(())),
                    Poll::Ready(Some(request)) => {
                        self.phase = Phase::PollInner;
                        Work::Call(request)
                    },
                    Poll::Pending => {
                        self.phase = Phase::StartProbe;
                        Work::StartProbe(self.probe_timeout)
                    },
                },
            },
            Event::Probe(delay, elapsed) => {
                if elapsed {
                    self.phase = Phase::PollInner;
                    Work::PollInner
                } else {
                    self.probe = Some(delay);
                    Work::Return(Poll::Pending)
                }
            },
        }
    }
}

} // verus!
