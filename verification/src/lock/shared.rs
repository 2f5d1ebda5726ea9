//! What all clones of a lock share.

use super::waiter::{Wait, Waiters, WaitersView};
use crate::arc::share;
use crate::poll::Poll;
use std::sync::Arc;
use vstd::prelude::*;

verus! {

/// Where the service is.
#[derive(Debug)]
pub enum State<S, E> {
    /// A lock is holding the service.
    Claimed,
    /// The inner service is available.
    Unclaimed(S),
    /// The lock has failed.
    Failed(Arc<E>),
}

/// The shared state of a lock and its clones.
pub struct Shared<S, E> {
    state: State<S, E>,
    waiters: Waiters,
}

/// The content of a `Shared`.
#[verifier::ext_equal]
pub struct SharedView<S, E> {
    pub state: State<S, E>,
    pub waiters: WaitersView,
}

impl<S, E> View for Shared<S, E> {
    type V = SharedView<S, E>;

    closed spec fn view(&self) -> SharedView<S, E> {
        SharedView { state: self.state, waiters: self.waiters@ }
    }
}

impl<S, E> SharedView<S, E> {
    /// The shared state of a new lock.
    pub open spec fn fresh(service: S) -> Self {
        SharedView {
            state: State::Unclaimed(service),
            waiters: WaitersView { queue: Seq::empty(), live: Set::empty(), next: 0 },
        }
    }

    /// The state after an attempt to acquire the service.
    pub open spec fn tried(self) -> Self {
        match self.state {
            State::Unclaimed(_) => SharedView { state: State::Claimed, ..self },
            _ => self,
        }
    }

    /// The state after `service` is given back, and the wait that is notified.
    pub open spec fn released(self, service: S) -> (Self, Option<u64>) {
        let (waiters, notified) = self.waiters.notified_next();
        (SharedView { state: State::Unclaimed(service), waiters }, notified)
    }

    /// The state after the service failed with `error`.
    pub open spec fn failed(self, error: Arc<E>) -> Self {
        SharedView {
            state: State::Failed(error),
            waiters: WaitersView { queue: Seq::empty(), ..self.waiters },
        }
    }
}

/// What an attempt to acquire the service gives in `state`.
pub open spec fn acquisition<S, E>(state: State<S, E>) -> Result<Option<S>, Arc<E>> {
    match state {
        State::Unclaimed(service) => Ok(Some(service)),
        State::Claimed => Ok(None),
        State::Failed(error) => Err(error),
    }
}

impl<S, E> Shared<S, E> {
    /// Shares `service`, which no lock holds yet.
    pub fn new(service: S) -> (shared: Self)
        ensures
            shared@ == SharedView::<S, E>::fresh(service),
            shared@.waiters.wf(),
    {
        Shared { state: State::Unclaimed(service), waiters: Waiters::new() }
    }

    /// Takes the service if no lock holds it.
    pub fn try_acquire(&mut self) -> (acquired: Result<Option<S>, Arc<E>>)
        ensures
            acquired == acquisition(old(self)@.state),
            final(self)@ == old(self)@.tried(),
    {
        let mut state = State::Claimed;
        std::mem::swap(&mut self.state, &mut state);
        match state {
            // This lock has acquired the service.
            State::Unclaimed(service) => Ok(Some(service)),
            // The service is already claimed by a lock.
            State::Claimed => Ok(None),
            // All locks are to see the error, so the state is restored.
            State::Failed(error) => {
                self.state = State::Failed(share(&error));
                Err(error)
            },
        }
    }

    /// Takes the service if no lock holds it. Registers `wait` if one does.
    pub fn poll_acquire(&mut self, wait: &Wait) -> (acquired: Result<Poll<S>, Arc<E>>)
        requires
            old(self)@.waiters.wf(),
            wait.id < old(self)@.waiters.next,
        ensures
            acquired == match old(self)@.state {
                State::Unclaimed(service) => Ok(Poll::Ready(service)),
                State::Claimed => Ok(Poll::Pending),
                State::Failed(error) => Err(error),
            },
            old(self)@.state is Claimed ==> final(self)@ == (SharedView {
                waiters: old(self)@.waiters.registered(wait.id),
                ..old(self)@
            }),
            old(self)@.state !is Claimed ==> final(self)@ == old(self)@.tried(),
            final(self)@.waiters.wf(),
    {
        match self.try_acquire() {
            Ok(Some(service)) => Ok(Poll::Ready(service)),
            Ok(None) => {
                self.register(wait);
                Ok(Poll::Pending)
            },
            Err(error) => Err(error),
        }
    }

    /// Registers `wait`, which is then waiting.
    pub fn register(&mut self, wait: &Wait)
        requires
            old(self)@.waiters.wf(),
            wait.id < old(self)@.waiters.next,
        ensures
            final(self)@ == (SharedView {
                waiters: old(self)@.waiters.registered(wait.id),
                ..old(self)@
            }),
            final(self)@.waiters.queue.contains(wait.id),
            final(self)@.waiters.wf(),
    {
        wait.register(&mut self.waiters);
    }

    /// Makes a wait for a lock.
    pub fn wait(&mut self) -> (wait: Wait)
        requires
            old(self)@.waiters.wf(),
            old(self)@.waiters.next < u64::MAX,
        ensures
            wait.id == old(self)@.waiters.next,
            final(self)@ == (SharedView {
                waiters: old(self)@.waiters.with_wait(),
                ..old(self)@
            }),
            final(self)@.waiters.wf(),
    {
        self.waiters.wait()
    }

    /// Drops the wait of a lock.
    pub fn forget(&mut self, wait: Wait)
        requires
            old(self)@.waiters.wf(),
        ensures
            final(self)@ == (SharedView {
                waiters: old(self)@.waiters.without(wait.id),
                ..old(self)@
            }),
            final(self)@.waiters.wf(),
    {
        self.waiters.forget(wait);
    }

    /// Whether `wait` is registered to be notified.
    pub fn is_waiting(&self, wait: &Wait) -> (waiting: bool)
        ensures
            waiting == self@.waiters.queue.contains(wait.id),
    {
        wait.is_waiting(&self.waiters)
    }

    /// Whether no lock holds the service.
    pub fn is_unclaimed(&self) -> (unclaimed: bool)
        ensures
            unclaimed == (self@.state is Unclaimed),
    {
        match self.state {
            State::Unclaimed(_) => true,
            _ => false,
        }
    }

    /// Gives the service back. Returns the wait that is to be notified.
    pub fn release(&mut self, service: S) -> (notified: Option<u64>)
        requires
            old(self)@.waiters.wf(),
            old(self)@.state is Claimed,
        ensures
            (final(self)@, notified) == old(self)@.released(service),
            final(self)@.waiters.wf(),
    {
        self.state = State::Unclaimed(service);
        self.notify_next_waiter()
    }

    /// Takes the wait that was registered last among those that still exist, so that it
    /// be notified.
    pub fn notify_next_waiter(&mut self) -> (notified: Option<u64>)
        requires
            old(self)@.waiters.wf(),
        ensures
            (final(self)@.waiters, notified) == old(self)@.waiters.notified_next(),
            final(self)@.state == old(self)@.state,
            final(self)@.waiters.wf(),
    {
        self.waiters.notify_next()
    }

    /// Fails all locks with `error`. Returns the waits that are to be notified.
    pub fn fail(&mut self, error: Arc<E>) -> (notified: Vec<u64>)
        requires
            old(self)@.waiters.wf(),
            old(self)@.state is Claimed,
        ensures
            final(self)@ == old(self)@.failed(error),
            notified@ == old(self)@.waiters.all_notified(),
            final(self)@.waiters.wf(),
    {
        self.state = State::Failed(error);
        self.waiters.notify_all()
    }
}

} // verus!
