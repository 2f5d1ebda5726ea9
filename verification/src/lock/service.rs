//! A lock and what it does when it is polled, called and dropped.

use super::error::{Poisoned, ServiceError};
use super::shared::{self, Shared, SharedView};
use super::waiter::Wait;
use crate::arc::share;
use crate::poll::Poll;
use std::sync::Arc;
use vstd::prelude::*;

verus! {

/// A lock's own state.
#[derive(Debug)]
pub enum State<S, E> {
    Released,
    Waiting(Wait),
    Acquired(S),
    Failed(Arc<E>),
}

/// Guards access to an inner service.
///
/// As the lock is polled to readiness, the service is acquired and then polled itself.
/// A clone does not retain the state of the lock that it was cloned from.
pub struct Lock<S, E> {
    pub state: State<S, E>,
}

/// What comes next when a lock is polled.
#[derive(Debug)]
pub enum Ready<E> {
    /// The lock holds the service, which is to be polled.
    PollService,
    /// Another lock holds the service.
    Pending,
    /// The shared state cannot be used.
    Poisoned(Poisoned),
    /// The service has failed.
    Failed(ServiceError<E>),
}

/// Polling a lock: its state and the shared state after it, and what comes next.
pub open spec fn polled<S, E>(lock: State<S, E>, shared: SharedView<S, E>, poisoned: bool) -> (
    State<S, E>,
    SharedView<S, E>,
    Ready<E>,
) {
    match lock {
        State::Acquired(_) => (lock, shared, Ready::PollService),
        State::Failed(error) => (lock, shared, Ready::Failed(ServiceError(error))),
        State::Released if poisoned => (lock, shared, Ready::Poisoned(Poisoned(()))),
        State::Waiting(_) if poisoned => (lock, shared, Ready::Poisoned(Poisoned(()))),
        State::Released => match shared.state {
            shared::State::Unclaimed(service) => (
                State::Acquired(service),
                shared.tried(),
                Ready::PollService,
            ),
            shared::State::Failed(error) => (
                State::Failed(error),
                shared,
                Ready::Failed(ServiceError(error)),
            ),
            shared::State::Claimed => {
                let id = shared.waiters.next;
                (
                    State::Waiting(Wait { id }),
                    SharedView { waiters: shared.waiters.with_wait().registered(id), ..shared },
                    Ready::Pending,
                )
            },
        },
        State::Waiting(wait) => {
            let dropped = SharedView { waiters: shared.waiters.without(wait.id), ..shared };
            match shared.state {
                shared::State::Unclaimed(service) => (
                    State::Acquired(service),
                    dropped.tried(),
                    Ready::PollService,
                ),
                shared::State::Failed(error) => (
                    State::Failed(error),
                    dropped,
                    Ready::Failed(ServiceError(error)),
                ),
                shared::State::Claimed => (
                    lock,
                    SharedView { waiters: shared.waiters.registered(wait.id), ..shared },
                    Ready::Pending,
                ),
            }
        },
    }
}

/// Dropping a lock: the shared state after it, and the wait that is notified.
pub open spec fn dropped<S, E>(lock: State<S, E>, shared: SharedView<S, E>, poisoned: bool) -> (
    SharedView<S, E>,
    Option<u64>,
) {
    match lock {
        State::Acquired(service) if !poisoned => shared.released(service),
        State::Waiting(wait) if !poisoned => {
            let (waiters, notified) = if shared.waiters.queue.contains(wait.id) {
                (shared.waiters, None)
            } else {
                shared.waiters.notified_next()
            };
            (SharedView { waiters: waiters.without(wait.id), ..shared }, notified)
        },
        _ => (shared, None),
    }
}

/// Whether the state of a lock and the shared state can occur together.
pub open spec fn compatible<S, E>(lock: State<S, E>, shared: SharedView<S, E>) -> bool {
    &&& shared.waiters.wf()
    &&& lock is Acquired ==> shared.state is Claimed
    &&& lock matches State::Waiting(wait) ==> wait.id < shared.waiters.next
}

impl<S, E> Lock<S, E> {
    /// A lock on `service`, and the state that its clones share with it.
    pub fn new(service: S) -> (made: (Self, Shared<S, E>))
        ensures
            made.0.state == State::<S, E>::Released,
            made.1@ == SharedView::<S, E>::fresh(service),
            compatible(made.0.state, made.1@),
    {
        (Lock { state: State::Released }, Shared::new(service))
    }

    /// Polls the lock until the inner service is acquired.
    ///
    /// `poisoned` says that the shared state was abandoned in the middle of a change.
    pub fn poll_ready(&mut self, shared: &mut Shared<S, E>, poisoned: bool) -> (ready: Ready<E>)
        requires
            compatible(old(self).state, old(shared)@),
            old(shared)@.waiters.next < u64::MAX,
        ensures
            (final(self).state, final(shared)@, ready) == polled(
                old(self).state,
                old(shared)@,
                poisoned,
            ),
            compatible(final(self).state, final(shared)@),
    {
        let mut state = State::Released;
        std::mem::swap(&mut self.state, &mut state);
        match state {
            State::Acquired(service) => {
                self.state = State::Acquired(service);
                Ready::PollService
            },
            State::Failed(error) => {
                self.state = State::Failed(share(&error));
                Ready::Failed(ServiceError(error))
            },
            State::Released => {
                if poisoned {
                    return Ready::Poisoned(Poisoned(()));
                }
                match shared.try_acquire() {
                    Ok(Some(service)) => {
                        self.state = State::Acquired(service);
                        Ready::PollService
                    },
                    Ok(None) => {
                        let wait = shared.wait();
                        self.poll_waiting(shared, wait)
                    },
                    Err(error) => {
                        self.state = State::Failed(share(&error));
                        Ready::Failed(ServiceError(error))
                    },
                }
            },
            State::Waiting(wait) => {
                if poisoned {
                    self.state = State::Waiting(wait);
                    return Ready::Poisoned(Poisoned(()));
                }
                self.poll_waiting(shared, wait)
            },
        }
    }

    fn poll_waiting(&mut self, shared: &mut Shared<S, E>, wait: Wait) -> (ready: Ready<E>)
        requires
            old(shared)@.waiters.wf(),
            wait.id < old(shared)@.waiters.next,
        ensures
            (final(self).state, final(shared)@, ready) == polled(
                State::Waiting(wait),
                old(shared)@,
                false,
            ),
            compatible(final(self).state, final(shared)@),
    {
        match shared.poll_acquire(&wait) {
            Ok(Poll::Pending) => {
                self.state = State::Waiting(wait);
                Ready::Pending
            },
            Ok(Poll::Ready(service)) => {
                shared.forget(wait);
                self.state = State::Acquired(service);
                Ready::PollService
            },
            Err(error) => {
                shared.forget(wait);
                self.state = State::Failed(share(&error));
                Ready::Failed(ServiceError(error))
            },
        }
    }

    /// Takes note of how the inner service was polled. If it failed, all locks fail with
    /// its error. Returns the result of the poll, and the waits that are to be notified.
    pub fn service_polled(
        &mut self,
        shared: &mut Shared<S, E>,
        poisoned: bool,
        result: Result<Poll<()>, E>,
    ) -> (done: (Result<Poll<()>, ServiceError<E>>, Vec<u64>))
        requires
            old(self).state is Acquired,
            compatible(old(self).state, old(shared)@),
        ensures
            match result {
                Ok(poll) => {
                    &&& done.0 == Ok::<Poll<()>, ServiceError<E>>(poll)
                    &&& done.1@ == Seq::<u64>::empty()
                    &&& final(self).state == old(self).state
                    &&& final(shared)@ == old(shared)@
                },
                Err(error) => {
                    let error = Arc::new(error);
                    &&& done.0 == Err::<Poll<()>, ServiceError<E>>(ServiceError(error))
                    &&& final(self).state == State::<S, E>::Failed(error)
                    &&& poisoned ==> final(shared)@ == old(shared)@ && done.1@ == Seq::<
                        u64,
                    >::empty()
                    &&& !poisoned ==> final(shared)@ == old(shared)@.failed(error) && done.1@
                        == old(shared)@.waiters.all_notified()
                },
            },
            compatible(final(self).state, final(shared)@),
    {
        match result {
            Ok(poll) => (Ok(poll), Vec::new()),
            Err(inner) => {
                let error = Arc::new(inner);
                let notified = if poisoned {
                    Vec::new()
                } else {
                    shared.fail(share(&error))
                };
                self.state = State::Failed(share(&error));
                (Err(ServiceError(error)), notified)
            },
        }
    }

    /// Hands out the service for one call. It is given back by `release`. The lock must
    /// acquire the service anew before the next call.
    pub fn call(&mut self) -> (service: S)
        requires
            old(self).state is Acquired,
        ensures
            old(self).state == State::<S, E>::Acquired(service),
            final(self).state == State::<S, E>::Released,
    {
        let mut state = State::Released;
        std::mem::swap(&mut self.state, &mut state);
        match state {
            State::Acquired(service) => service,
            _ => vstd::pervasive::unreached(),
        }
    }

    /// Gives the service back after a call. If the shared state is poisoned the service is
    /// dropped, and locks are answered that it is poisoned. Returns the wait that is to be
    /// notified.
    pub fn release(shared: &mut Shared<S, E>, poisoned: bool, service: S) -> (notified: Option<u64>)
        requires
            old(shared)@.waiters.wf(),
            old(shared)@.state is Claimed,
        ensures
            poisoned ==> final(shared)@ == old(shared)@ && notified is None,
            !poisoned ==> (final(shared)@, notified) == old(shared)@.released(service),
            final(shared)@.waiters.wf(),
    {
        if poisoned {
            None
        } else {
            shared.release(service)
        }
    }

    /// Drops the lock. A service that it holds is given back. If it waits but is not
    /// registered, it has been notified, so the next wait is notified in its place.
    /// Returns the wait that is to be notified.
    pub fn drop(self, shared: &mut Shared<S, E>, poisoned: bool) -> (notified: Option<u64>)
        requires
            compatible(self.state, old(shared)@),
        ensures
            (final(shared)@, notified) == dropped(self.state, old(shared)@, poisoned),
            final(shared)@.waiters.wf(),
    {
        match self.state {
            State::Acquired(service) => {
                if poisoned {
                    None
                } else {
                    shared.release(service)
                }
            },
            State::Waiting(wait) => {
                if poisoned {
                    return None;
                }
                let notified = if shared.is_waiting(&wait) {
                    None
                } else {
                    shared.notify_next_waiter()
                };
                shared.forget(wait);
                notified
            },
            State::Released | State::Failed(_) => None,
        }
    }

    /// Drops the lock as `drop` does, but if it waits and the service is not available, no
    /// wait is notified.
    pub fn drop_if_available(self, shared: &mut Shared<S, E>, poisoned: bool) -> (notified: Option<
        u64,
    >)
        requires
            compatible(self.state, old(shared)@),
        ensures
            self.state is Waiting && old(shared)@.state !is Unclaimed && !poisoned
                ==> final(shared)@ == (SharedView {
                waiters: old(shared)@.waiters.without(self.state->Waiting_0.id),
                ..old(shared)@
            }) && notified is None,
            !(self.state is Waiting && old(shared)@.state !is Unclaimed && !poisoned) ==> (
                final(shared)@,
                notified,
            ) == dropped(self.state, old(shared)@, poisoned),
            final(shared)@.waiters.wf(),
    {
        if let State::Waiting(wait) = self.state {
            if !poisoned && !shared.is_unclaimed() {
                shared.forget(wait);
                return None;
            }
            Lock { state: State::Waiting(wait) }.drop(shared, poisoned)
        } else {
            self.drop(shared, poisoned)
        }
    }
}

impl<S, E> Clone for Lock<S, E> {
    /// Clones have an independent local lock state.
    fn clone(&self) -> (cloned: Self)
        ensures
            cloned.state == State::<S, E>::Released,
    {
        Lock { state: State::Released }
    }
}

} // verus!
