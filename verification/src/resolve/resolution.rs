//! A resolution that outlives the failures of its connection.

use crate::index_map::addrs;
use crate::index_map::addrs::AddrMap;
use crate::net::SocketAddr;
use crate::poll::Poll;
use crate::resolve::inner;
use crate::resolve::inner::Connected;
use crate::resolve::inner::Inner;
use crate::resolve::inner::State;
use crate::resolve::recover;
use crate::resolve::recover::reconcile_after_connect;
use crate::resolve::update;
use crate::resolve::update::Update;
use crate::resolve::update::update_active;
use vstd::prelude::*;

verus! {

/// A resolver whose resolutions are recovered as `recover` decides.
#[derive(Clone, Debug)]
pub struct Resolve<E, R> {
    pub resolve: R,
    pub recover: E,
}

impl<E, R> Resolve<E, R> {
    pub fn new(recover: E, resolve: R) -> (service: Self)
        ensures
            service.resolve == resolve,
            service.recover == recover,
    {
        Self { resolve, recover }
    }

    /// Starts a resolution of `target`, which was requested with `future`, under
    /// copies of the resolver and of the recovery policy.
    pub fn call<T, F, S, B, X>(target: T, resolve: R, recover: E, future: F) -> (response:
        ResolveFuture<T, R, E, F, S, B, X>)
        ensures
            response.inner matches Some(inner) && inner.target == target && inner.resolve == resolve
                && inner.recover == recover && inner.state == (State::<F, S, B, X>::Connecting {
                future,
                backoff: None,
            }),
    {
        ResolveFuture {
            inner: Some(
                Inner { target, resolve, recover, state: State::Connecting { future, backoff: None } },
            ),
        }
    }
}

/// Waits until a resolution is connected.
pub struct ResolveFuture<T, V, E, F, R, B, X> {
    pub inner: Option<Inner<T, V, E, F, R, B, X>>,
}

impl<T, V, E, F, R, B, X> ResolveFuture<T, V, E, F, R, B, X> {
    /// Hands out the resolution once `connected`, the outcome of driving its
    /// connection, says that it is connected.
    pub fn poll(&mut self, connected: Poll<Result<(), X>>) -> (polled: Poll<
        Result<Resolution<T, V, E, F, R, B, X>, X>,
    >)
        requires
            old(self).inner is Some,
        ensures
            match connected {
                Poll::Pending => polled is Pending && *final(self) == *old(self),
                Poll::Ready(Err(error)) => polled == Poll::Ready(
                    Err::<Resolution<T, V, E, F, R, B, X>, X>(error),
                ) && *final(self) == *old(self),
                Poll::Ready(Ok(())) => {
                    &&& final(self).inner is None
                    &&& polled matches Poll::Ready(Ok(resolution)) && resolution.inner == old(self).inner->0 && resolution.entries() == Seq::<(SocketAddr, u64)>::empty()
                        && resolution.reconcile is None
                },
            },
    {
        match connected {
            Poll::Pending => Poll::Pending,
            Poll::Ready(Err(error)) => Poll::Ready(Err(error)),
            Poll::Ready(Ok(())) => {
                let inner = self.inner.take().unwrap();
                Poll::Ready(Ok(Resolution { inner, cache: addrs::new_addr_map(), reconcile: None }))
            },
        }
    }
}

/// A stream of updates, with a cache of the endpoints that were advertised.
pub struct Resolution<T, V, E, F, R, B, X> {
    pub inner: Inner<T, V, E, F, R, B, X>,
    pub cache: AddrMap,
    pub reconcile: Option<Update<u64>>,
}

/// How polling a resolution goes on.
#[derive(Debug, PartialEq, Eq)]
pub enum Next<X> {
    /// The poll returns.
    Return(Poll<Result<Update<u64>, X>>),
    /// The resolution stream has to be polled.
    PollResolution,
    /// The connection has to be driven until it is connected.
    PollConnected,
    /// The poll starts over.
    Again,
}

impl<T, V, E, F, R, B, X> Resolution<T, V, E, F, R, B, X> {
    /// The endpoints that were advertised.
    pub open spec fn entries(&self) -> Seq<(SocketAddr, u64)> {
        addrs::addr_entries(self.cache)
    }

    /// The update that the connection holds unprocessed.
    pub open spec fn unprocessed(&self) -> Option<Update<u64>> {
        match self.inner.state {
            State::Connected { inner: Connected::Connected { initial }, .. } => initial,
            _ => None,
        }
    }

    /// Whether `other` is this resolution but for what the cache and the connection
    /// hold.
    pub open spec fn same_parts(&self, other: &Self) -> bool {
        &&& self.inner.target == other.inner.target
        &&& self.inner.resolve == other.inner.resolve
        &&& self.inner.recover == other.inner.recover
    }

    /// Starts a poll.
    ///
    /// A buffered reconciliation update is returned immediately. After a connection
    /// the first update is reconciled with the cache: it may be that nothing is left
    /// of it to advertise.
    pub fn poll(&mut self) -> (next: Next<X>)
        ensures
            final(self).same_parts(old(self)),
            match old(self).reconcile {
                Some(buffered) => {
                    &&& next == Next::Return(Poll::Ready(Ok::<Update<u64>, X>(buffered)))
                    &&& final(self).entries() == update::applied(old(self).entries(), buffered@)
                    &&& final(self).reconcile is None
                    &&& final(self).inner.state == old(self).inner.state
                },
                None => match old(self).inner.state {
                    State::Connected { resolution, inner: Connected::Connected { initial } } => {
                        &&& final(self).inner.state == (State::<F, R, B, X>::Connected {
                            resolution,
                            inner: Connected::Connected { initial: None },
                        })
                        &&& match initial {
                            Some(initial) => {
                                match recover::reconciled(old(self).entries(), initial@) {
                                    Some((first, second)) => {
                                        &&& next matches Next::Return(Poll::Ready(Ok(returned)))
                                        &&& returned@ == first
                                        &&& final(self).entries() == update::applied(
                                            old(self).entries(),
                                            first,
                                        )
                                        &&& match second {
                                            Some(second) => final(self).reconcile is Some && final(self).reconcile->0@ == second,
                                            None => final(self).reconcile is None,
                                        }
                                    },
                                    None => {
                                        &&& next is PollResolution
                                        &&& final(self).entries() == old(self).entries()
                                        &&& final(self).reconcile is None
                                    },
                                }
                            },
                            None => {
                                &&& next is PollResolution
                                &&& final(self).entries() == old(self).entries()
                                &&& final(self).reconcile is None
                            },
                        }
                    },
                    _ => {
                        &&& next is PollConnected
                        &&& final(self).inner.state == old(self).inner.state
                        &&& final(self).entries() == old(self).entries()
                        &&& final(self).reconcile is None
                    },
                },
            },
    {
        if let Some(buffered) = self.reconcile.take() {
            update_active(&mut self.cache, &buffered);
            return Next::Return(Poll::Ready(Ok(buffered)));
        }
        let initial = match &mut self.inner.state {
            State::Connected { inner: Connected::Connected { initial }, .. } => initial.take(),
            _ => {
                return Next::PollConnected;
            },
        };
        if let Some(initial) = initial {
            match reconcile_after_connect(&self.cache, initial) {
                Some((first, second)) => {
                    self.reconcile = second;
                    update_active(&mut self.cache, &first);
                    return Next::Return(Poll::Ready(Ok(first)));
                },
                None => {},
            }
        }
        Next::PollResolution
    }

    /// Goes on with the outcome of polling the resolution stream.
    ///
    /// A failure is left to be recovered from, with a new backoff.
    pub fn on_update(&mut self, polled: Poll<Result<Update<u64>, X>>) -> (next: Next<X>)
        requires
            inner::work_of(old(self).inner.state) is Done,
        ensures
            final(self).same_parts(old(self)),
            final(self).reconcile == old(self).reconcile,
            match polled {
                Poll::Pending => {
                    &&& next == Next::<X>::Return(Poll::Pending)
                    &&& final(self).inner.state == old(self).inner.state
                    &&& final(self).entries() == old(self).entries()
                },
                Poll::Ready(Ok(update)) => {
                    &&& next == Next::Return(Poll::Ready(Ok::<Update<u64>, X>(update)))
                    &&& final(self).inner.state == old(self).inner.state
                    &&& final(self).entries() == update::applied(old(self).entries(), update@)
                },
                Poll::Ready(Err(error)) => {
                    &&& next is PollConnected
                    &&& final(self).inner.state == (State::<F, R, B, X>::Recover {
                        error: Some(error),
                        backoff: None,
                    })
                    &&& final(self).entries() == old(self).entries()
                },
            },
    {
        match polled {
            Poll::Pending => Next::Return(Poll::Pending),
            Poll::Ready(Ok(update)) => {
                update_active(&mut self.cache, &update);
                Next::Return(Poll::Ready(Ok(update)))
            },
            Poll::Ready(Err(error)) => {
                self.inner.state = State::Recover { error: Some(error), backoff: None };
                Next::PollConnected
            },
        }
    }

    /// Goes on with the outcome of driving the connection.
    pub fn on_connected(polled: Poll<Result<(), X>>) -> (next: Next<X>)
        ensures
            next == (match polled {
                Poll::Pending => Next::Return(Poll::Pending),
                Poll::Ready(Err(error)) => Next::Return(Poll::Ready(Err(error))),
                Poll::Ready(Ok(())) => Next::Again,
            }),
    {
        match polled {
            Poll::Pending => Next::Return(Poll::Pending),
            Poll::Ready(Err(error)) => Next::Return(Poll::Ready(Err(error))),
            Poll::Ready(Ok(())) => Next::Again,
        }
    }
}

} // verus!
