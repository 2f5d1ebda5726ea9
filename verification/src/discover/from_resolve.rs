//! Observing a resolution.
//!
//! The resolution is polled outside.

use super::active::Active;
use crate::net::SocketAddr;
use crate::poll::Poll;
use std::collections::VecDeque;
use std::marker::PhantomData;
use vstd::prelude::*;

verus! {

/// Observes the resolutions of `R`, whose endpoints are `E`.
#[derive(Debug)]
pub struct FromResolve<R, E> {
    pub resolve: R,
    pub marker: PhantomData<E>,
}

/// Waits for a resolution.
#[derive(Debug)]
pub struct DiscoverFuture<F, E> {
    pub future: F,
    pub marker: PhantomData<E>,
}

/// A change of the endpoints of a service.
#[derive(Clone, Copy, Debug)]
pub enum Change {
    /// An endpoint is to be used under an address, in place of another that is used there.
    Insert(SocketAddr, u64),
    /// The endpoint under an address is no longer to be used.
    Remove(SocketAddr),
}

/// What a resolution says of the endpoints of a service.
#[derive(Debug)]
pub enum Update {
    /// These are all endpoints.
    Reset(Vec<(SocketAddr, u64)>),
    /// These are endpoints too.
    Add(Vec<(SocketAddr, u64)>),
    /// The endpoints under these addresses are gone.
    Remove(Vec<SocketAddr>),
    /// There is no such service.
    DoesNotExist,
}

/// Observes a resolution `R`.
pub struct Discover<R> {
    pub resolution: R,
    pub active: Active,
    pub pending: VecDeque<Change>,
}

/// How polling goes on.
#[derive(Debug)]
pub enum Next<X> {
    /// The poll returns.
    Return(Poll<Option<Result<Change, X>>>),
    /// The resolution is to be polled.
    PollResolution,
    /// The poll starts over.
    Again,
}

/// `active` after `endpoints` are added in turn.
pub open spec fn added(
    active: Map<SocketAddr, u64>,
    endpoints: Seq<(SocketAddr, u64)>,
) -> Map<SocketAddr, u64>
    decreases endpoints.len(),
{
    if endpoints.len() == 0 {
        active
    } else {
        added(active, endpoints.drop_last()).insert(endpoints.last().0, endpoints.last().1)
    }
}

/// `active` without the addresses `addrs`.
pub open spec fn without(
    active: Map<SocketAddr, u64>,
    addrs: Seq<SocketAddr>,
) -> Map<SocketAddr, u64> {
    active.remove_keys(addrs.to_set())
}

/// The addresses of `endpoints`.
pub open spec fn addrs_of(endpoints: Seq<(SocketAddr, u64)>) -> Seq<SocketAddr> {
    endpoints.map_values(|endpoint: (SocketAddr, u64)| endpoint.0)
}

/// The insertion of each of `endpoints`.
pub open spec fn all_inserted(endpoints: Seq<(SocketAddr, u64)>) -> Seq<Change> {
    endpoints.map_values(|endpoint: (SocketAddr, u64)| Change::Insert(endpoint.0, endpoint.1))
}

/// The insertions that a reset to `endpoints` makes: those of the endpoints that are not
/// active under their address.
pub open spec fn reset_inserted(
    active: Map<SocketAddr, u64>,
    endpoints: Seq<(SocketAddr, u64)>,
) -> Seq<Change>
    decreases endpoints.len(),
{
    if endpoints.len() == 0 {
        Seq::empty()
    } else {
        let rest = endpoints.drop_last();
        let (addr, endpoint) = endpoints.last();
        let left = without(active, addrs_of(rest));
        let changes = reset_inserted(active, rest);
        if left.dom().contains(addr) && left[addr] == endpoint {
            changes
        } else {
            changes.push(Change::Insert(addr, endpoint))
        }
    }
}

/// The removals of those of `addrs` that are active, each once.
pub open spec fn removed(active: Map<SocketAddr, u64>, addrs: Seq<SocketAddr>) -> Seq<Change>
    decreases addrs.len(),
{
    if addrs.len() == 0 {
        Seq::empty()
    } else {
        let rest = addrs.drop_last();
        let changes = removed(active, rest);
        if without(active, rest).dom().contains(addrs.last()) {
            changes.push(Change::Remove(addrs.last()))
        } else {
            changes
        }
    }
}

/// Whether `changes` are the removals of all that is active, each once, in any order.
pub open spec fn drained(changes: Seq<Change>, active: Map<SocketAddr, u64>) -> bool {
    &&& changes.no_duplicates()
    &&& forall|i: int|
        0 <= i < changes.len() ==> (#[trigger] changes[i] matches Change::Remove(addr)
            && active.dom().contains(addr))
    &&& forall|addr: SocketAddr| #[trigger]
        active.dom().contains(addr) ==> changes.contains(Change::Remove(addr))
}

/// Whether `update` makes `changes` and leaves `after` active where `before` was.
pub open spec fn updated(
    before: Map<SocketAddr, u64>,
    update: Update,
    changes: Seq<Change>,
    after: Map<SocketAddr, u64>,
) -> bool {
    match update {
        Update::Reset(endpoints) => {
            let inserts = reset_inserted(before, endpoints@);
            &&& inserts.len() <= changes.len()
            &&& changes.take(inserts.len() as int) == inserts
            &&& drained(
                changes.skip(inserts.len() as int),
                without(before, addrs_of(endpoints@)),
            )
            &&& after == added(Map::empty(), endpoints@)
        },
        Update::Add(endpoints) => {
            &&& changes == all_inserted(endpoints@)
            &&& after == added(before, endpoints@)
        },
        Update::Remove(addrs) => {
            &&& changes == removed(before, addrs@)
            &&& after == without(before, addrs@)
        },
        Update::DoesNotExist => {
            &&& drained(changes, before)
            &&& after == Map::<SocketAddr, u64>::empty()
        },
    }
}

impl<R, E> FromResolve<R, E> {
    pub fn new(resolve: R) -> (made: Self)
        ensures
            made.resolve == resolve,
    {
        FromResolve { resolve, marker: PhantomData }
    }

    /// Waits for the resolution that `future` gives.
    pub fn call<F>(future: F) -> (waiting: DiscoverFuture<F, E>)
        ensures
            waiting.future == future,
    {
        DiscoverFuture { future, marker: PhantomData }
    }
}

impl<F, E> DiscoverFuture<F, E> {
    /// Observes the resolution once there is one.
    pub fn poll<R, X>(polled: Poll<Result<R, X>>) -> (discover: Poll<Result<Discover<R>, X>>)
        ensures
            match polled {
                Poll::Pending => discover is Pending,
                Poll::Ready(Err(error)) => discover == Poll::Ready(
                    Err::<Discover<R>, X>(error),
                ),
                Poll::Ready(Ok(resolution)) => {
                    &&& discover matches Poll::Ready(Ok(discover))
                    &&& discover.resolution == resolution
                    &&& discover.active.wf()
                    &&& discover.active@ == Map::<SocketAddr, u64>::empty()
                    &&& discover.pending@ == Seq::<Change>::empty()
                },
            },
    {
        match polled {
            Poll::Pending => Poll::Pending,
            Poll::Ready(Err(error)) => Poll::Ready(Err(error)),
            Poll::Ready(Ok(resolution)) => Poll::Ready(Ok(Discover::new(resolution))),
        }
    }
}

impl<R> Discover<R> {
    /// Observes `resolution`, of which nothing is known yet.
    pub fn new(resolution: R) -> (discover: Self)
        ensures
            discover.resolution == resolution,
            discover.active.wf(),
            discover.active@ == Map::<SocketAddr, u64>::empty(),
            discover.pending@ == Seq::<Change>::empty(),
    {
        Discover { resolution, active: Active::new(), pending: VecDeque::new() }
    }

    /// Polls for a change. The resolution is polled only when no change is pending.
    pub fn poll_next<X>(&mut self) -> (next: Next<X>)
        ensures
            final(self).resolution == old(self).resolution,
            final(self).active == old(self).active,
            if old(self).pending@.len() > 0 {
                &&& next == Next::<X>::Return(Poll::Ready(Some(Ok(old(self).pending@[0]))))
                &&& final(self).pending@ == old(self).pending@.drop_first()
            } else {
                &&& next == Next::<X>::PollResolution
                &&& final(self).pending@ == old(self).pending@
            },
    {
        match self.pending.pop_front() {
            Some(change) => {
                assert(self.pending@ =~= old(self).pending@.drop_first());
                Next::Return(Poll::Ready(Some(Ok(change))))
            },
            None => Next::PollResolution,
        }
    }

    /// Goes on with the outcome of polling the resolution.
    pub fn on_update<X>(&mut self, polled: Poll<Option<Result<Update, X>>>) -> (next: Next<X>)
        requires
            old(self).active.wf(),
            old(self).pending@.len() == 0,
        ensures
            final(self).resolution == old(self).resolution,
            final(self).active.wf(),
            match polled {
                Poll::Ready(Some(Ok(update))) => {
                    &&& next == Next::<X>::Again
                    &&& updated(
                        old(self).active@,
                        update,
                        final(self).pending@,
                        final(self).active@,
                    )
                },
                _ => {
                    &&& final(self).active == old(self).active
                    &&& final(self).pending@ == old(self).pending@
                    &&& next == match polled {
                        Poll::Ready(Some(Err(error))) => Next::Return(Poll::Ready(Some(Err(error)))),
                        Poll::Ready(None) => Next::Return(Poll::Ready(None)),
                        _ => Next::<X>::Return(Poll::Pending),
                    }
                },
            },
    {
        match polled {
            Poll::Pending => Next::Return(Poll::Pending),
            Poll::Ready(None) => Next::Return(Poll::Ready(None)),
            Poll::Ready(Some(Err(error))) => Next::Return(Poll::Ready(Some(Err(error)))),
            Poll::Ready(Some(Ok(update))) => {
                match update {
                    Update::Reset(endpoints) => self.reset(endpoints),
                    Update::Add(endpoints) => self.add_all(endpoints),
                    Update::Remove(addrs) => self.remove_all(addrs),
                    Update::DoesNotExist => {
                        self.drain_active();
                        assert(self.pending@ =~= self.pending@.skip(0));
                    },
                }
                Next::Again
            },
        }
    }

    fn drain_active(&mut self)
        requires
            old(self).active.wf(),
        ensures
            final(self).resolution == old(self).resolution,
            final(self).active.wf(),
            final(self).active@ == Map::<SocketAddr, u64>::empty(),
            old(self).pending@.len() <= final(self).pending@.len(),
            final(self).pending@.take(old(self).pending@.len() as int) == old(self).pending@,
            drained(final(self).pending@.skip(old(self).pending@.len() as int), old(self).active@),
    {
        let ghost before = self.pending@;
        let ghost known = self.active@;
        let addrs = self.active.drain();
        let mut i: usize = 0;
        while i < addrs.len()
            invariant
                i <= addrs@.len(),
                self.resolution == old(self).resolution,
                self.active.wf(),
                self.active@ == Map::<SocketAddr, u64>::empty(),
                self.pending@.len() == before.len() + i,
                forall|j: int| 0 <= j < before.len() ==> #[trigger] self.pending@[j] == before[j],
                forall|j: int|
                    0 <= j < i ==> #[trigger] self.pending@[before.len() + j] == Change::Remove(
                        addrs@[j],
                    ),
            decreases addrs@.len() - i,
        {
            self.pending.push_back(Change::Remove(addrs[i]));
            i += 1;
        }
        proof {
            let changes = self.pending@.skip(before.len() as int);
            assert(self.pending@.take(before.len() as int) =~= before);
            assert forall|j: int| 0 <= j < changes.len() implies (#[trigger] changes[j]
                matches Change::Remove(addr) && known.dom().contains(addr)) by {
                assert(changes[j] == self.pending@[before.len() + j]);
                assert(addrs@.contains(addrs@[j]));
            }
            assert forall|a: int, b: int|
                0 <= a < changes.len() && 0 <= b < changes.len() && a != b implies changes[a]
                != changes[b] by {
                assert(changes[a] == self.pending@[before.len() + a]);
                assert(changes[b] == self.pending@[before.len() + b]);
                assert(addrs@[a] != addrs@[b]);
            }
            assert forall|addr: SocketAddr| #[trigger]
                known.dom().contains(addr) implies changes.contains(Change::Remove(addr)) by {
                assert(addrs@.contains(addr));
                let j = choose|j: int| 0 <= j < addrs@.len() && addrs@[j] == addr;
                assert(changes[j] == self.pending@[before.len() + j]);
            }
        }
    }

    fn reset(&mut self, endpoints: Vec<(SocketAddr, u64)>)
        requires
            old(self).active.wf(),
            old(self).pending@.len() == 0,
        ensures
            final(self).resolution == old(self).resolution,
            final(self).active.wf(),
            updated(
                old(self).active@,
                Update::Reset(endpoints),
                final(self).pending@,
                final(self).active@,
            ),
    {
        let ghost known = self.active@;
        let mut new_active = Active::new();
        let mut i: usize = 0;
        assert(self.pending@ =~= reset_inserted(known, endpoints@.take(0)));
        assert(without(known, addrs_of(endpoints@.take(0))) =~= known);
        while i < endpoints.len()
            invariant
                i <= endpoints@.len(),
                self.resolution == old(self).resolution,
                self.active.wf(),
                new_active.wf(),
                self.active@ == without(known, addrs_of(endpoints@.take(i as int))),
                self.pending@ == reset_inserted(known, endpoints@.take(i as int)),
                new_active@ == added(Map::empty(), endpoints@.take(i as int)),
            decreases endpoints@.len() - i,
        {
            let ghost done = endpoints@.take(i as int);
            let ghost longer = endpoints@.take(i + 1);
            assert(longer.drop_last() =~= done);
            assert(longer.last() == endpoints@[i as int]);
            let (addr, endpoint) = endpoints[i];
            proof {
                lemma_without_push(known, addrs_of(done), addr);
                assert(addrs_of(longer) =~= addrs_of(done).push(addr));
            }
            let known_already = match self.active.remove(&addr) {
                Some(active) => active == endpoint,
                None => false,
            };
            if !known_already {
                self.pending.push_back(Change::Insert(addr, endpoint));
            }
            new_active.insert(addr, endpoint);
            i += 1;
        }
        assert(endpoints@.take(i as int) =~= endpoints@);
        self.drain_active();
        self.active = new_active;
    }

    fn add_all(&mut self, endpoints: Vec<(SocketAddr, u64)>)
        requires
            old(self).active.wf(),
            old(self).pending@.len() == 0,
        ensures
            final(self).resolution == old(self).resolution,
            final(self).active.wf(),
            updated(
                old(self).active@,
                Update::Add(endpoints),
                final(self).pending@,
                final(self).active@,
            ),
    {
        let ghost known = self.active@;
        let mut i: usize = 0;
        while i < endpoints.len()
            invariant
                i <= endpoints@.len(),
                self.resolution == old(self).resolution,
                self.active.wf(),
                self.active@ == added(known, endpoints@.take(i as int)),
                self.pending@ == all_inserted(endpoints@.take(i as int)),
            decreases endpoints@.len() - i,
        {
            assert(endpoints@.take(i + 1).drop_last() =~= endpoints@.take(i as int));
            let (addr, endpoint) = endpoints[i];
            self.active.insert(addr, endpoint);
            self.pending.push_back(Change::Insert(addr, endpoint));
            assert(self.pending@ =~= all_inserted(endpoints@.take(i + 1)));
            i += 1;
        }
        assert(endpoints@.take(i as int) =~= endpoints@);
    }

    fn remove_all(&mut self, addrs: Vec<SocketAddr>)
        requires
            old(self).active.wf(),
            old(self).pending@.len() == 0,
        ensures
            final(self).resolution == old(self).resolution,
            final(self).active.wf(),
            updated(
                old(self).active@,
                Update::Remove(addrs),
                final(self).pending@,
                final(self).active@,
            ),
    {
        let ghost known = self.active@;
        let mut i: usize = 0;
        assert(without(known, addrs@.take(0)) =~= known);
        while i < addrs.len()
            invariant
                i <= addrs@.len(),
                self.resolution == old(self).resolution,
                self.active.wf(),
                self.active@ == without(known, addrs@.take(i as int)),
                self.pending@ == removed(known, addrs@.take(i as int)),
            decreases addrs@.len() - i,
        {
            let addr = addrs[i];
            proof {
                let done = addrs@.take(i as int);
                assert(addrs@.take(i + 1).drop_last() =~= done);
                assert(addrs@.take(i + 1) =~= done.push(addr));
                lemma_without_push(known, done, addr);
            }
            if self.active.remove(&addr).is_some() {
                self.pending.push_back(Change::Remove(addr));
            }
            i += 1;
        }
        assert(addrs@.take(i as int) =~= addrs@);
    }
}

/// Leaving out one more address removes it.
pub proof fn lemma_without_push(
    active: Map<SocketAddr, u64>,
    addrs: Seq<SocketAddr>,
    addr: SocketAddr,
)
    ensures
        without(active, addrs.push(addr)) == without(active, addrs).remove(addr),
{
    assert forall|a: SocketAddr| #[trigger]
        addrs.push(addr).to_set().contains(a) <==> addrs.to_set().contains(a) || a == addr by {
        if addrs.contains(a) {
            let i = choose|i: int| 0 <= i < addrs.len() && addrs[i] == a;
            assert(addrs.push(addr)[i] == a);
        }
        assert(addrs.push(addr)[addrs.len() as int] == addr);
    }
    assert(without(active, addrs.push(addr)) =~= without(active, addrs).remove(addr));
}

} // verus!
