//! What observing a resolution does at each step.

use super::active::Active;
use super::from_resolve::{self, Change, Discover, DiscoverFuture, FromResolve, Next, Update};
use super::laws;
use crate::net::SocketAddr;
use crate::poll::Poll;
use vstd::prelude::*;

verus! {

/// Whether one of `endpoints` is at `addr`.
pub open spec fn is_among(endpoints: Seq<(SocketAddr, u64)>, addr: SocketAddr) -> bool {
    exists|j: int| 0 <= j < endpoints.len() && (#[trigger] endpoints[j]).0 == addr
}

/// Whether `endpoint` is the last one of `endpoints` at `addr`.
pub open spec fn is_last_at(
    endpoints: Seq<(SocketAddr, u64)>,
    addr: SocketAddr,
    endpoint: u64,
) -> bool {
    exists|j: int|
        0 <= j < endpoints.len() && #[trigger] endpoints[j] == (addr, endpoint) && forall|k: int|
            j < k < endpoints.len() ==> (#[trigger] endpoints[k]).0 != addr
}

/// Whether no two of `endpoints` are at the same address.
pub open spec fn apart(endpoints: Seq<(SocketAddr, u64)>) -> bool {
    forall|i: int, j: int|
        0 <= i < j < endpoints.len() ==> (#[trigger] endpoints[i]).0 != (#[trigger] endpoints[j]).0
}

/// Whether `endpoint` is active under its address.
pub open spec fn is_active(active: Map<SocketAddr, u64>, endpoint: (SocketAddr, u64)) -> bool {
    active.dom().contains(endpoint.0) && active[endpoint.0] == endpoint.1
}

/// What is active after an update: after a reset the endpoints in it and no other, after an
/// addition these too, after a removal all others. Where several are at one address the last
/// one counts.
pub open spec fn turns_into(
    before: Map<SocketAddr, u64>,
    update: Update,
    after: Map<SocketAddr, u64>,
    addr: SocketAddr,
) -> bool {
    match update {
        Update::Reset(endpoints) => {
            &&& after.dom().contains(addr) <==> is_among(endpoints@, addr)
            &&& after.dom().contains(addr) ==> is_last_at(endpoints@, addr, after[addr])
        },
        Update::Add(endpoints) => if is_among(endpoints@, addr) {
            after.dom().contains(addr) && is_last_at(endpoints@, addr, after[addr])
        } else {
            &&& after.dom().contains(addr) <==> before.dom().contains(addr)
            &&& before.dom().contains(addr) ==> after[addr] == before[addr]
        },
        Update::Remove(addrs) => {
            &&& after.dom().contains(addr) <==> before.dom().contains(addr) && !addrs@.contains(
                addr,
            )
            &&& after.dom().contains(addr) ==> after[addr] == before[addr]
        },
        Update::DoesNotExist => !after.dom().contains(addr),
    }
}

proof fn lemma_added(
    active: Map<SocketAddr, u64>,
    endpoints: Seq<(SocketAddr, u64)>,
    addr: SocketAddr,
)
    ensures
        ({
            let after = from_resolve::added(active, endpoints);
            if is_among(endpoints, addr) {
                after.dom().contains(addr) && is_last_at(endpoints, addr, after[addr])
            } else {
                &&& after.dom().contains(addr) <==> active.dom().contains(addr)
                &&& active.dom().contains(addr) ==> after[addr] == active[addr]
            }
        }),
    decreases endpoints.len(),
{
    if endpoints.len() > 0 {
        let rest = endpoints.drop_last();
        lemma_added(active, rest, addr);
        let last = endpoints.len() - 1;
        let after = from_resolve::added(active, endpoints);
        if endpoints[last].0 == addr {
            assert(endpoints[last] == (addr, after[addr]));
            assert(is_last_at(endpoints, addr, after[addr]));
        } else {
            if is_among(endpoints, addr) {
                let j = choose|j: int| 0 <= j < endpoints.len() && (#[trigger] endpoints[j]).0 == addr;
                assert(rest[j].0 == addr);
            }
            if is_among(rest, addr) {
                let value = from_resolve::added(active, rest)[addr];
                let j = choose|j: int|
                    0 <= j < rest.len() && #[trigger] rest[j] == (addr, value) && forall|k: int|
                        j < k < rest.len() ==> (#[trigger] rest[k]).0 != addr;
                assert(endpoints[j] == (addr, value));
                assert forall|k: int| j < k < endpoints.len() implies (#[trigger] endpoints[k]).0
                    != addr by {
                    if k < last {
                        assert(rest[k] == endpoints[k]);
                    }
                }
                assert(is_last_at(endpoints, addr, value));
                assert(is_among(endpoints, addr));
            }
        }
    }
}

proof fn lemma_updated(
    before: Map<SocketAddr, u64>,
    update: Update,
    changes: Seq<Change>,
    after: Map<SocketAddr, u64>,
    addr: SocketAddr,
)
    requires
        from_resolve::updated(before, update, changes, after),
    ensures
        turns_into(before, update, after, addr),
{
    match update {
        Update::Reset(endpoints) => lemma_added(Map::empty(), endpoints@, addr),
        Update::Add(endpoints) => lemma_added(before, endpoints@, addr),
        Update::Remove(addrs) => {
            assert(addrs@.to_set().contains(addr) <==> addrs@.contains(addr));
        },
        Update::DoesNotExist => {},
    }
}

/// An update turns what is active into what it says, and the changes that it makes turn what a
/// consumer holds into the same. Then polling starts over.
pub proof fn law_updates_are_followed<R, X>(
    before: Discover<R>,
    update: Update,
    after: Discover<R>,
    next: Next<X>,
    addr: SocketAddr,
)
    requires
        before.active.wf(),
        before.pending@.len() == 0,
        exists|d: &mut Discover<R>|
            *d == before && *final(d) == after && #[trigger] call_ensures(
                Discover::<R>::on_update::<X>,
                (d, Poll::Ready(Some(Ok(update)))),
                next,
            ),
    ensures
        next is Again,
        after.resolution == before.resolution,
        after.active.wf(),
        turns_into(before.active@, update, after.active@, addr),
        laws::consumed(before.active@, after.pending@) == after.active@,
{
    lemma_updated(before.active@, update, after.pending@, after.active@, addr);
    laws::law_changes_reach_active(before.active@, update, after.pending@, after.active@);
}

/// Anything but an update leaves what is known as it is, and is returned.
pub proof fn law_other_outcomes_are_returned<R, X>(
    before: Discover<R>,
    polled: Poll<Option<Result<Update, X>>>,
    after: Discover<R>,
    next: Next<X>,
)
    requires
        before.active.wf(),
        before.pending@.len() == 0,
        !(polled matches Poll::Ready(Some(Ok(_)))),
        exists|d: &mut Discover<R>|
            *d == before && *final(d) == after && #[trigger] call_ensures(
                Discover::<R>::on_update::<X>,
                (d, polled),
                next,
            ),
    ensures
        after.active@ == before.active@,
        after.pending@.len() == 0,
        after.resolution == before.resolution,
        polled is Pending <==> next matches Next::Return(Poll::Pending),
        polled matches Poll::Ready(None) <==> next matches Next::Return(Poll::Ready(None)),
        next matches Next::Return(Poll::Ready(Some(result))) ==> (result matches Err(error)
            && polled == Poll::Ready(Some(Err::<Update, X>(error)))),
        next is Return,
{
}

proof fn lemma_reset_inserts(active: Map<SocketAddr, u64>, endpoints: Seq<(SocketAddr, u64)>)
    ensures
        ({
            let changes = from_resolve::reset_inserted(active, endpoints);
            &&& forall|i: int|
                0 <= i < changes.len() ==> (#[trigger] changes[i] matches Change::Insert(addr, new)
                    && endpoints.contains((addr, new)))
            &&& apart(endpoints) ==> changes == from_resolve::all_inserted(
                endpoints.filter(|endpoint: (SocketAddr, u64)| !is_active(active, endpoint)),
            )
        }),
    decreases endpoints.len(),
{
    reveal(Seq::filter);
    let changes = from_resolve::reset_inserted(active, endpoints);
    let fresh = |endpoint: (SocketAddr, u64)| !is_active(active, endpoint);
    if endpoints.len() == 0 {
        assert(from_resolve::all_inserted(endpoints.filter(fresh)) =~= changes);
    } else {
        let rest = endpoints.drop_last();
        let last = endpoints.len() - 1;
        let (addr, new) = endpoints.last();
        lemma_reset_inserts(active, rest);
        let fewer = from_resolve::reset_inserted(active, rest);
        assert forall|i: int| 0 <= i < changes.len() implies (#[trigger] changes[i]
            matches Change::Insert(addr, new) && endpoints.contains((addr, new))) by {
            if i < fewer.len() {
                assert(changes[i] == fewer[i]);
                let pair = (fewer[i]->Insert_0, fewer[i]->Insert_1);
                assert(rest.contains(pair));
                let k = choose|k: int| 0 <= k < rest.len() && rest[k] == pair;
                assert(endpoints[k] == pair);
            } else {
                assert(endpoints[last] == (addr, new));
            }
        }
        if apart(endpoints) {
            assert(apart(rest)) by {
                assert forall|i: int, j: int| 0 <= i < j < rest.len() implies (
                #[trigger] rest[i]).0 != (#[trigger] rest[j]).0 by {
                    assert(endpoints[i] == rest[i]);
                    assert(endpoints[j] == rest[j]);
                }
            }
            let addrs = from_resolve::addrs_of(rest);
            let left = from_resolve::without(active, addrs);
            assert(!addrs.contains(addr)) by {
                if addrs.contains(addr) {
                    let k = choose|k: int| 0 <= k < addrs.len() && addrs[k] == addr;
                    assert(rest[k].0 == addr);
                    assert(endpoints[k].0 != endpoints[last].0);
                }
            }
            assert(!addrs.to_set().contains(addr));
            assert(left.dom().contains(addr) <==> active.dom().contains(addr));
            assert(left.dom().contains(addr) ==> left[addr] == active[addr]);
            let kept = rest.filter(fresh);
            if fresh(endpoints.last()) {
                assert(from_resolve::all_inserted(kept.push(endpoints.last()))
                    =~= from_resolve::all_inserted(kept).push(Change::Insert(addr, new)));
            }
        }
    }
}

proof fn lemma_removals(active: Map<SocketAddr, u64>, addrs: Seq<SocketAddr>)
    ensures
        ({
            let changes = from_resolve::removed(active, addrs);
            &&& changes.no_duplicates()
            &&& forall|i: int| 0 <= i < changes.len() ==> #[trigger] changes[i] is Remove
            &&& forall|addr: SocketAddr| #[trigger]
                changes.contains(Change::Remove(addr)) <==> active.dom().contains(addr)
                    && addrs.contains(addr)
            &&& addrs.no_duplicates() ==> changes == addrs.filter(
                |addr: SocketAddr| active.dom().contains(addr),
            ).map_values(|addr: SocketAddr| Change::Remove(addr))
        }),
    decreases addrs.len(),
{
    reveal(Seq::filter);
    let changes = from_resolve::removed(active, addrs);
    let known = |addr: SocketAddr| active.dom().contains(addr);
    let gone = |addr: SocketAddr| Change::Remove(addr);
    if addrs.len() == 0 {
        assert(addrs.filter(known).map_values(gone) =~= changes);
    } else {
        let rest = addrs.drop_last();
        let last = addrs.last();
        lemma_removals(active, rest);
        let fewer = from_resolve::removed(active, rest);
        let left = from_resolve::without(active, rest);
        assert(rest.to_set().contains(last) <==> rest.contains(last));
        assert(left.dom().contains(last) <==> active.dom().contains(last) && !rest.contains(last));
        assert forall|addr: SocketAddr| #[trigger]
            addrs.contains(addr) <==> rest.contains(addr) || addr == last by {
            if rest.contains(addr) {
                let k = choose|k: int| 0 <= k < rest.len() && rest[k] == addr;
                assert(addrs[k] == addr);
            }
            assert(addrs[addrs.len() - 1] == last);
            if addrs.contains(addr) && addr != last {
                let k = choose|k: int| 0 <= k < addrs.len() && addrs[k] == addr;
                assert(rest[k] == addr);
            }
        }
        if left.dom().contains(last) {
            assert(changes == fewer.push(Change::Remove(last)));
            assert forall|change: Change| #[trigger]
                changes.contains(change) <==> fewer.contains(change) || change == Change::Remove(
                    last,
                ) by {
                if fewer.contains(change) {
                    let k = choose|k: int| 0 <= k < fewer.len() && fewer[k] == change;
                    assert(changes[k] == change);
                }
                assert(changes[fewer.len() as int] == Change::Remove(last));
            }
            assert(!fewer.contains(Change::Remove(last)));
            assert(changes.no_duplicates());
        } else {
            assert(changes == fewer);
        }
        if addrs.no_duplicates() {
            assert(rest.no_duplicates());
            assert(!rest.contains(last)) by {
                if rest.contains(last) {
                    let k = choose|k: int| 0 <= k < rest.len() && rest[k] == last;
                    assert(addrs[k] == addrs[addrs.len() - 1]);
                }
            }
            if known(last) {
                assert(rest.filter(known).push(last).map_values(gone) =~= rest.filter(
                    known,
                ).map_values(gone).push(Change::Remove(last)));
            }
        }
    }
}

/// A reset inserts first, and only endpoints in it, and then removes, each once, what was active
/// elsewhere. Where no two endpoints are at one address it inserts those that were not active,
/// in their order, and no other.
pub proof fn law_reset_changes<R, X>(
    before: Discover<R>,
    endpoints: Vec<(SocketAddr, u64)>,
    after: Discover<R>,
    next: Next<X>,
)
    requires
        before.active.wf(),
        before.pending@.len() == 0,
        exists|d: &mut Discover<R>|
            *d == before && *final(d) == after && #[trigger] call_ensures(
                Discover::<R>::on_update::<X>,
                (d, Poll::Ready(Some(Ok(Update::Reset(endpoints))))),
                next,
            ),
    ensures
        ({
            let changes = after.pending@;
            &&& forall|i: int|
                0 <= i < changes.len() ==> match #[trigger] changes[i] {
                    Change::Insert(addr, new) => endpoints@.contains((addr, new)),
                    Change::Remove(addr) => before.active@.dom().contains(addr) && !is_among(
                        endpoints@,
                        addr,
                    ),
                }
            &&& forall|i: int, j: int|
                0 <= i < j < changes.len() && #[trigger] changes[i] is Remove
                    ==> #[trigger] changes[j] is Remove && changes[i] != changes[j]
            &&& apart(endpoints@) ==> changes.filter(|change: Change| change is Insert)
                == endpoints@.filter(
                |endpoint: (SocketAddr, u64)| !is_active(before.active@, endpoint),
            ).map_values(
                |endpoint: (SocketAddr, u64)| Change::Insert(endpoint.0, endpoint.1),
            )
        }),
{
    let changes = after.pending@;
    let known = before.active@;
    let inserts = from_resolve::reset_inserted(known, endpoints@);
    let n = inserts.len() as int;
    let removes = changes.skip(n);
    let addrs = from_resolve::addrs_of(endpoints@);
    lemma_reset_inserts(known, endpoints@);
    assert forall|i: int| 0 <= i < n implies #[trigger] changes[i] == inserts[i] by {
        assert(changes.take(n)[i] == changes[i]);
    }
    assert forall|i: int| n <= i < changes.len() implies #[trigger] changes[i] is Remove by {
        assert(removes[i - n] == changes[i]);
    }
    assert forall|i: int| 0 <= i < changes.len() implies match #[trigger] changes[i] {
        Change::Insert(addr, new) => endpoints@.contains((addr, new)),
        Change::Remove(addr) => known.dom().contains(addr) && !is_among(endpoints@, addr),
    } by {
        if i < n {
            assert(changes[i] == inserts[i]);
        } else {
            assert(removes[i - n] == changes[i]);
            let addr = changes[i]->Remove_0;
            assert(from_resolve::without(known, addrs).dom().contains(addr));
            if is_among(endpoints@, addr) {
                let j = choose|j: int|
                    0 <= j < endpoints@.len() && (#[trigger] endpoints@[j]).0 == addr;
                assert(addrs[j] == addr);
                assert(addrs.to_set().contains(addr));
            }
        }
    }
    assert forall|i: int, j: int|
        0 <= i < j < changes.len() && #[trigger] changes[i] is Remove implies #[trigger] changes[j] is Remove
        && changes[i] != changes[j] by {
        assert(i >= n);
        assert(removes[i - n] == changes[i]);
        assert(removes[j - n] == changes[j]);
    }
    if apart(endpoints@) {
        lemma_filter_prefix(changes, n);
        assert(changes.take(n) == inserts);
    }
}

/// Where the first `n` changes are insertions and the others are not, they are what is left of
/// insertions.
proof fn lemma_filter_prefix(changes: Seq<Change>, n: int)
    requires
        0 <= n <= changes.len(),
        forall|i: int| 0 <= i < n ==> #[trigger] changes[i] is Insert,
        forall|i: int| n <= i < changes.len() ==> #[trigger] changes[i] is Remove,
    ensures
        changes.filter(|change: Change| change is Insert) == changes.take(n),
    decreases changes.len(),
{
    reveal(Seq::filter);
    if changes.len() > 0 {
        let rest = changes.drop_last();
        let last = changes.len() - 1;
        assert(forall|i: int| 0 <= i < rest.len() ==> #[trigger] rest[i] == changes[i]);
        if n == changes.len() {
            lemma_filter_prefix(rest, n - 1);
            assert(changes[last] is Insert);
            assert(rest.take(n - 1).push(changes[last]) =~= changes.take(n));
        } else {
            lemma_filter_prefix(rest, n);
            assert(changes[last] is Remove);
            assert(rest.take(n) =~= changes.take(n));
        }
    } else {
        assert(changes.take(n) =~= changes);
    }
}

/// An addition inserts its endpoints, in their order. A removal removes, each once, those of its
/// addresses that were active, in their order if no address comes twice. When the service does
/// not exist all that was active is removed, each once.
pub proof fn law_other_changes<R, X>(
    before: Discover<R>,
    update: Update,
    after: Discover<R>,
    next: Next<X>,
)
    requires
        before.active.wf(),
        before.pending@.len() == 0,
        exists|d: &mut Discover<R>|
            *d == before && *final(d) == after && #[trigger] call_ensures(
                Discover::<R>::on_update::<X>,
                (d, Poll::Ready(Some(Ok(update)))),
                next,
            ),
    ensures
        ({
            let changes = after.pending@;
            let known = before.active@.dom();
            match update {
                Update::Reset(_) => true,
                Update::Add(endpoints) => {
                    &&& changes.len() == endpoints@.len()
                    &&& forall|i: int|
                        0 <= i < changes.len() ==> #[trigger] changes[i] == Change::Insert(
                            endpoints@[i].0,
                            endpoints@[i].1,
                        )
                },
                Update::Remove(addrs) => {
                    &&& changes.no_duplicates()
                    &&& forall|i: int| 0 <= i < changes.len() ==> #[trigger] changes[i] is Remove
                    &&& forall|addr: SocketAddr| #[trigger]
                        changes.contains(Change::Remove(addr)) <==> known.contains(addr)
                            && addrs@.contains(addr)
                    &&& addrs@.no_duplicates() ==> changes == addrs@.filter(
                        |addr: SocketAddr| known.contains(addr),
                    ).map_values(|addr: SocketAddr| Change::Remove(addr))
                },
                Update::DoesNotExist => {
                    &&& changes.no_duplicates()
                    &&& forall|i: int| 0 <= i < changes.len() ==> #[trigger] changes[i] is Remove
                    &&& forall|addr: SocketAddr| #[trigger]
                        changes.contains(Change::Remove(addr)) <==> known.contains(addr)
                },
            }
        }),
{
    let changes = after.pending@;
    match update {
        Update::Remove(addrs) => {
            lemma_removals(before.active@, addrs@);
        },
        Update::DoesNotExist => {
            assert forall|addr: SocketAddr| #[trigger]
                changes.contains(Change::Remove(addr)) implies before.active@.dom().contains(
                addr,
            ) by {
                let k = choose|k: int|
                    0 <= k < changes.len() && changes[k] == Change::Remove(addr);
                assert(changes[k] is Remove);
            }
        },
        _ => {},
    }
}

/// Pending changes are handed out one by one, the first one first, and the resolution is polled
/// only once none is left.
pub proof fn law_changes_are_handed_out<R, X>(
    before: Discover<R>,
    after: Discover<R>,
    next: Next<X>,
)
    requires
        exists|d: &mut Discover<R>|
            *d == before && *final(d) == after && #[trigger] call_ensures(
                Discover::<R>::poll_next::<X>,
                (d,),
                next,
            ),
    ensures
        after.active@ == before.active@,
        after.resolution == before.resolution,
        next is PollResolution <==> before.pending@.len() == 0,
        next is PollResolution ==> after.pending@.len() == 0,
        next !is PollResolution ==> {
            &&& next matches Next::Return(Poll::Ready(Some(Ok(change))))
            &&& before.pending@ == seq![change] + after.pending@
        },
{
    if before.pending@.len() > 0 {
        assert(before.pending@ =~= seq![before.pending@[0]] + after.pending@);
    }
}

/// A resolution is observed once there is one, and nothing is known of it then.
pub proof fn law_observing_starts_with_nothing<F, E, R, X>(
    polled: Poll<Result<R, X>>,
    observed: Poll<Result<Discover<R>, X>>,
    resolution: R,
    discover: Discover<R>,
)
    requires
        call_ensures(DiscoverFuture::<F, E>::poll::<R, X>, (polled,), observed),
        call_ensures(Discover::<R>::new, (resolution,), discover),
    ensures
        observed is Pending <==> polled is Pending,
        observed matches Poll::Ready(Err(error)) ==> polled == Poll::Ready(Err::<R, X>(error)),
        observed matches Poll::Ready(Ok(made)) ==> {
            &&& polled == Poll::Ready(Ok::<R, X>(made.resolution))
            &&& made.active@.dom().is_empty()
            &&& made.pending@.len() == 0
        },
        discover.resolution == resolution,
        discover.active@.dom().is_empty(),
        discover.pending@.len() == 0,
{
}

/// What is waited for is what gives the resolution.
pub proof fn law_resolutions_are_waited_for<R, E, F>(
    resolve: R,
    made: FromResolve<R, E>,
    future: F,
    waiting: DiscoverFuture<F, E>,
)
    requires
        call_ensures(FromResolve::<R, E>::new, (resolve,), made),
        call_ensures(FromResolve::<R, E>::call::<F>, (future,), waiting),
    ensures
        made.resolve == resolve,
        waiting.future == future,
{
}

/// What is held under an address is what was put there last, until it is taken. Nothing else
/// changes then.
pub proof fn law_endpoints_are_held(
    before: Active,
    addr: SocketAddr,
    endpoint: u64,
    held: Active,
    removed: Option<u64>,
    left: Active,
    other: SocketAddr,
)
    requires
        before.wf(),
        exists|a: &mut Active|
            *a == before && *final(a) == held && #[trigger] call_ensures(
                Active::insert,
                (a, addr, endpoint),
                (),
            ),
        exists|a: &mut Active|
            *a == held && *final(a) == left && #[trigger] call_ensures(
                Active::remove,
                (a, &addr),
                removed,
            ),
    ensures
        held@.dom().contains(addr),
        held@[addr] == endpoint,
        removed == Some(endpoint),
        !left@.dom().contains(addr),
        other != addr ==> {
            &&& held@.dom().contains(other) <==> before@.dom().contains(other)
            &&& left@.dom().contains(other) <==> before@.dom().contains(other)
            &&& before@.dom().contains(other) ==> held@[other] == before@[other] && left@[other]
                == before@[other]
        },
{
}

/// Draining gives each address that is held, once, and leaves nothing. What is new holds
/// nothing, and what is not held cannot be taken.
pub proof fn law_active_is_drained(
    fresh: Active,
    before: Active,
    addr: SocketAddr,
    removed: Option<u64>,
    left: Active,
    addrs: Vec<SocketAddr>,
    drained: Active,
)
    requires
        before.wf(),
        call_ensures(Active::new, (), fresh),
        exists|a: &mut Active|
            *a == before && *final(a) == left && #[trigger] call_ensures(
                Active::remove,
                (a, &addr),
                removed,
            ),
        exists|a: &mut Active|
            *a == before && *final(a) == drained && #[trigger] call_ensures(
                Active::drain,
                (a,),
                addrs,
            ),
    ensures
        fresh@.dom().is_empty(),
        removed is Some <==> before@.dom().contains(addr),
        removed is None ==> left@ == before@,
        drained@.dom().is_empty(),
        addrs@.no_duplicates(),
        addrs@.contains(addr) <==> before@.dom().contains(addr),
{
    if !before@.dom().contains(addr) {
        assert(left@ =~= before@);
    }
}

/// Every outcome of polling the resolution is accepted once no change is pending.
pub proof fn law_outcomes_are_accepted<R, X>(
    before: Discover<R>,
    polled: Poll<Option<Result<Update, X>>>,
)
    requires
        before.active.wf(),
        before.pending@.len() == 0,
    ensures
        forall|d: &mut Discover<R>|
            *d == before ==> #[trigger] call_requires(Discover::<R>::on_update::<X>, (d, polled)),
{
}

} // verus!
