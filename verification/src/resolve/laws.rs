//! What holds of updates and of their reconciliation with a cache.

use crate::index_map::entries;
use crate::net::SocketAddr;
use crate::resolve::recover;
use crate::resolve::update;
use crate::resolve::update::UpdateView;
use vstd::prelude::*;

verus! {

/// Adding to no endpoints keeps the addresses distinct.
pub proof fn lemma_added_to_empty<E>(endpoints: Seq<(SocketAddr, E)>)
    ensures
        entries::distinct(update::added(Seq::empty(), endpoints)),
    decreases endpoints.len(),
{
    lemma_added(Seq::empty(), endpoints);
}

/// Adding endpoints keeps the addresses distinct, and overrides what the cache
/// holds at their addresses and nothing else.
pub proof fn lemma_added<E>(cache: Seq<(SocketAddr, E)>, endpoints: Seq<(SocketAddr, E)>)
    requires
        entries::distinct(cache),
    ensures
        entries::distinct(update::added(cache, endpoints)),
        entries::as_map(update::added(cache, endpoints)) == entries::as_map(
            cache,
        ).union_prefer_right(entries::as_map(update::added(Seq::empty(), endpoints))),
    decreases endpoints.len(),
{
    let none = Seq::<(SocketAddr, E)>::empty();
    if endpoints.len() == 0 {
        assert(entries::as_map(none) =~= Map::empty());
        assert(entries::as_map(cache) =~= entries::as_map(cache).union_prefer_right(Map::empty()));
    } else {
        let front = endpoints.drop_last();
        let last = endpoints.last();
        lemma_added(cache, front);
        lemma_added(none, front);
        entries::lemma_inserted(update::added(cache, front), last.0, last.1);
        entries::lemma_inserted(update::added(none, front), last.0, last.1);
        let m = entries::as_map(update::added(none, front));
        assert(entries::as_map(cache).union_prefer_right(m).insert(last.0, last.1)
            =~= entries::as_map(cache).union_prefer_right(m.insert(last.0, last.1)));
    }
}

/// Endpoints at distinct addresses, added to none, are the endpoints themselves.
pub proof fn lemma_added_distinct<E>(endpoints: Seq<(SocketAddr, E)>)
    requires
        entries::distinct(endpoints),
    ensures
        update::added(Seq::empty(), endpoints) == endpoints,
    decreases endpoints.len(),
{
    if endpoints.len() > 0 {
        let front = endpoints.drop_last();
        let last = endpoints.last();
        lemma_added_distinct(front);
        if entries::has_key(front, last.0) {
            let p = entries::position(front, last.0);
            assert(front[p].0 == last.0);
            assert(endpoints[p].0 == endpoints[endpoints.len() - 1].0);
        }
        assert(front.push(last) == endpoints);
    }
}

/// Removing addresses keeps the others distinct, and takes those addresses and
/// nothing else out of the cache.
pub proof fn lemma_removed<E>(cache: Seq<(SocketAddr, E)>, addrs: Seq<SocketAddr>)
    requires
        entries::distinct(cache),
    ensures
        entries::distinct(update::removed(cache, addrs)),
        entries::as_map(update::removed(cache, addrs)) == entries::as_map(cache).remove_keys(
            addrs.to_set(),
        ),
    decreases addrs.len(),
{
    if addrs.len() == 0 {
        assert(entries::as_map(cache) =~= entries::as_map(cache).remove_keys(addrs.to_set()));
    } else {
        let front = addrs.drop_last();
        lemma_removed(cache, front);
        entries::lemma_swap_removed(update::removed(cache, front), addrs.last());
        assert forall|a: SocketAddr| addrs.to_set().contains(a) <==> front.to_set().contains(a)
            || a == addrs.last() by {
            if addrs.contains(a) {
                let i = choose|i: int| 0 <= i < addrs.len() && addrs[i] == a;
                if i < front.len() {
                    assert(front[i] == a);
                }
            }
            if front.contains(a) {
                let i = choose|i: int| 0 <= i < front.len() && front[i] == a;
                assert(addrs[i] == a);
            }
        }
        assert(entries::as_map(cache).remove_keys(front.to_set()).remove(addrs.last())
            =~= entries::as_map(cache).remove_keys(addrs.to_set()));
    }
}

/// `missing` lists the addresses of the cache that are not in the new set.
pub proof fn lemma_missing<E>(cache: Seq<(SocketAddr, E)>, new: Seq<(SocketAddr, E)>)
    ensures
        forall|a: SocketAddr| #[trigger]
            recover::missing(cache, new).contains(a) <==> entries::has_key(cache, a)
                && !entries::has_key(new, a),
    decreases cache.len(),
{
    if cache.len() > 0 {
        let front = cache.drop_last();
        let last = cache.last().0;
        lemma_missing(front, new);
        let rest = recover::missing(front, new);
        let all = recover::missing(cache, new);
        assert forall|a: SocketAddr| #[trigger] all.contains(a) <==> entries::has_key(cache, a)
            && !entries::has_key(new, a) by {
            assert(entries::has_key(cache, a) <==> entries::has_key(front, a) || a == last) by {
                if entries::has_key(front, a) {
                    let p = entries::position(front, a);
                    assert(cache[p].0 == a);
                }
                if a == last {
                    assert(cache[cache.len() - 1].0 == a);
                }
                if entries::has_key(cache, a) && a != last {
                    let p = entries::position(cache, a);
                    assert(front[p].0 == a);
                }
            }
            if rest.contains(a) {
                let i = choose|i: int| 0 <= i < rest.len() && rest[i] == a;
                assert(all[i] == a);
            }
            if !entries::has_key(new, last) {
                assert(all[all.len() - 1] == last);
            }
            if all.contains(a) {
                let i = choose|i: int| 0 <= i < all.len() && all[i] == a;
                if i < rest.len() {
                    assert(rest[i] == a);
                }
            }
        }
    }
}

/// `without_known` keeps the entries of the new set that the cache does not hold.
pub proof fn lemma_without_known<E>(cache: Seq<(SocketAddr, E)>, new: Seq<(SocketAddr, E)>)
    requires
        entries::distinct(cache),
        entries::distinct(new),
    ensures
        entries::distinct(recover::without_known(cache, new)),
        entries::as_map(recover::without_known(cache, new)) == entries::as_map(new).restrict(
            Set::new(
                |a: SocketAddr|
                    entries::has_key(new, a) && entries::lookup(cache, a) != entries::lookup(
                        new,
                        a,
                    ),
            ),
        ),
    decreases cache.len(),
{
    let changed = Set::new(
        |a: SocketAddr|
            entries::has_key(new, a) && entries::lookup(cache, a) != entries::lookup(new, a),
    );
    if cache.len() == 0 {
        assert(entries::as_map(new) =~= entries::as_map(new).restrict(changed));
    } else {
        let front = cache.drop_last();
        let (last, endpoint) = cache.last();
        lemma_without_known(front, new);
        let rest = recover::without_known(front, new);
        entries::lemma_swap_removed(rest, last);
        entries::lemma_position(cache, cache.len() - 1);
        assert forall|a: SocketAddr| a != last implies entries::lookup(cache, a)
            == entries::lookup(front, a) by {
            if entries::has_key(front, a) {
                let p = entries::position(front, a);
                assert(cache[p].0 == a);
                entries::lemma_position(cache, p);
                entries::lemma_position(front, p);
            }
            if entries::has_key(cache, a) {
                let p = entries::position(cache, a);
                assert(front[p].0 == a);
            }
        }
        assert(!entries::has_key(front, last)) by {
            if entries::has_key(front, last) {
                let p = entries::position(front, last);
                assert(front[p].0 == last);
                assert(cache[p].0 == cache[cache.len() - 1].0);
            }
        }
        assert(entries::as_map(recover::without_known(cache, new)) =~= entries::as_map(
            new,
        ).restrict(changed));
    }
}

/// The cache after the updates of a reconciliation, in the order in which they are
/// advertised.
pub open spec fn after_reconcile(
    cache: Seq<(SocketAddr, u64)>,
    updates: Option<(UpdateView<u64>, Option<UpdateView<u64>>)>,
) -> Seq<(SocketAddr, u64)> {
    match updates {
        None => cache,
        Some((first, None)) => update::applied(cache, first),
        Some((first, Some(second))) => update::applied(update::applied(cache, first), second),
    }
}

/// A consumer that applies the updates that are advertised after a reconnection
/// holds exactly the endpoints of the new replica set.
pub proof fn law_reconcile_reaches_new_set(
    cache: Seq<(SocketAddr, u64)>,
    endpoints: Seq<(SocketAddr, u64)>,
)
    requires
        entries::distinct(cache),
    ensures
        entries::as_map(
            after_reconcile(cache, recover::reconciled(cache, UpdateView::Add(endpoints))),
        ) == entries::as_map(update::added(Seq::empty(), endpoints)),
        entries::distinct(
            after_reconcile(cache, recover::reconciled(cache, UpdateView::Add(endpoints))),
        ),
{
    let new = update::added(Seq::empty(), endpoints);
    let add = recover::without_known(cache, new);
    let rm = recover::missing(cache, new);
    lemma_added_to_empty(endpoints);
    lemma_without_known(cache, new);
    lemma_missing(cache, new);
    lemma_added(cache, add);
    lemma_added_distinct(add);
    lemma_removed(cache, rm);
    lemma_removed(update::added(cache, add), rm);
    let all = after_reconcile(cache, recover::reconciled(cache, UpdateView::Add(endpoints)));
    assert forall|a: SocketAddr| entries::as_map(add).dom().contains(a) <==> (entries::has_key(
        new,
        a,
    ) && entries::lookup(cache, a) != entries::lookup(new, a)) by {
        assert(entries::as_map(new).dom().contains(a) == entries::has_key(new, a));
    }
    assert forall|a: SocketAddr| rm.to_set().contains(a) <==> (entries::has_key(cache, a)
        && !entries::has_key(new, a)) by {
        assert(rm.to_set().contains(a) == rm.contains(a));
    }
    if add.len() == 0 {
        assert(entries::as_map(add) =~= Map::empty());
        assert forall|a: SocketAddr| !entries::as_map(add).dom().contains(a) by {}
    }
    if rm.len() == 0 {
        assert forall|a: SocketAddr| !rm.to_set().contains(a) by {}
    }
    assert(entries::as_map(all) =~= entries::as_map(new));
}

/// Where both an addition and a removal are advertised, the addition comes first
/// and the consumer holds endpoints in between.
pub proof fn law_adds_come_before_removes(
    cache: Seq<(SocketAddr, u64)>,
    initial: UpdateView<u64>,
    first: UpdateView<u64>,
    second: UpdateView<u64>,
)
    requires
        entries::distinct(cache),
        recover::reconciled(cache, initial) == Some((first, Some(second))),
    ensures
        first is Add,
        second is Remove,
        update::applied(cache, first).len() > 0,
{
    let endpoints = initial->Add_0;
    let new = update::added(Seq::empty(), endpoints);
    let add = recover::without_known(cache, new);
    assert(first == UpdateView::Add(add));
    lemma_added(cache, add.drop_last());
    entries::lemma_inserted(update::added(cache, add.drop_last()), add.last().0, add.last().1);
}

/// An endpoint that the cache holds already is neither advertised again nor
/// removed.
pub proof fn law_known_endpoints_are_left_alone(
    cache: Seq<(SocketAddr, u64)>,
    endpoints: Seq<(SocketAddr, u64)>,
    addr: SocketAddr,
)
    requires
        entries::distinct(cache),
        entries::has_key(cache, addr),
        entries::lookup(cache, addr) == entries::lookup(
            update::added(Seq::empty(), endpoints),
            addr,
        ),
    ensures
        !entries::has_key(
            recover::without_known(cache, update::added(Seq::empty(), endpoints)),
            addr,
        ),
        !recover::missing(cache, update::added(Seq::empty(), endpoints)).contains(addr),
{
    let new = update::added(Seq::empty(), endpoints);
    lemma_added_to_empty(endpoints);
    lemma_without_known(cache, new);
    lemma_missing(cache, new);
    assert(entries::as_map(recover::without_known(cache, new)).dom().contains(addr)
        == entries::has_key(recover::without_known(cache, new), addr));
}

/// When the new replica set is what the cache holds, nothing is advertised.
pub proof fn law_nothing_new_is_silent(
    cache: Seq<(SocketAddr, u64)>,
    endpoints: Seq<(SocketAddr, u64)>,
)
    requires
        entries::distinct(cache),
        entries::as_map(cache) == entries::as_map(update::added(Seq::empty(), endpoints)),
    ensures
        recover::reconciled(cache, UpdateView::Add(endpoints)) is None,
{
    let new = update::added(Seq::empty(), endpoints);
    let add = recover::without_known(cache, new);
    let rm = recover::missing(cache, new);
    lemma_added_to_empty(endpoints);
    lemma_without_known(cache, new);
    lemma_missing(cache, new);
    assert forall|a: SocketAddr| entries::has_key(cache, a) == entries::has_key(new, a)
        && entries::lookup(cache, a) == entries::lookup(new, a) by {
        assert(entries::as_map(cache).dom().contains(a) == entries::has_key(cache, a));
        assert(entries::as_map(new).dom().contains(a) == entries::has_key(new, a));
        if entries::has_key(cache, a) {
            assert(entries::as_map(cache)[a] == entries::as_map(new)[a]);
        }
    }
    if add.len() > 0 {
        assert(add[0].0 == add[0].0);
        assert(entries::has_key(add, add[0].0));
        assert(entries::as_map(add).dom().contains(add[0].0));
    }
    if rm.len() > 0 {
        assert(rm.contains(rm[0]));
    }
}

/// Initially, when nothing was advertised, endpoints at different addresses are passed
/// through.
pub proof fn law_adds_pass_initially(endpoints: Seq<(SocketAddr, u64)>)
    requires
        entries::distinct(endpoints),
        endpoints.len() > 0,
    ensures
        recover::reconciled(Seq::empty(), UpdateView::Add(endpoints)) == Some(
            (UpdateView::Add(endpoints), None::<UpdateView<u64>>),
        ),
{
    lemma_added_distinct(endpoints);
}

/// After a connection a removal is treated as if there were no endpoints. That there are none,
/// or that the target does not exist, is passed through. A consumer then holds nothing.
pub proof fn law_other_updates_empty_the_consumer(
    cache: Seq<(SocketAddr, u64)>,
    initial: UpdateView<u64>,
)
    requires
        !(initial is Add),
    ensures
        recover::reconciled(cache, initial) == Some(
            (
                if initial is DoesNotExist {
                    UpdateView::<u64>::DoesNotExist
                } else {
                    UpdateView::Empty
                },
                None::<UpdateView<u64>>,
            ),
        ),
        after_reconcile(cache, recover::reconciled(cache, initial)) == Seq::<
            (SocketAddr, u64),
        >::empty(),
{
}

/// What a consumer holds that applied all of `updates`.
pub open spec fn consumed(updates: Seq<UpdateView<u64>>) -> Seq<(SocketAddr, u64)>
    decreases updates.len(),
{
    if updates.len() == 0 {
        Seq::empty()
    } else {
        update::applied(consumed(updates.drop_last()), updates.last())
    }
}

/// The cache is what a consumer holds: if it starts empty, and each update that is returned is
/// applied to it and nothing else changes it, it holds what the consumer holds.
pub proof fn law_cache_is_what_was_advertised(
    updates: Seq<UpdateView<u64>>,
    caches: Seq<Seq<(SocketAddr, u64)>>,
)
    requires
        caches.len() == updates.len() + 1,
        caches[0] == Seq::<(SocketAddr, u64)>::empty(),
        forall|i: int|
            0 <= i < updates.len() ==> #[trigger] caches[i + 1] == update::applied(
                caches[i],
                updates[i],
            ),
    ensures
        caches.last() == consumed(updates),
        entries::distinct(caches.last()),
    decreases updates.len(),
{
    if updates.len() > 0 {
        let front = updates.drop_last();
        let shorter = caches.drop_last();
        assert forall|i: int| 0 <= i < front.len() implies #[trigger] shorter[i + 1]
            == update::applied(shorter[i], front[i]) by {
            assert(caches[i + 1] == update::applied(caches[i], updates[i]));
        }
        law_cache_is_what_was_advertised(front, shorter);
        let last = updates.len() - 1;
        assert(caches[last + 1] == update::applied(caches[last], updates[last]));
        match updates.last() {
            UpdateView::Add(endpoints) => lemma_added(shorter.last(), endpoints),
            UpdateView::Remove(addrs) => lemma_removed(shorter.last(), addrs),
            _ => {},
        }
    }
}

} // verus!
