//! What a resolution advertises and caches as it is polled.

use crate::index_map::addrs::{self, AddrMap};
use crate::index_map::entries;
use crate::net::SocketAddr;
use crate::poll::Poll;
use crate::resolve::inner::{Connected, Inner, State};
use crate::resolve::laws;
use crate::resolve::recover;
use crate::resolve::resolution::{Next, Resolution, Resolve, ResolveFuture};
use crate::resolve::update::{self, Update, UpdateView};
use vstd::prelude::*;

verus! {

/// Whether the endpoint at `i` is the last of `endpoints` at its address.
pub open spec fn last_at(endpoints: Seq<(SocketAddr, u64)>, i: int) -> bool {
    &&& 0 <= i < endpoints.len()
    &&& forall|j: int| i < j < endpoints.len() ==> #[trigger] endpoints[j].0 != endpoints[i].0
}

/// Whether `set` is the replica set that `endpoints` name. The last endpoint at an address
/// counts.
pub open spec fn names(endpoints: Seq<(SocketAddr, u64)>, set: Map<SocketAddr, u64>) -> bool {
    &&& forall|a: SocketAddr| #[trigger]
        set.dom().contains(a) <==> entries::has_key(endpoints, a)
    &&& forall|i: int| #[trigger] last_at(endpoints, i) ==> set[endpoints[i].0] == endpoints[i].1
}

/// Whether `after` is what `before` is after `update`, address by address.
pub open spec fn reflects(
    before: Seq<(SocketAddr, u64)>,
    update: UpdateView<u64>,
    after: Seq<(SocketAddr, u64)>,
) -> bool {
    match update {
        UpdateView::Add(endpoints) => {
            &&& forall|i: int| #[trigger]
                last_at(endpoints, i) ==> entries::lookup(after, endpoints[i].0) == Some(
                    endpoints[i].1,
                )
            &&& forall|a: SocketAddr|
                !entries::has_key(endpoints, a) ==> #[trigger] entries::lookup(after, a)
                    == entries::lookup(before, a)
        },
        UpdateView::Remove(gone) => forall|a: SocketAddr| #[trigger]
            entries::lookup(after, a) == if gone.contains(a) {
                None
            } else {
                entries::lookup(before, a)
            },
        UpdateView::DoesNotExist | UpdateView::Empty => after.len() == 0,
    }
}

/// Whether `updates` are what is advertised to a consumer that holds `held`, so that it holds
/// `set`: the endpoints that it does not hold yet, each once, then the addresses that are gone,
/// each once and in the order in which it holds them, and no update where there is nothing to
/// say.
pub open spec fn advertises(
    held: Seq<(SocketAddr, u64)>,
    set: Map<SocketAddr, u64>,
    updates: Option<(UpdateView<u64>, Option<UpdateView<u64>>)>,
) -> bool {
    let added = match updates {
        Some((UpdateView::Add(added), _)) => added,
        _ => Seq::empty(),
    };
    let gone = match updates {
        Some((UpdateView::Remove(gone), None)) => gone,
        Some((_, Some(UpdateView::Remove(gone)))) => gone,
        _ => Seq::empty(),
    };
    &&& entries::distinct(added)
    &&& gone.no_duplicates()
    &&& forall|a: SocketAddr, e: u64| #[trigger]
        added.contains((a, e)) <==> set.dom().contains(a) && set[a] == e && entries::lookup(held, a)
            != Some(e)
    &&& forall|a: SocketAddr| #[trigger]
        gone.contains(a) <==> entries::has_key(held, a) && !set.dom().contains(a)
    &&& gone == held.filter(
        |entry: (SocketAddr, u64)| !set.dom().contains(entry.0),
    ).map_values(|entry: (SocketAddr, u64)| entry.0)
    &&& match updates {
        None => true,
        Some((UpdateView::Add(added), None)) => added.len() > 0,
        Some((UpdateView::Add(added), Some(UpdateView::Remove(gone)))) => added.len() > 0
            && gone.len() > 0,
        Some((UpdateView::Remove(gone), None)) => gone.len() > 0,
        _ => false,
    }
}

proof fn lemma_added_reflects(cache: Seq<(SocketAddr, u64)>, endpoints: Seq<(SocketAddr, u64)>)
    requires
        entries::distinct(cache),
    ensures
        reflects(cache, UpdateView::Add(endpoints), update::added(cache, endpoints)),
        entries::distinct(update::added(cache, endpoints)),
        forall|a: SocketAddr| #[trigger]
            entries::has_key(update::added(cache, endpoints), a) <==> entries::has_key(cache, a)
                || entries::has_key(endpoints, a),
    decreases endpoints.len(),
{
    laws::lemma_added(cache, endpoints);
    if endpoints.len() > 0 {
        let front = endpoints.drop_last();
        let last = endpoints.last();
        let before = update::added(cache, front);
        let after = update::added(cache, endpoints);
        lemma_added_reflects(cache, front);
        entries::lemma_inserted(before, last.0, last.1);
        assert(endpoints[endpoints.len() - 1] == last);
        assert forall|a: SocketAddr| #[trigger]
            entries::lookup(after, a) == (if a == last.0 {
                Some(last.1)
            } else {
                entries::lookup(before, a)
            }) by {
            assert(entries::as_map(after).dom().contains(a) == entries::has_key(after, a));
            assert(entries::as_map(before).dom().contains(a) == entries::has_key(before, a));
            assert(entries::as_map(after)[a] == entries::as_map(before).insert(last.0, last.1)[a]);
        }
        assert forall|a: SocketAddr| #[trigger]
            entries::has_key(endpoints, a) <==> entries::has_key(front, a) || a == last.0 by {
            if entries::has_key(front, a) {
                let p = entries::position(front, a);
                assert(endpoints[p].0 == a);
            }
            if entries::has_key(endpoints, a) && a != last.0 {
                let p = entries::position(endpoints, a);
                assert(front[p].0 == a);
            }
        }
        assert forall|i: int| #[trigger] last_at(endpoints, i) implies entries::lookup(
            after,
            endpoints[i].0,
        ) == Some(endpoints[i].1) by {
            if i < front.len() {
                assert(endpoints[endpoints.len() - 1].0 != endpoints[i].0);
                assert forall|j: int| i < j < front.len() implies #[trigger] front[j].0
                    != front[i].0 by {
                    assert(endpoints[j].0 != endpoints[i].0);
                }
                assert(last_at(front, i));
            }
        }
        assert forall|a: SocketAddr| #[trigger]
            entries::has_key(after, a) <==> entries::has_key(cache, a) || entries::has_key(
                endpoints,
                a,
            ) by {
            assert(entries::as_map(after).dom().contains(a) == entries::has_key(after, a));
            assert(entries::as_map(before).dom().contains(a) == entries::has_key(before, a));
        }
    }
}

proof fn lemma_applied_reflects(cache: Seq<(SocketAddr, u64)>, update: UpdateView<u64>)
    requires
        entries::distinct(cache),
    ensures
        reflects(cache, update, update::applied(cache, update)),
        entries::distinct(update::applied(cache, update)),
{
    match update {
        UpdateView::Add(endpoints) => lemma_added_reflects(cache, endpoints),
        UpdateView::Remove(gone) => {
            laws::lemma_removed(cache, gone);
            let after = update::removed(cache, gone);
            assert forall|a: SocketAddr| #[trigger]
                entries::lookup(after, a) == (if gone.contains(a) {
                    None
                } else {
                    entries::lookup(cache, a)
                }) by {
                assert(entries::as_map(after).dom().contains(a) == entries::has_key(after, a));
                assert(entries::as_map(cache).dom().contains(a) == entries::has_key(cache, a));
                assert(gone.to_set().contains(a) == gone.contains(a));
                assert(entries::as_map(cache).remove_keys(gone.to_set()).dom().contains(a)
                    == entries::has_key(after, a));
                if entries::has_key(after, a) {
                    assert(entries::as_map(after)[a] == entries::as_map(cache)[a]);
                }
            }
        },
        _ => {},
    }
}

proof fn lemma_missing_once(cache: Seq<(SocketAddr, u64)>, new: Seq<(SocketAddr, u64)>)
    requires
        entries::distinct(cache),
    ensures
        recover::missing(cache, new).no_duplicates(),
    decreases cache.len(),
{
    if cache.len() > 0 {
        let front = cache.drop_last();
        lemma_missing_once(front, new);
        laws::lemma_missing(front, new);
        let rest = recover::missing(front, new);
        if rest.contains(cache.last().0) {
            let p = entries::position(front, cache.last().0);
            assert(cache[p].0 == cache[cache.len() - 1].0);
        }
    }
}

proof fn lemma_missing_in_order(
    cache: Seq<(SocketAddr, u64)>,
    new: Seq<(SocketAddr, u64)>,
    set: Map<SocketAddr, u64>,
)
    requires
        forall|a: SocketAddr| #[trigger] set.dom().contains(a) <==> entries::has_key(new, a),
    ensures
        recover::missing(cache, new) == cache.filter(
            |entry: (SocketAddr, u64)| !set.dom().contains(entry.0),
        ).map_values(|entry: (SocketAddr, u64)| entry.0),
    decreases cache.len(),
{
    reveal(Seq::filter);
    let gone = |entry: (SocketAddr, u64)| !set.dom().contains(entry.0);
    let addr = |entry: (SocketAddr, u64)| entry.0;
    if cache.len() == 0 {
        assert(cache.filter(gone).map_values(addr) =~= recover::missing(cache, new));
    } else {
        let front = cache.drop_last();
        let last = cache.last();
        lemma_missing_in_order(front, new, set);
        assert(set.dom().contains(last.0) <==> entries::has_key(new, last.0));
        if gone(last) {
            assert(front.filter(gone).push(last).map_values(addr) =~= front.filter(
                gone,
            ).map_values(addr).push(last.0));
        }
    }
}

proof fn lemma_reconciled(
    held: Seq<(SocketAddr, u64)>,
    endpoints: Seq<(SocketAddr, u64)>,
    set: Map<SocketAddr, u64>,
)
    requires
        entries::distinct(held),
        names(endpoints, set),
    ensures
        advertises(held, set, recover::reconciled(held, UpdateView::Add(endpoints))),
{
    let new = update::added(Seq::empty(), endpoints);
    let none = Seq::<(SocketAddr, u64)>::empty();
    lemma_added_reflects(none, endpoints);
    let added = recover::without_known(held, new);
    let gone = recover::missing(held, new);
    laws::lemma_without_known(held, new);
    laws::lemma_missing(held, new);
    lemma_missing_once(held, new);
    assert forall|a: SocketAddr| #[trigger]
        set.dom().contains(a) <==> entries::has_key(new, a) by {
        assert(entries::has_key(new, a) <==> entries::has_key(none, a) || entries::has_key(
            endpoints,
            a,
        ));
    }
    assert forall|a: SocketAddr| set.dom().contains(a) implies #[trigger] entries::lookup(new, a)
        == Some(set[a]) by {
        lemma_last_exists(endpoints, a);
        let i = choose|i: int| last_at(endpoints, i) && endpoints[i].0 == a;
        assert(last_at(endpoints, i));
    }
    assert forall|a: SocketAddr, e: u64| #[trigger]
        added.contains((a, e)) <==> set.dom().contains(a) && set[a] == e && entries::lookup(held, a)
            != Some(e) by {
        assert(entries::as_map(added).dom().contains(a) == entries::has_key(added, a));
        assert(entries::as_map(new).dom().contains(a) == entries::has_key(new, a));
        if added.contains((a, e)) {
            let k = choose|k: int| 0 <= k < added.len() && added[k] == (a, e);
            assert(added[k].0 == a);
            entries::lemma_position(added, k);
            assert(entries::as_map(added)[a] == e);
            assert(entries::as_map(new)[a] == e);
        }
        if set.dom().contains(a) && set[a] == e && entries::lookup(held, a) != Some(e) {
            assert(entries::lookup(new, a) == Some(e));
            assert(entries::has_key(added, a));
            let k = entries::position(added, a);
            assert(added[k].0 == a);
            assert(entries::as_map(added)[a] == entries::as_map(new)[a]);
            assert(added[k] == (a, e));
        }
    }
    lemma_missing_in_order(held, new, set);
    assert(Seq::<SocketAddr>::empty().no_duplicates());
    if added.len() == 0 {
        assert(added =~= Seq::empty());
    }
    if gone.len() == 0 {
        assert(gone =~= Seq::empty());
    }
}

proof fn lemma_last_exists(endpoints: Seq<(SocketAddr, u64)>, a: SocketAddr)
    requires
        entries::has_key(endpoints, a),
    ensures
        exists|i: int| last_at(endpoints, i) && #[trigger] endpoints[i].0 == a,
    decreases endpoints.len(),
{
    let last = endpoints.len() - 1;
    if endpoints[last].0 == a {
        assert(last_at(endpoints, last));
    } else {
        let front = endpoints.drop_last();
        let p = entries::position(endpoints, a);
        assert(endpoints[p].0 == a);
        assert(front[p].0 == a);
        lemma_last_exists(front, a);
        let i = choose|i: int| last_at(front, i) && #[trigger] front[i].0 == a;
        assert forall|j: int| i < j < endpoints.len() implies #[trigger] endpoints[j].0
            != endpoints[i].0 by {
            if j < front.len() {
                assert(front[j].0 != front[i].0);
            }
        }
        assert(last_at(endpoints, i));
        assert(endpoints[i].0 == a);
    }
}

/// An update changes the cache at the addresses that it is about, and nowhere else: an endpoint
/// that is added is held at its address, an address that is removed is not held, and nothing is
/// held if there are no endpoints.
pub proof fn law_cache_reflects_updates(before: AddrMap, update: Update<u64>, after: AddrMap)
    requires
        entries::distinct(addrs::addr_entries(before)),
        exists|cache: &mut AddrMap|
            *cache == before && *final(cache) == after && #[trigger] call_ensures(
                update::update_active,
                (cache, &update),
                (),
            ),
    ensures
        reflects(addrs::addr_entries(before), update@, addrs::addr_entries(after)),
        entries::distinct(addrs::addr_entries(after)),
{
    lemma_applied_reflects(addrs::addr_entries(before), update@);
}

/// After a connection that starts with a replica set, exactly the endpoints that were not
/// advertised before are advertised, and then exactly the addresses that are gone.
pub proof fn law_reconciliation_advertises_what_is_new(
    cache: AddrMap,
    endpoints: Vec<(SocketAddr, u64)>,
    set: Map<SocketAddr, u64>,
    updates: Option<(Update<u64>, Option<Update<u64>>)>,
)
    requires
        entries::distinct(addrs::addr_entries(cache)),
        names(endpoints@, set),
        call_ensures(
            recover::reconcile_after_connect,
            (&cache, Update::Add(endpoints)),
            updates,
        ),
    ensures
        advertises(addrs::addr_entries(cache), set, recover::pair_view(updates)),
{
    lemma_reconciled(addrs::addr_entries(cache), endpoints@, set);
}

/// After a connection that starts otherwise, the consumer is told that there are no endpoints,
/// or that the target does not exist if that was said.
pub proof fn law_reconciliation_empties_otherwise(
    cache: AddrMap,
    initial: Update<u64>,
    updates: Option<(Update<u64>, Option<Update<u64>>)>,
)
    requires
        initial !is Add,
        call_ensures(recover::reconcile_after_connect, (&cache, initial), updates),
    ensures
        updates matches Some((first, second)) && second is None && if initial is DoesNotExist {
            first is DoesNotExist
        } else {
            first is Empty
        },
{
}

/// Whether `after` is `before` but for its state.
pub open spec fn kept<T, V, E, F, R, B, X>(
    before: Inner<T, V, E, F, R, B, X>,
    after: Inner<T, V, E, F, R, B, X>,
) -> bool {
    &&& after.target == before.target
    &&& after.resolve == before.resolve
    &&& after.recover == before.recover
}

/// The update that a poll returns, if it returns one.
pub open spec fn returned<X>(next: Next<X>) -> Option<UpdateView<u64>> {
    match next {
        Next::Return(Poll::Ready(Ok(update))) => Some(update@),
        _ => None,
    }
}

/// Whatever is returned is what the cache changes by: a consumer that applies each update that
/// it is given holds what is cached.
pub proof fn law_returned_updates_are_cached<T, V, E, F, R, B, X>(
    before: Resolution<T, V, E, F, R, B, X>,
    after: Resolution<T, V, E, F, R, B, X>,
    polled: Poll<Result<Update<u64>, X>>,
    next: Next<X>,
)
    requires
        entries::distinct(before.entries()),
        (exists|r: &mut Resolution<T, V, E, F, R, B, X>|
            *r == before && *final(r) == after && #[trigger] call_ensures(
                Resolution::<T, V, E, F, R, B, X>::poll,
                (r,),
                next,
            )) || (exists|r: &mut Resolution<T, V, E, F, R, B, X>|
            *r == before && *final(r) == after && #[trigger] call_ensures(
                Resolution::<T, V, E, F, R, B, X>::on_update,
                (r, polled),
                next,
            )),
    ensures
        match returned(next) {
            Some(update) => reflects(before.entries(), update, after.entries()),
            None => after.entries() == before.entries(),
        },
        entries::distinct(after.entries()),
        kept(before.inner, after.inner),
{
    match returned(next) {
        Some(update) => lemma_applied_reflects(before.entries(), update),
        None => {},
    }
}

/// An update that is buffered is returned first, and then none is buffered. A resolution that
/// is not connected is connected before its stream is polled.
pub proof fn law_polling_order<T, V, E, F, R, B, X>(
    before: Resolution<T, V, E, F, R, B, X>,
    after: Resolution<T, V, E, F, R, B, X>,
    next: Next<X>,
)
    requires
        exists|r: &mut Resolution<T, V, E, F, R, B, X>|
            *r == before && *final(r) == after && #[trigger] call_ensures(
                Resolution::<T, V, E, F, R, B, X>::poll,
                (r,),
                next,
            ),
    ensures
        before.reconcile matches Some(buffered) ==> {
            &&& next == Next::Return(Poll::Ready(Ok::<Update<u64>, X>(buffered)))
            &&& after.reconcile is None
            &&& after.inner.state == before.inner.state
        },
        next is PollConnected <==> before.reconcile is None && !(before.inner.state
            matches State::Connected { inner: Connected::Connected { .. }, .. }),
        next is PollConnected ==> after.inner.state == before.inner.state && after.reconcile
            is None,
        // Without a first update to process the stream is polled.
        before.reconcile is None && (before.inner.state matches State::Connected {
            inner: Connected::Connected { initial },
            ..
        } && initial is None) ==> next is PollResolution && after.reconcile is None
            && after.inner.state == before.inner.state,
        // The stream of the connection is kept.
        before.inner.state matches State::Connected { resolution, .. } ==> (after.inner.state
            matches State::Connected { resolution: kept, .. } && kept == resolution),
        next !is Again,
        next matches Next::Return(polled) ==> polled matches Poll::Ready(Ok(_)),
{
}

/// The first update of a connection is processed once. What is returned and what is buffered
/// lead from what was advertised to the new replica set, and the stream is polled if there is
/// nothing to say.
pub proof fn law_first_update_is_reconciled<T, V, E, F, R, B, X>(
    before: Resolution<T, V, E, F, R, B, X>,
    after: Resolution<T, V, E, F, R, B, X>,
    next: Next<X>,
    initial: Update<u64>,
    set: Map<SocketAddr, u64>,
)
    requires
        entries::distinct(before.entries()),
        before.reconcile is None,
        before.inner.state matches State::Connected {
            inner: Connected::Connected { initial: held },
            ..
        } && held == Some(initial),
        initial matches Update::Add(endpoints) ==> names(endpoints@, set),
        exists|r: &mut Resolution<T, V, E, F, R, B, X>|
            *r == before && *final(r) == after && #[trigger] call_ensures(
                Resolution::<T, V, E, F, R, B, X>::poll,
                (r,),
                next,
            ),
    ensures
        after.inner.state matches State::Connected {
            inner: Connected::Connected { initial: left },
            ..
        } && left is None,
        ({
            let second = match after.reconcile {
                Some(update) => Some(update@),
                None => None,
            };
            let updates = match returned(next) {
                Some(first) => Some((first, second)),
                None => None,
            };
            &&& initial is Add ==> advertises(before.entries(), set, updates)
            &&& initial is DoesNotExist ==> updates == Some(
                (UpdateView::<u64>::DoesNotExist, None::<UpdateView<u64>>),
            )
            &&& initial is Remove || initial is Empty ==> updates == Some(
                (UpdateView::<u64>::Empty, None::<UpdateView<u64>>),
            )
            &&& updates is None ==> next is PollResolution && after.reconcile is None
        }),
{
    if let Update::Add(endpoints) = initial {
        lemma_reconciled(before.entries(), endpoints@, set);
    }
}

/// An update of the stream is passed on as it is. A failure of the stream is recovered from with
/// a backoff of its own: the connection asks the policy about it next.
pub proof fn law_stream_is_passed_on<T, V, E, F, R, B, X>(
    before: Resolution<T, V, E, F, R, B, X>,
    after: Resolution<T, V, E, F, R, B, X>,
    polled: Poll<Result<Update<u64>, X>>,
    next: Next<X>,
)
    requires
        before.inner.state matches State::Connected { inner: Connected::Connected { .. }, .. },
        exists|r: &mut Resolution<T, V, E, F, R, B, X>|
            *r == before && *final(r) == after && #[trigger] call_ensures(
                Resolution::<T, V, E, F, R, B, X>::on_update,
                (r, polled),
                next,
            ),
    ensures
        after.reconcile == before.reconcile,
        polled !is Ready <==> next == Next::<X>::Return(Poll::Pending),
        polled matches Poll::Ready(Ok(update)) ==> next == Next::Return(
            Poll::Ready(Ok::<Update<u64>, X>(update)),
        ),
        !(polled matches Poll::Ready(Err(_))) ==> after.inner.state == before.inner.state,
        polled matches Poll::Ready(Err(failure)) ==> {
            &&& next is PollConnected
            &&& after.inner.state matches State::Recover { error, backoff }
            &&& error == Some(failure)
            &&& backoff is None
        },
{
}

/// A poll starts over once the resolution is connected. Until then it waits, and it fails if
/// the connection does.
pub proof fn law_poll_starts_over_when_connected<T, V, E, F, R, B, X>(
    polled: Poll<Result<(), X>>,
    next: Next<X>,
)
    requires
        call_ensures(Resolution::<T, V, E, F, R, B, X>::on_connected, (polled,), next),
    ensures
        next is Again <==> polled matches Poll::Ready(Ok(_)),
        next == Next::<X>::Return(Poll::Pending) <==> polled is Pending,
        polled matches Poll::Ready(Err(error)) ==> next == Next::Return(
            Poll::Ready(Err::<Update<u64>, X>(error)),
        ),
{
}

/// A resolution starts with a request, without a backoff. It is handed out when it is connected
/// and not before, with nothing advertised.
pub proof fn law_resolution_starts_empty<T, V, E, F, R, B, X>(
    target: T,
    resolve: V,
    recover: E,
    request: F,
    started: ResolveFuture<T, V, E, F, R, B, X>,
    before: ResolveFuture<T, V, E, F, R, B, X>,
    after: ResolveFuture<T, V, E, F, R, B, X>,
    connected: Poll<Result<(), X>>,
    polled: Poll<Result<Resolution<T, V, E, F, R, B, X>, X>>,
)
    requires
        call_ensures(
            Resolve::<E, V>::call::<T, F, R, B, X>,
            (target, resolve, recover, request),
            started,
        ),
        before.inner is Some,
        exists|f: &mut ResolveFuture<T, V, E, F, R, B, X>|
            *f == before && *final(f) == after && #[trigger] call_ensures(
                ResolveFuture::<T, V, E, F, R, B, X>::poll,
                (f, connected),
                polled,
            ),
    ensures
        started.inner matches Some(inner) && inner.target == target && inner.resolve == resolve
            && inner.recover == recover && (inner.state matches State::Connecting {
            future,
            backoff,
        } && future == request && backoff is None),
        polled is Pending <==> connected is Pending,
        polled matches Poll::Ready(Ok(resolution)) ==> connected is Ready && resolution.inner
            == before.inner->0 && resolution.entries().len() == 0 && resolution.reconcile is None,
        polled matches Poll::Ready(Err(error)) ==> connected == Poll::Ready(Err::<(), X>(error)),
        connected matches Poll::Ready(Ok(_)) ==> polled matches Poll::Ready(Ok(_)),
        !(connected matches Poll::Ready(Ok(_))) ==> after == before,
{
}

/// Endpoints are added to a cache as an update adds them. A resolver keeps what it is made of.
pub proof fn law_endpoints_are_cached<E, V>(
    before: AddrMap,
    endpoints: Vec<(SocketAddr, u64)>,
    after: AddrMap,
    recover: E,
    resolve: V,
    made: Resolve<E, V>,
)
    requires
        entries::distinct(addrs::addr_entries(before)),
        exists|cache: &mut AddrMap|
            *cache == before && *final(cache) == after && #[trigger] call_ensures(
                update::extend,
                (cache, &endpoints),
                (),
            ),
        call_ensures(Resolve::<E, V>::new, (recover, resolve), made),
    ensures
        reflects(
            addrs::addr_entries(before),
            UpdateView::Add(endpoints@),
            addrs::addr_entries(after),
        ),
        made.resolve == resolve,
        made.recover == recover,
{
    lemma_added_reflects(addrs::addr_entries(before), endpoints@);
}

} // verus!
