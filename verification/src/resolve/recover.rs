//! A middleware that recovers a resolution after some failures.

use crate::index_map::addrs;
use crate::index_map::addrs::AddrMap;
use crate::index_map::entries;
use crate::net::SocketAddr;
use crate::resolve::laws;
use crate::resolve::update;
use crate::resolve::update::Update;
use crate::resolve::update::UpdateView;
use vstd::prelude::*;

verus! {

/// The addresses in `cache` that `new` does not hold.
pub open spec fn missing<E>(cache: Seq<(SocketAddr, E)>, new: Seq<(SocketAddr, E)>) -> Seq<
    SocketAddr,
>
    decreases cache.len(),
{
    if cache.len() == 0 {
        Seq::empty()
    } else {
        let rest = missing(cache.drop_last(), new);
        if entries::has_key(new, cache.last().0) {
            rest
        } else {
            rest.push(cache.last().0)
        }
    }
}

/// What is left of `new` when each entry that `cache` holds too is removed in turn.
pub open spec fn without_known<E>(cache: Seq<(SocketAddr, E)>, new: Seq<(SocketAddr, E)>) -> Seq<
    (SocketAddr, E),
>
    decreases cache.len(),
{
    if cache.len() == 0 {
        new
    } else {
        let rest = without_known(cache.drop_last(), new);
        let (addr, endpoint) = cache.last();
        if entries::lookup(new, addr) == Some(endpoint) {
            entries::swap_removed(rest, addr)
        } else {
            rest
        }
    }
}

/// The updates to advertise when `initial` comes first after a connection is
/// established and `cache` is what was advertised before.
pub open spec fn reconciled(cache: Seq<(SocketAddr, u64)>, initial: UpdateView<u64>) -> Option<
    (UpdateView<u64>, Option<UpdateView<u64>>),
> {
    match initial {
        UpdateView::Add(endpoints) => {
            let new = update::added(Seq::empty(), endpoints);
            let add = without_known(cache, new);
            let rm = missing(cache, new);
            let remove = if rm.len() == 0 {
                None
            } else {
                Some(UpdateView::Remove(rm))
            };
            if add.len() > 0 {
                Some((UpdateView::Add(add), remove))
            } else {
                match remove {
                    Some(remove) => Some((remove, None)),
                    None => None,
                }
            }
        },
        UpdateView::Remove(_) | UpdateView::Empty => Some((UpdateView::Empty, None)),
        UpdateView::DoesNotExist => Some((UpdateView::DoesNotExist, None)),
    }
}

/// The content of a pair of updates.
pub open spec fn pair_view<E>(pair: Option<(Update<E>, Option<Update<E>>)>) -> Option<
    (UpdateView<E>, Option<UpdateView<E>>),
> {
    match pair {
        Some((first, Some(second))) => Some((first@, Some(second@))),
        Some((first, None)) => Some((first@, None)),
        None => None,
    }
}

/// Removing the entries that the first of `cache` share with `new` leaves the
/// others as they were.
proof fn lemma_without_known<E>(
    cache: Seq<(SocketAddr, E)>,
    new: Seq<(SocketAddr, E)>,
    addr: SocketAddr,
)
    requires
        entries::distinct(new),
        !entries::has_key(cache, addr),
    ensures
        entries::distinct(without_known(cache, new)),
        entries::lookup(without_known(cache, new), addr) == entries::lookup(new, addr),
    decreases cache.len(),
{
    if cache.len() > 0 {
        let front = cache.drop_last();
        assert forall|k: SocketAddr| entries::has_key(front, k) implies entries::has_key(
            cache,
            k,
        ) by {
            let p = entries::position(front, k);
            assert(cache[p].0 == k);
        }
        lemma_without_known(front, new, addr);
        let rest = without_known(front, new);
        assert(cache[cache.len() - 1].0 != addr);
        entries::lemma_swap_removed(rest, cache.last().0);
        assert(entries::as_map(rest).dom().contains(addr) == entries::has_key(rest, addr));
        let after = without_known(cache, new);
        assert(entries::as_map(after).dom().contains(addr) == entries::has_key(after, addr));
        if entries::has_key(rest, addr) {
            assert(entries::as_map(after)[addr] == entries::as_map(rest)[addr]);
        }
    }
}

/// Computes the updates needed after a connection is (re-)established.
pub fn reconcile_after_connect(cache: &AddrMap, initial: Update<u64>) -> (updates: Option<
    (Update<u64>, Option<Update<u64>>),
>)
    ensures
        pair_view(updates) == reconciled(addrs::addr_entries(*cache), initial@),
{
    match initial {
        Update::Add(endpoints) => {
            let mut new_eps = addrs::new_addr_map();
            update::extend(&mut new_eps, &endpoints);
            let ghost new = update::added(Seq::empty(), endpoints@);
            let known = addrs::list_addrs(cache);
            proof {
                laws::lemma_added_to_empty(endpoints@);
            }
            let mut rm_addrs: Vec<SocketAddr> = Vec::with_capacity(known.len());
            let mut i: usize = 0;
            while i < known.len()
                invariant
                    i <= known.len(),
                    entries::distinct(known@),
                    entries::distinct(new),
                    rm_addrs@ == missing(known@.take(i as int), new),
                    addrs::addr_entries(new_eps) == without_known(known@.take(i as int), new),
                decreases known.len() - i,
            {
                let (addr, endpoint) = known[i];
                let ghost seen = known@.take(i as int);
                proof {
                    assert(known@.take(i + 1).drop_last() == seen);
                    assert forall|k: int| 0 <= k < seen.len() implies seen[k].0 != addr by {
                        assert(known@[k].0 != known@[i as int].0);
                    }
                    assert(!entries::has_key(seen, addr));
                    lemma_without_known(seen, new, addr);
                }
                match addrs::get_addr(&new_eps, &addr) {
                    None => {
                        rm_addrs.push(addr);
                    },
                    Some(ep) => {
                        // The endpoint is already active: leave it out of the new
                        // set so that no service is rebuilt unnecessarily.
                        if ep == endpoint {
                            addrs::remove_addr(&mut new_eps, &addr);
                        }
                    },
                }
                i += 1;
            }
            assert(known@.take(i as int) == known@);
            let new_list = addrs::list_addrs(&new_eps);
            let rm = if rm_addrs.len() == 0 {
                None
            } else {
                Some(Update::Remove(rm_addrs))
            };
            // Adds are advertised before removes so that a consumer is not emptied
            // out unnecessarily.
            if new_list.len() > 0 {
                Some((Update::Add(new_list), rm))
            } else {
                match rm {
                    Some(rm) => Some((rm, None)),
                    None => None,
                }
            }
        },
        Update::Remove(_) | Update::Empty => Some((Update::Empty, None)),
        Update::DoesNotExist => Some((Update::DoesNotExist, None)),
    }
}

} // verus!
