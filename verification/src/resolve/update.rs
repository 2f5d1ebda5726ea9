//! Updates of a replica set, and what they do to a cache of it.

use crate::index_map::addrs;
use crate::index_map::addrs::AddrMap;
use crate::index_map::entries;
use crate::net::SocketAddr;
use vstd::prelude::*;

verus! {

/// A change of the endpoints that a target resolves to.
#[derive(Clone, Debug, PartialEq, Eq)]
pub enum Update<E> {
    /// The endpoints are added, or replace those at the same addresses.
    Add(Vec<(SocketAddr, E)>),
    /// The endpoints at these addresses are removed.
    Remove(Vec<SocketAddr>),
    /// The target does not exist.
    DoesNotExist,
    /// The target exists and has no endpoints.
    Empty,
}

/// The content of an update.
pub enum UpdateView<E> {
    Add(Seq<(SocketAddr, E)>),
    Remove(Seq<SocketAddr>),
    DoesNotExist,
    Empty,
}

impl<E> View for Update<E> {
    type V = UpdateView<E>;

    open spec fn view(&self) -> UpdateView<E> {
        match *self {
            Update::Add(endpoints) => UpdateView::Add(endpoints@),
            Update::Remove(addrs) => UpdateView::Remove(addrs@),
            Update::DoesNotExist => UpdateView::DoesNotExist,
            Update::Empty => UpdateView::Empty,
        }
    }
}

/// The entries after each of `endpoints` is inserted in turn.
pub open spec fn added<E>(
    cache: Seq<(SocketAddr, E)>,
    endpoints: Seq<(SocketAddr, E)>,
) -> Seq<(SocketAddr, E)>
    decreases endpoints.len(),
{
    if endpoints.len() == 0 {
        cache
    } else {
        let last = endpoints.last();
        entries::inserted(added(cache, endpoints.drop_last()), last.0, last.1)
    }
}

/// The entries after each of `addrs` is removed in turn.
pub open spec fn removed<E>(cache: Seq<(SocketAddr, E)>, addrs: Seq<SocketAddr>) -> Seq<
    (SocketAddr, E),
>
    decreases addrs.len(),
{
    if addrs.len() == 0 {
        cache
    } else {
        entries::swap_removed(removed(cache, addrs.drop_last()), addrs.last())
    }
}

/// The cache after `update`.
pub open spec fn applied<E>(cache: Seq<(SocketAddr, E)>, update: UpdateView<E>) -> Seq<
    (SocketAddr, E),
> {
    match update {
        UpdateView::Add(endpoints) => added(cache, endpoints),
        UpdateView::Remove(addrs) => removed(cache, addrs),
        UpdateView::DoesNotExist | UpdateView::Empty => Seq::empty(),
    }
}

/// Inserts each of `endpoints` in turn.
pub fn extend(cache: &mut AddrMap, endpoints: &Vec<(SocketAddr, u64)>)
    ensures
        addrs::addr_entries(*final(cache)) == added(addrs::addr_entries(*old(cache)), endpoints@),
{
    let mut i: usize = 0;
    while i < endpoints.len()
        invariant
            i <= endpoints.len(),
            addrs::addr_entries(*cache) == added(
                addrs::addr_entries(*old(cache)),
                endpoints@.take(i as int),
            ),
        decreases endpoints.len() - i,
    {
        let (addr, endpoint) = endpoints[i];
        addrs::insert_addr(cache, addr, endpoint);
        assert(endpoints@.take(i + 1).drop_last() == endpoints@.take(i as int));
        i += 1;
    }
    assert(endpoints@.take(i as int) == endpoints@);
}

/// Applies `update` to the cache of the active endpoints.
pub fn update_active(cache: &mut AddrMap, update: &Update<u64>)
    ensures
        addrs::addr_entries(*final(cache)) == applied(addrs::addr_entries(*old(cache)), update@),
{
    match update {
        Update::Add(endpoints) => {
            extend(cache, endpoints);
        },
        Update::Remove(gone) => {
            let mut i: usize = 0;
            while i < gone.len()
                invariant
                    i <= gone.len(),
                    addrs::addr_entries(*cache) == removed(
                        addrs::addr_entries(*old(cache)),
                        gone@.take(i as int),
                    ),
                decreases gone.len() - i,
            {
                addrs::remove_addr(cache, &gone[i]);
                assert(gone@.take(i + 1).drop_last() == gone@.take(i as int));
                i += 1;
            }
            assert(gone@.take(i as int) == gone@);
        },
        Update::DoesNotExist | Update::Empty => {
            addrs::drain_addrs(cache);
        },
    }
}

} // verus!
