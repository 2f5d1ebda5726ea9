//! What a consumer that applies all changes holds.

use super::from_resolve::{self, Change, Update};
use crate::net::SocketAddr;
use vstd::prelude::*;

verus! {

/// The endpoints that a consumer holds after `changes`, if it held `held` before.
pub open spec fn consumed(held: Map<SocketAddr, u64>, changes: Seq<Change>) -> Map<SocketAddr, u64>
    decreases changes.len(),
{
    if changes.len() == 0 {
        held
    } else {
        let before = consumed(held, changes.drop_last());
        match changes.last() {
            Change::Insert(addr, endpoint) => before.insert(addr, endpoint),
            Change::Remove(addr) => before.remove(addr),
        }
    }
}

/// The address that a change is about.
pub open spec fn addr_of(change: Change) -> SocketAddr {
    match change {
        Change::Insert(addr, _) => addr,
        Change::Remove(addr) => addr,
    }
}

proof fn lemma_consumed_append(
    held: Map<SocketAddr, u64>,
    first: Seq<Change>,
    second: Seq<Change>,
)
    ensures
        consumed(held, first + second) == consumed(consumed(held, first), second),
    decreases second.len(),
{
    if second.len() == 0 {
        assert(first + second =~= first);
    } else {
        lemma_consumed_append(held, first, second.drop_last());
        assert((first + second).drop_last() =~= first + second.drop_last());
        assert((first + second).last() == second.last());
    }
}

proof fn lemma_consumed_push(held: Map<SocketAddr, u64>, changes: Seq<Change>, change: Change)
    ensures
        consumed(held, changes.push(change)) == match change {
            Change::Insert(addr, endpoint) => consumed(held, changes).insert(addr, endpoint),
            Change::Remove(addr) => consumed(held, changes).remove(addr),
        },
{
    assert(changes.push(change).drop_last() =~= changes);
}

/// Removals take their addresses, and nothing else, from what is held.
proof fn lemma_consumed_removals(held: Map<SocketAddr, u64>, changes: Seq<Change>)
    requires
        forall|i: int| 0 <= i < changes.len() ==> #[trigger] changes[i] is Remove,
    ensures
        forall|addr: SocketAddr| #[trigger]
            consumed(held, changes).dom().contains(addr) <==> held.dom().contains(addr)
                && !changes.contains(Change::Remove(addr)),
        forall|addr: SocketAddr|
            consumed(held, changes).dom().contains(addr) ==> #[trigger] consumed(held, changes)[addr]
                == held[addr],
    decreases changes.len(),
{
    if changes.len() > 0 {
        let rest = changes.drop_last();
        assert(changes[changes.len() - 1] is Remove);
        assert forall|i: int| 0 <= i < rest.len() implies #[trigger] rest[i] is Remove by {
            assert(changes[i] is Remove);
        }
        lemma_consumed_removals(held, rest);
        assert forall|addr: SocketAddr| #[trigger]
            consumed(held, changes).dom().contains(addr) <==> held.dom().contains(addr)
                && !changes.contains(Change::Remove(addr)) by {
            let gone = Change::Remove(addr);
            let x = addr_of(changes.last());
            assert(consumed(held, changes) == consumed(held, rest).remove(x));
            assert(consumed(held, rest).dom().contains(addr) <==> held.dom().contains(addr)
                && !rest.contains(gone));
            if changes.contains(gone) {
                let i = choose|i: int| 0 <= i < changes.len() && changes[i] == gone;
                if i < rest.len() {
                    assert(rest[i] == gone);
                } else {
                    assert(x == addr);
                }
            } else {
                assert(changes[changes.len() - 1] != gone);
                assert(x != addr);
            }
            if rest.contains(gone) {
                let i = choose|i: int| 0 <= i < rest.len() && rest[i] == gone;
                assert(changes[i] == gone);
            }
            assert(changes[changes.len() - 1] == changes.last());
        }
        assert forall|addr: SocketAddr|
            consumed(held, changes).dom().contains(addr) implies #[trigger] consumed(held, changes)[addr]
            == held[addr] by {
            assert(consumed(held, rest).dom().contains(addr));
            assert(consumed(held, rest)[addr] == held[addr]);
        }
    }
}

/// Adding endpoints changes what is held under their addresses, to the same whatever was
/// held, and nothing else.
proof fn lemma_added(
    active: Map<SocketAddr, u64>,
    endpoints: Seq<(SocketAddr, u64)>,
    addr: SocketAddr,
)
    ensures
        ({
            let after = from_resolve::added(active, endpoints);
            let fresh = from_resolve::added(Map::empty(), endpoints);
            if from_resolve::addrs_of(endpoints).contains(addr) {
                &&& after.dom().contains(addr)
                &&& fresh.dom().contains(addr)
                &&& after[addr] == fresh[addr]
            } else {
                &&& after.dom().contains(addr) == active.dom().contains(addr)
                &&& !fresh.dom().contains(addr)
                &&& active.dom().contains(addr) ==> after[addr] == active[addr]
            }
        }),
    decreases endpoints.len(),
{
    if endpoints.len() > 0 {
        let rest = endpoints.drop_last();
        lemma_added(active, rest, addr);
        let addrs = from_resolve::addrs_of(endpoints);
        let rest_addrs = from_resolve::addrs_of(rest);
        if addrs.contains(addr) {
            let i = choose|i: int| 0 <= i < addrs.len() && addrs[i] == addr;
            if i < rest.len() {
                assert(rest_addrs[i] == addr);
            }
        }
        if rest_addrs.contains(addr) {
            let i = choose|i: int| 0 <= i < rest_addrs.len() && rest_addrs[i] == addr;
            assert(addrs[i] == addr);
        }
        assert(addrs[endpoints.len() - 1] == endpoints.last().0);
    }
}

proof fn lemma_all_inserted(active: Map<SocketAddr, u64>, endpoints: Seq<(SocketAddr, u64)>)
    ensures
        consumed(active, from_resolve::all_inserted(endpoints)) == from_resolve::added(
            active,
            endpoints,
        ),
    decreases endpoints.len(),
{
    let changes = from_resolve::all_inserted(endpoints);
    if endpoints.len() > 0 {
        lemma_all_inserted(active, endpoints.drop_last());
        assert(changes.drop_last() =~= from_resolve::all_inserted(endpoints.drop_last()));
    }
}

proof fn lemma_reset_inserted(active: Map<SocketAddr, u64>, endpoints: Seq<(SocketAddr, u64)>)
    ensures
        consumed(active, from_resolve::reset_inserted(active, endpoints)) == from_resolve::added(
            active,
            endpoints,
        ),
    decreases endpoints.len(),
{
    if endpoints.len() > 0 {
        let rest = endpoints.drop_last();
        let (addr, endpoint) = endpoints.last();
        lemma_reset_inserted(active, rest);
        let left = from_resolve::without(active, from_resolve::addrs_of(rest));
        let changes = from_resolve::reset_inserted(active, rest);
        if left.dom().contains(addr) && left[addr] == endpoint {
            lemma_added(active, rest, addr);
            let before = from_resolve::added(active, rest);
            assert(before.insert(addr, endpoint) =~= before);
        } else {
            lemma_consumed_push(active, changes, Change::Insert(addr, endpoint));
        }
    }
}

proof fn lemma_removed(active: Map<SocketAddr, u64>, addrs: Seq<SocketAddr>)
    ensures
        consumed(active, from_resolve::removed(active, addrs)) == from_resolve::without(
            active,
            addrs,
        ),
    decreases addrs.len(),
{
    if addrs.len() == 0 {
        assert(from_resolve::without(active, addrs) =~= active);
    } else {
        let rest = addrs.drop_last();
        let addr = addrs.last();
        lemma_removed(active, rest);
        from_resolve::lemma_without_push(active, rest, addr);
        assert(addrs =~= rest.push(addr));
        let before = from_resolve::without(active, rest);
        if before.dom().contains(addr) {
            lemma_consumed_push(
                active,
                from_resolve::removed(active, rest),
                Change::Remove(addr),
            );
        } else {
            assert(before.remove(addr) =~= before);
        }
    }
}

/// A consumer that held what was active and applies the changes of an update holds what is
/// active after the update.
pub proof fn law_changes_reach_active(
    before: Map<SocketAddr, u64>,
    update: Update,
    changes: Seq<Change>,
    after: Map<SocketAddr, u64>,
)
    requires
        from_resolve::updated(before, update, changes, after),
    ensures
        consumed(before, changes) == after,
{
    match update {
        Update::Reset(endpoints) => {
            let inserts = from_resolve::reset_inserted(before, endpoints@);
            let removes = changes.skip(inserts.len() as int);
            let addrs = from_resolve::addrs_of(endpoints@);
            let left = from_resolve::without(before, addrs);
            let middle = from_resolve::added(before, endpoints@);
            assert(changes =~= inserts + removes);
            lemma_consumed_append(before, inserts, removes);
            lemma_reset_inserted(before, endpoints@);
            lemma_consumed_removals(middle, removes);
            assert forall|addr: SocketAddr| #[trigger]
                consumed(middle, removes).dom().contains(addr) == after.dom().contains(addr) && (
                after.dom().contains(addr) ==> consumed(middle, removes)[addr]
                    == after[addr]) by {
                lemma_added(before, endpoints@, addr);
                let gone = Change::Remove(addr);
                if addrs.contains(addr) {
                    assert(!left.dom().contains(addr));
                    if removes.contains(gone) {
                        let i = choose|i: int| 0 <= i < removes.len() && removes[i] == gone;
                        assert(removes[i] is Remove);
                    }
                } else if before.dom().contains(addr) {
                    assert(left.dom().contains(addr));
                    assert(removes.contains(gone));
                }
            }
            assert(consumed(middle, removes) =~= after);
        },
        Update::Add(endpoints) => {
            lemma_all_inserted(before, endpoints@);
        },
        Update::Remove(addrs) => {
            lemma_removed(before, addrs@);
        },
        Update::DoesNotExist => {
            lemma_consumed_removals(before, changes);
            assert(consumed(before, changes) =~= after);
        },
    }
}

/// A consumer that takes the first of the pending changes is in step with the rest of them.
pub proof fn law_taking_a_change_keeps_step(held: Map<SocketAddr, u64>, pending: Seq<Change>)
    requires
        pending.len() > 0,
    ensures
        consumed(consumed(held, seq![pending[0]]), pending.drop_first()) == consumed(held, pending),
{
    assert(pending =~= seq![pending[0]] + pending.drop_first());
    lemma_consumed_append(held, seq![pending[0]], pending.drop_first());
}

proof fn lemma_reset_skips(
    active: Map<SocketAddr, u64>,
    endpoints: Seq<(SocketAddr, u64)>,
    i: int,
)
    requires
        from_resolve::addrs_of(endpoints).no_duplicates(),
        0 <= i < endpoints.len(),
        active.dom().contains(endpoints[i].0),
        active[endpoints[i].0] == endpoints[i].1,
    ensures
        forall|k: int|
            0 <= k < from_resolve::reset_inserted(active, endpoints).len() ==> addr_of(
                #[trigger] from_resolve::reset_inserted(active, endpoints)[k],
            ) != endpoints[i].0,
    decreases endpoints.len(),
{
    let rest = endpoints.drop_last();
    let addrs = from_resolve::addrs_of(endpoints);
    let rest_addrs = from_resolve::addrs_of(rest);
    assert(rest_addrs =~= addrs.drop_last());
    let last = endpoints.len() - 1;
    assert(addrs[i] == endpoints[i].0 && addrs[last] == endpoints[last].0);
    if i == last {
        if rest_addrs.contains(endpoints[i].0) {
            let k = choose|k: int| 0 <= k < rest_addrs.len() && rest_addrs[k] == endpoints[i].0;
            assert(addrs[k] == addrs[last]);
        }
        lemma_reset_addrs(active, rest);
        let changes = from_resolve::reset_inserted(active, rest);
        assert(from_resolve::without(active, rest_addrs).dom().contains(endpoints[i].0));
        assert(from_resolve::reset_inserted(active, endpoints) == changes);
        assert forall|k: int| 0 <= k < changes.len() implies addr_of(#[trigger] changes[k])
            != endpoints[i].0 by {
            assert(rest_addrs.contains(addr_of(changes[k])));
        }
    } else {
        lemma_reset_skips(active, rest, i);
        assert(addrs[i] != addrs[last]);
        let shorter = from_resolve::reset_inserted(active, rest);
        let changes = from_resolve::reset_inserted(active, endpoints);
        assert forall|k: int| 0 <= k < changes.len() implies addr_of(#[trigger] changes[k])
            != endpoints[i].0 by {
            if k < shorter.len() {
                assert(changes[k] == shorter[k]);
                assert(addr_of(shorter[k]) != rest[i].0);
            }
        }
    }
}

proof fn lemma_reset_addrs(active: Map<SocketAddr, u64>, endpoints: Seq<(SocketAddr, u64)>)
    ensures
        forall|k: int|
            0 <= k < from_resolve::reset_inserted(active, endpoints).len()
                ==> from_resolve::addrs_of(endpoints).contains(
                addr_of(#[trigger] from_resolve::reset_inserted(active, endpoints)[k]),
            ),
    decreases endpoints.len(),
{
    if endpoints.len() > 0 {
        let rest = endpoints.drop_last();
        lemma_reset_addrs(active, rest);
        let addrs = from_resolve::addrs_of(endpoints);
        let rest_addrs = from_resolve::addrs_of(rest);
        assert(addrs[endpoints.len() - 1] == endpoints.last().0);
        assert forall|addr: SocketAddr| rest_addrs.contains(addr) implies #[trigger] addrs.contains(
            addr,
        ) by {
            let k = choose|k: int| 0 <= k < rest_addrs.len() && rest_addrs[k] == addr;
            assert(addrs[k] == addr);
        }
        let changes = from_resolve::reset_inserted(active, endpoints);
        assert forall|k: int| 0 <= k < changes.len() implies addrs.contains(
            addr_of(#[trigger] changes[k]),
        ) by {
            let shorter = from_resolve::reset_inserted(active, rest);
            if k < shorter.len() {
                assert(changes[k] == shorter[k]);
                assert(rest_addrs.contains(addr_of(shorter[k])));
            }
        }
    }
}

/// A reset to endpoints at different addresses makes no change where an endpoint was active
/// already.
pub proof fn law_reset_leaves_known_endpoints(
    before: Map<SocketAddr, u64>,
    endpoints: Vec<(SocketAddr, u64)>,
    changes: Seq<Change>,
    after: Map<SocketAddr, u64>,
    i: int,
    k: int,
)
    requires
        from_resolve::updated(before, Update::Reset(endpoints), changes, after),
        from_resolve::addrs_of(endpoints@).no_duplicates(),
        0 <= i < endpoints@.len(),
        before.dom().contains(endpoints@[i].0),
        before[endpoints@[i].0] == endpoints@[i].1,
        0 <= k < changes.len(),
    ensures
        addr_of(changes[k]) != endpoints@[i].0,
{
    let inserts = from_resolve::reset_inserted(before, endpoints@);
    let removes = changes.skip(inserts.len() as int);
    lemma_reset_skips(before, endpoints@, i);
    if k < inserts.len() {
        assert(changes.take(inserts.len() as int)[k] == changes[k]);
    } else {
        assert(removes[k - inserts.len()] == changes[k]);
        let addrs = from_resolve::addrs_of(endpoints@);
        assert(addrs[i] == endpoints@[i].0);
        assert(addrs.contains(endpoints@[i].0));
    }
}

} // verus!
