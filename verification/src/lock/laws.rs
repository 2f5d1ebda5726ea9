//! What holds of a lock and its clones, whichever of them is polled, called or dropped.

use super::service::{self, Ready, State};
use super::shared::{self, SharedView};
use super::waiter::WaitersView;
use std::sync::Arc;
use vstd::prelude::*;

verus! {

/// Whether lock `i` waits.
pub open spec fn waits<S, E>(locks: Seq<State<S, E>>, i: int) -> bool {
    0 <= i < locks.len() && locks[i] is Waiting
}

/// Whether lock `i` waits and is not registered, that is whether it has been notified.
pub open spec fn awake<S, E>(
    shared: SharedView<S, E>,
    locks: Seq<State<S, E>>,
    i: int,
) -> bool {
    waits(locks, i) && !shared.waiters.queue.contains(locks[i]->Waiting_0.id)
}

/// Whether lock `i` waits under the number `id`.
pub open spec fn waits_as<S, E>(locks: Seq<State<S, E>>, i: int, id: u64) -> bool {
    waits(locks, i) && locks[i]->Waiting_0.id == id
}

/// What every operation keeps of a shared state and all locks on it:
///
/// - one lock at most holds the service, and one does exactly if the service is claimed;
/// - a failed lock has the error that is shared;
/// - the waits that exist are those of the waiting locks, each with its own number;
/// - if the service is available and locks are registered for it, a lock has been notified;
/// - if the service has failed, no lock is left registered.
pub open spec fn consistent<S, E>(shared: SharedView<S, E>, locks: Seq<State<S, E>>) -> bool {
    &&& shared.waiters.wf()
    &&& forall|i: int, j: int|
        0 <= i < locks.len() && 0 <= j < locks.len() && #[trigger] locks[i] is Acquired
            && #[trigger] locks[j] is Acquired ==> i == j
    &&& shared.state is Claimed <==> exists|i: int|
        0 <= i < locks.len() && #[trigger] locks[i] is Acquired
    &&& forall|i: int|
        0 <= i < locks.len() ==> (#[trigger] locks[i] matches State::Failed(error) ==> shared.state
            == shared::State::<S, E>::Failed(error))
    &&& forall|i: int| #[trigger]
        waits(locks, i) ==> shared.waiters.live.contains(locks[i]->Waiting_0.id)
    &&& forall|i: int, j: int| #[trigger]
        waits(locks, i) && #[trigger] waits(locks, j) && locks[i]->Waiting_0.id
            == locks[j]->Waiting_0.id ==> i == j
    &&& forall|id: u64| #[trigger]
        shared.waiters.live.contains(id) ==> exists|i: int| waits_as(locks, i, id)
    &&& shared.state is Unclaimed && shared.waiters.has_registered() ==> exists|i: int|
        awake(shared, locks, i)
    &&& shared.state is Failed ==> shared.waiters.queue.len() == 0
}

/// Notifying the next wait takes one out of the queue that still exists, or finds none.
proof fn lemma_notified_next(waiters: WaitersView)
    requires
        waiters.wf(),
    ensures
        ({
            let (after, notified) = waiters.notified_next();
            &&& after.live == waiters.live
            &&& after.next == waiters.next
            &&& after.wf()
            &&& forall|id: u64| #[trigger]
                after.queue.contains(id) ==> waiters.queue.contains(id)
            &&& match notified {
                Some(id) => waiters.live.contains(id) && waiters.queue.contains(id)
                    && !after.queue.contains(id),
                None => after.queue.len() == 0 && !waiters.has_registered(),
            }
        }),
    decreases waiters.queue.len(),
{
    if waiters.queue.len() > 0 {
        let rest = WaitersView { queue: waiters.queue.drop_last(), ..waiters };
        let last = waiters.queue.last();
        assert(waiters.queue[waiters.queue.len() - 1] == last);
        assert forall|i: int| 0 <= i < rest.queue.len() implies #[trigger] rest.queue[i]
            < rest.next by {
            assert(waiters.queue[i] < waiters.next);
        }
        assert forall|id: u64| #[trigger] rest.queue.contains(id) implies waiters.queue.contains(
            id,
        ) by {
            let i = choose|i: int| 0 <= i < rest.queue.len() && rest.queue[i] == id;
            assert(waiters.queue[i] == id);
        }
        if !waiters.live.contains(last) {
            lemma_notified_next(rest);
            if waiters.has_registered() {
                let i = choose|i: int|
                    0 <= i < waiters.queue.len() && waiters.live.contains(
                        #[trigger] waiters.queue[i],
                    );
                assert(rest.queue[i] == waiters.queue[i]);
            }
        }
    }
}

/// A new lock and its shared state are consistent.
pub proof fn law_new_is_consistent<S, E>(service: S)
    ensures
        consistent(SharedView::<S, E>::fresh(service), seq![State::<S, E>::Released]),
{
    let locks = seq![State::<S, E>::Released];
    assert(locks[0] is Released);
}

/// A clone does not hold the service, and takes nothing from the lock that it is made of.
pub proof fn law_clone_keeps_consistency<S, E>(shared: SharedView<S, E>, locks: Seq<State<S, E>>)
    requires
        consistent(shared, locks),
    ensures
        consistent(shared, locks.push(State::Released)),
{
    let after = locks.push(State::Released);
    if shared.state is Claimed {
        let k = choose|i: int| 0 <= i < locks.len() && #[trigger] locks[i] is Acquired;
        assert(after[k] is Acquired);
    }
    assert forall|i: int| waits(locks, i) == #[trigger] waits(after, i) by {}
    assert forall|id: u64| #[trigger] shared.waiters.live.contains(id) implies exists|i: int|
        waits_as(after, i, id) by {
        let k = choose|i: int| waits_as(locks, i, id);
        assert(waits(locks, k));
        assert(waits_as(after, k, id));
    }
    if exists|i: int| awake(shared, locks, i) {
        let k = choose|i: int| awake(shared, locks, i);
        assert(waits(locks, k));
        assert(awake(shared, after, k));
    }
}

/// Polling one lock keeps all locks consistent: access stays exclusive.
#[verifier::rlimit(40)]
pub proof fn law_poll_keeps_consistency<S, E>(
    shared: SharedView<S, E>,
    locks: Seq<State<S, E>>,
    i: int,
)
    requires
        consistent(shared, locks),
        0 <= i < locks.len(),
        shared.waiters.next < u64::MAX,
    ensures
        ({
            let (lock, shared_after, _) = service::polled(locks[i], shared, false);
            consistent(shared_after, locks.update(i, lock))
        }),
{
    let (lock, sh, ready) = service::polled(locks[i], shared, false);
    let after = locks.update(i, lock);
    let id = match locks[i] {
        State::Waiting(wait) => wait.id,
        _ => shared.waiters.next,
    };
    assert forall|k: int| k != i implies waits(locks, k) == #[trigger] waits(after, k) by {}
    assert(waits(after, i) <==> lock is Waiting);
    match locks[i] {
        State::Acquired(_) => {
            assert(after =~= locks);
        },
        State::Failed(_) => {
            assert(after =~= locks);
        },
        _ => {
            if locks[i] is Waiting {
                assert(waits(locks, i));
                assert(shared.waiters.live.contains(id));
            }
            match shared.state {
                shared::State::Unclaimed(_) => {
                    assert(after[i] is Acquired);
                    assert forall|n: u64| #[trigger] sh.waiters.live.contains(n) implies exists|
                        k: int,
                    |
                        waits_as(after, k, n) by {
                        let k = choose|k: int| waits_as(locks, k, n);
                        assert(waits(locks, k));
                        assert(waits_as(after, k, n));
                    }
                },
                shared::State::Failed(_) => {
                    assert forall|n: u64| #[trigger] sh.waiters.live.contains(n) implies exists|
                        k: int,
                    |
                        waits_as(after, k, n) by {
                        let k = choose|k: int| waits_as(locks, k, n);
                        assert(waits(locks, k));
                        assert(waits_as(after, k, n));
                    }
                },
                shared::State::Claimed => {
                    let h = choose|h: int| 0 <= h < locks.len() && #[trigger] locks[h] is Acquired;
                    assert(after[h] is Acquired);
                    assert forall|n: u64| #[trigger] sh.waiters.live.contains(n) implies exists|
                        k: int,
                    |
                        waits_as(after, k, n) by {
                        if n == id {
                            assert(waits_as(after, i, n));
                        } else {
                            let k = choose|k: int| waits_as(locks, k, n);
                            assert(waits(locks, k));
                            assert(waits_as(after, k, n));
                        }
                    }
                    assert(sh.waiters.wf()) by {
                        let q = sh.waiters.queue;
                        assert forall|k: int| 0 <= k < q.len() implies #[trigger] q[k]
                            < sh.waiters.next by {
                            if k < shared.waiters.queue.len() {
                                assert(shared.waiters.queue[k] < shared.waiters.next);
                            }
                        }
                    }
                },
            }
        },
    }
}

/// If the service fails, all locks stay consistent.
pub proof fn law_failure_keeps_consistency<S, E>(
    shared: SharedView<S, E>,
    locks: Seq<State<S, E>>,
    i: int,
    error: Arc<E>,
)
    requires
        consistent(shared, locks),
        0 <= i < locks.len(),
        locks[i] is Acquired,
    ensures
        consistent(shared.failed(error), locks.update(i, State::Failed(error))),
{
    let after = locks.update(i, State::Failed(error));
    let sh = shared.failed(error);
    assert forall|k: int| waits(locks, k) == #[trigger] waits(after, k) by {}
    assert forall|n: u64| #[trigger] sh.waiters.live.contains(n) implies exists|k: int|
        waits_as(after, k, n) by {
        let k = choose|k: int| waits_as(locks, k, n);
        assert(waits(locks, k));
        assert(waits_as(after, k, n));
    }
}

/// A call gives the service back, and all locks stay consistent: a lock that is registered
/// for the service is notified, if there is one.
pub proof fn law_call_keeps_consistency<S, E>(
    shared: SharedView<S, E>,
    locks: Seq<State<S, E>>,
    i: int,
    service: S,
)
    requires
        consistent(shared, locks),
        0 <= i < locks.len(),
        locks[i] is Acquired,
    ensures
        consistent(shared.released(service).0, locks.update(i, State::Released)),
        shared.waiters.has_registered() ==> shared.released(service).1 is Some,
{
    let after = locks.update(i, State::Released);
    let (sh, notified) = shared.released(service);
    lemma_notified_next(shared.waiters);
    assert forall|k: int| waits(locks, k) == #[trigger] waits(after, k) by {}
    assert forall|n: u64| #[trigger] sh.waiters.live.contains(n) implies exists|k: int|
        waits_as(after, k, n) by {
        let k = choose|k: int| waits_as(locks, k, n);
        assert(waits(locks, k));
        assert(waits_as(after, k, n));
    }
    match notified {
        Some(id) => {
            assert(sh.waiters.live.contains(id));
            let k = choose|k: int| waits_as(after, k, id);
            assert(awake(sh, after, k));
        },
        None => {},
    }
}

/// Dropping a lock gives the service back, and all other locks stay consistent. A lock that
/// was notified and is dropped before it could use the service passes the notification on.
#[verifier::rlimit(40)]
pub proof fn law_drop_keeps_consistency<S, E>(
    shared: SharedView<S, E>,
    locks: Seq<State<S, E>>,
    i: int,
)
    requires
        consistent(shared, locks),
        0 <= i < locks.len(),
    ensures
        consistent(service::dropped(locks[i], shared, false).0, locks.remove(i)),
{
    let (sh, notified) = service::dropped(locks[i], shared, false);
    let after = locks.remove(i);
    lemma_notified_next(shared.waiters);
    assert forall|k: int|
        0 <= k < after.len() implies #[trigger] after[k] == locks[if k < i {
        k
    } else {
        k + 1
    }] by {}
    assert forall|k: int| #[trigger] waits(after, k) implies waits(
        locks,
        if k < i {
            k
        } else {
            k + 1
        },
    ) by {}
    let gone = match locks[i] {
        State::Waiting(wait) => Some(wait.id),
        _ => None,
    };
    if locks[i] is Waiting {
        assert(waits(locks, i));
    }
    assert forall|n: u64| #[trigger] sh.waiters.live.contains(n) implies exists|k: int|
        waits_as(after, k, n) by {
        assert(shared.waiters.live.contains(n));
        let k = choose|k: int| waits_as(locks, k, n);
        assert(waits(locks, k));
        let moved = if k < i {
            k
        } else {
            k - 1
        };
        assert(k != i);
        assert(after[moved] == locks[k]);
        assert(waits_as(after, moved, n));
    }
    if shared.state is Claimed && locks[i] !is Acquired {
        let h = choose|h: int| 0 <= h < locks.len() && #[trigger] locks[h] is Acquired;
        let moved = if h < i {
            h
        } else {
            h - 1
        };
        assert(after[moved] is Acquired);
    }
    if sh.state is Unclaimed && sh.waiters.has_registered() {
        match notified {
            Some(id) => {
                assert(gone != Some(id));
                assert(sh.waiters.live.contains(id));
                let k = choose|k: int| waits_as(after, k, id);
                assert(awake(sh, after, k));
            },
            None => {
                if locks[i] !is Acquired {
                    let r = choose|r: int|
                        0 <= r < sh.waiters.queue.len() && sh.waiters.live.contains(
                            #[trigger] sh.waiters.queue[r],
                        );
                    assert(shared.waiters.live.contains(shared.waiters.queue[r]));
                    let k = choose|k: int| awake(shared, locks, k);
                    assert(waits(locks, k));
                    let moved = if k < i {
                        k
                    } else {
                        k - 1
                    };
                    assert(k != i);
                    assert(after[moved] == locks[k]);
                    assert(awake(sh, after, moved));
                }
            },
        }
    }
}

/// Dropping a waiting lock while the service is not available notifies nobody, and all other
/// locks stay consistent.
pub proof fn law_quiet_drop_keeps_consistency<S, E>(
    shared: SharedView<S, E>,
    locks: Seq<State<S, E>>,
    i: int,
)
    requires
        consistent(shared, locks),
        0 <= i < locks.len(),
        locks[i] is Waiting,
        shared.state !is Unclaimed,
    ensures
        consistent(
            SharedView { waiters: shared.waiters.without(locks[i]->Waiting_0.id), ..shared },
            locks.remove(i),
        ),
{
    let sh = SharedView { waiters: shared.waiters.without(locks[i]->Waiting_0.id), ..shared };
    let after = locks.remove(i);
    assert(waits(locks, i));
    assert forall|k: int| #[trigger] waits(after, k) implies waits(
        locks,
        if k < i {
            k
        } else {
            k + 1
        },
    ) by {}
    assert forall|n: u64| #[trigger] sh.waiters.live.contains(n) implies exists|k: int|
        waits_as(after, k, n) by {
        assert(shared.waiters.live.contains(n));
        let k = choose|k: int| waits_as(locks, k, n);
        assert(waits(locks, k));
        let moved = if k < i {
            k
        } else {
            k - 1
        };
        assert(after[moved] == locks[k]);
        assert(waits_as(after, moved, n));
    }
    if shared.state is Claimed {
        let h = choose|h: int| 0 <= h < locks.len() && #[trigger] locks[h] is Acquired;
        let moved = if h < i {
            h
        } else {
            h - 1
        };
        assert(after[moved] is Acquired);
    }
}

/// While a lock holds the service, no other lock that is polled acquires it.
pub proof fn law_access_is_exclusive<S, E>(
    shared: SharedView<S, E>,
    locks: Seq<State<S, E>>,
    i: int,
    j: int,
)
    requires
        consistent(shared, locks),
        0 <= i < locks.len(),
        0 <= j < locks.len(),
        i != j,
        locks[i] is Acquired,
    ensures
        service::polled(locks[j], shared, false).2 is Pending,
        service::polled(locks[j], shared, false).0 is Waiting,
{
}

/// Once the service failed, every lock that is polled fails with its error.
pub proof fn law_errors_reach_all_locks<S, E>(
    shared: SharedView<S, E>,
    locks: Seq<State<S, E>>,
    error: Arc<E>,
    i: int,
)
    requires
        consistent(shared, locks),
        shared.state == shared::State::<S, E>::Failed(error),
        0 <= i < locks.len(),
    ensures
        service::polled(locks[i], shared, false).2 == Ready::<E>::Failed(
            super::error::ServiceError(error),
        ),
        service::polled(locks[i], shared, false).0 == State::<S, E>::Failed(error),
        service::polled(locks[i], shared, false).1.state == shared.state,
{
}

/// When the lock that holds the service is dropped, a lock that waits acquires it.
pub proof fn law_drop_releases_access<S, E>(
    shared: SharedView<S, E>,
    locks: Seq<State<S, E>>,
    i: int,
    j: int,
)
    requires
        consistent(shared, locks),
        0 <= i < locks.len(),
        0 <= j < locks.len(),
        i != j,
        locks[i] is Acquired,
    ensures
        service::polled(
            locks[j],
            service::dropped(locks[i], shared, false).0,
            false,
        ).0 == locks[i],
        service::polled(
            locks[j],
            service::dropped(locks[i], shared, false).0,
            false,
        ).2 is PollService,
{
}

} // verus!
