//! What each operation on a lock does to the service, to the lock and to the locks that wait.

use super::error::{Poisoned, ServiceError};
use super::service::{self, Lock, Ready, State};
use super::shared::{self, Shared, SharedView};
use super::waiter::{Notify, Wait, Waiters, WaitersView};
use crate::poll::Poll;
use std::sync::Arc;
use vstd::prelude::*;

verus! {

/// Whether, of the waits `before`, the one that was registered last among those that still
/// exist is `notified`, with those left in `queue` that were registered before it. If none
/// exists none is notified, and none is left.
pub open spec fn notifies_last(
    before: WaitersView,
    queue: Seq<u64>,
    notified: Option<u64>,
) -> bool {
    match notified {
        Some(id) => exists|n: int|
            0 <= n < before.queue.len() && #[trigger] before.queue[n] == id && before.live.contains(
                id,
            ) && queue == before.queue.take(n) && (forall|j: int|
                n < j < before.queue.len() ==> !before.live.contains(#[trigger] before.queue[j])),
        None => queue.len() == 0 && forall|j: int|
            0 <= j < before.queue.len() ==> !before.live.contains(#[trigger] before.queue[j]),
    }
}

proof fn lemma_notifies_last(before: WaitersView)
    ensures
        notifies_last(before, before.notified_next().0.queue, before.notified_next().1),
        before.notified_next().0.live == before.live,
        before.notified_next().0.next == before.next,
    decreases before.queue.len(),
{
    if before.queue.len() > 0 {
        let last = before.queue.len() - 1;
        let rest = WaitersView { queue: before.queue.drop_last(), ..before };
        if before.live.contains(before.queue.last()) {
            assert(before.queue[last] == before.queue.last());
            assert(before.queue.drop_last() =~= before.queue.take(last));
        } else {
            lemma_notifies_last(rest);
            let (after, notified) = rest.notified_next();
            match notified {
                Some(id) => {
                    let n = choose|n: int|
                        0 <= n < rest.queue.len() && #[trigger] rest.queue[n] == id
                            && rest.live.contains(id) && after.queue == rest.queue.take(n) && (
                        forall|j: int|
                            n < j < rest.queue.len() ==> !rest.live.contains(
                                #[trigger] rest.queue[j],
                            ));
                    assert(before.queue[n] == id);
                    assert(rest.queue.take(n) =~= before.queue.take(n));
                    assert forall|j: int| n < j < before.queue.len() implies !before.live.contains(
                        #[trigger] before.queue[j],
                    ) by {
                        if j < last {
                            assert(rest.queue[j] == before.queue[j]);
                        }
                    }
                },
                None => {
                    assert forall|j: int|
                        0 <= j < before.queue.len() implies !before.live.contains(
                        #[trigger] before.queue[j],
                    ) by {
                        if j < last {
                            assert(rest.queue[j] == before.queue[j]);
                        }
                    }
                },
            }
        }
    }
}

/// No notification is lost: a wait that exists and is no longer registered is the one that is
/// notified, and if one was registered that exists, one is notified.
proof fn lemma_none_is_lost(before: WaitersView, queue: Seq<u64>, notified: Option<u64>)
    requires
        before.wf(),
        notifies_last(before, queue, notified),
    ensures
        forall|id: u64|
            before.queue.contains(id) && before.live.contains(id) && !(#[trigger] queue.contains(
                id,
            )) ==> notified == Some(id),
        notified matches Some(id) ==> before.queue.contains(id) && before.live.contains(id)
            && !queue.contains(id),
        before.has_registered() ==> notified is Some,
        forall|id: u64| #[trigger] queue.contains(id) ==> before.queue.contains(id),
{
    if let Some(taken) = notified {
        let n = choose|n: int|
            0 <= n < before.queue.len() && #[trigger] before.queue[n] == taken
                && before.live.contains(taken) && queue == before.queue.take(n) && (forall|j: int|
                n < j < before.queue.len() ==> !before.live.contains(#[trigger] before.queue[j]));
        assert forall|id: u64|
            before.queue.contains(id) && before.live.contains(id) && !(#[trigger] queue.contains(
                id,
            )) implies notified == Some(id) by {
            let j = choose|j: int| 0 <= j < before.queue.len() && before.queue[j] == id;
            if j < n {
                assert(queue[j] == id);
            } else if j > n {
                assert(!before.live.contains(before.queue[j]));
            }
        }
        assert forall|id: u64| #[trigger] queue.contains(id) implies before.queue.contains(id) by {
            let j = choose|j: int| 0 <= j < queue.len() && queue[j] == id;
            assert(before.queue[j] == id);
        }
        if queue.contains(taken) {
            let j = choose|j: int| 0 <= j < queue.len() && queue[j] == taken;
            assert(before.queue[j] == before.queue[n]);
        }
    } else {
        assert forall|id: u64|
            before.queue.contains(id) && before.live.contains(id) implies false by {
            let j = choose|j: int| 0 <= j < before.queue.len() && before.queue[j] == id;
            assert(!before.live.contains(before.queue[j]));
        }
    }
}

/// The service that a lock holds is given back when the lock is dropped, and the wait that was
/// registered last is notified. So is it when a lock is dropped that has been notified and did
/// not use that. No wait of another lock that leaves the queue is left without a notification.
pub proof fn law_drop_notifies<S, E>(
    lock: Lock<S, E>,
    before: SharedView<S, E>,
    after: SharedView<S, E>,
    notified: Option<u64>,
)
    requires
        service::compatible(lock.state, before),
        exists|shared: &mut Shared<S, E>|
            (*shared)@ == before && (*final(shared))@ == after && #[trigger] call_ensures(
                Lock::<S, E>::drop,
                (lock, shared, false),
                notified,
            ),
    ensures
        // Every wait of another lock that left the queue is notified.
        forall|id: u64|
            before.waiters.queue.contains(id) && before.waiters.live.contains(id) && !(
            #[trigger] after.waiters.queue.contains(id)) ==> notified == Some(id),
        // Only a wait that was registered is notified, and not that of the lock.
        notified matches Some(id) ==> before.waiters.queue.contains(id)
            && before.waiters.live.contains(id) && !after.waiters.queue.contains(id)
            && after.waiters.live.contains(id),
        lock.state matches State::Acquired(held) ==> {
            &&& after.state == shared::State::<S, E>::Unclaimed(held)
            &&& after.waiters.live == before.waiters.live
            &&& notifies_last(before.waiters, after.waiters.queue, notified)
            &&& before.waiters.has_registered() ==> notified is Some
        },
        lock.state matches State::Waiting(wait) ==> {
            &&& after.state == before.state
            &&& after.waiters.live == before.waiters.live.remove(wait.id)
            &&& before.waiters.queue.contains(wait.id) ==> notified is None && after.waiters.queue
                == before.waiters.queue
            &&& !before.waiters.queue.contains(wait.id) ==> notifies_last(
                before.waiters,
                after.waiters.queue,
                notified,
            ) && (before.waiters.has_registered() ==> notified is Some)
        },
        lock.state is Released || lock.state is Failed ==> after == before && notified is None,
        after.waiters.next == before.waiters.next,
{
    lemma_notifies_last(before.waiters);
    let next = before.waiters.notified_next();
    lemma_none_is_lost(before.waiters, next.0.queue, next.1);
}

/// A lock that is dropped while it waits and the service is not available is forgotten, and
/// nobody is notified. Otherwise the service is given back and the next wait notified.
pub proof fn law_quiet_drop<S, E>(
    lock: Lock<S, E>,
    before: SharedView<S, E>,
    after: SharedView<S, E>,
    notified: Option<u64>,
)
    requires
        service::compatible(lock.state, before),
        exists|shared: &mut Shared<S, E>|
            (*shared)@ == before && (*final(shared))@ == after && #[trigger] call_ensures(
                Lock::<S, E>::drop_if_available,
                (lock, shared, false),
                notified,
            ),
    ensures
        forall|id: u64|
            before.waiters.queue.contains(id) && before.waiters.live.contains(id) && !(
            #[trigger] after.waiters.queue.contains(id)) ==> notified == Some(id),
        notified matches Some(id) ==> before.waiters.queue.contains(id)
            && before.waiters.live.contains(id) && after.waiters.live.contains(id),
        lock.state matches State::Acquired(held) ==> {
            &&& after.state == shared::State::<S, E>::Unclaimed(held)
            &&& after.waiters.live == before.waiters.live
            &&& notifies_last(before.waiters, after.waiters.queue, notified)
        },
        lock.state matches State::Waiting(wait) ==> {
            &&& after.state == before.state
            &&& after.waiters.live == before.waiters.live.remove(wait.id)
            &&& before.state !is Unclaimed || before.waiters.queue.contains(wait.id) ==> notified
                is None && after.waiters.queue == before.waiters.queue
            &&& before.state is Unclaimed && !before.waiters.queue.contains(wait.id)
                ==> notifies_last(before.waiters, after.waiters.queue, notified)
        },
        lock.state is Released || lock.state is Failed ==> after == before && notified is None,
{
    lemma_notifies_last(before.waiters);
    let next = before.waiters.notified_next();
    lemma_none_is_lost(before.waiters, next.0.queue, next.1);
}

/// A lock that is dropped when the shared state is poisoned changes nothing, and notifies
/// nobody.
pub proof fn law_poisoned_drop_does_nothing<S, E>(
    lock: Lock<S, E>,
    before: SharedView<S, E>,
    after: SharedView<S, E>,
    notified: Option<u64>,
)
    requires
        service::compatible(lock.state, before),
        (exists|shared: &mut Shared<S, E>|
            (*shared)@ == before && (*final(shared))@ == after && #[trigger] call_ensures(
                Lock::<S, E>::drop,
                (lock, shared, true),
                notified,
            )) || (exists|shared: &mut Shared<S, E>|
            (*shared)@ == before && (*final(shared))@ == after && #[trigger] call_ensures(
                Lock::<S, E>::drop_if_available,
                (lock, shared, true),
                notified,
            )),
    ensures
        after == before,
        notified is None,
{
}

/// A lock is ready to poll the service exactly if it holds it. It takes the service only if it
/// is available, and then no other lock can take it.
pub proof fn law_poll_acquires<S, E>(
    before: Lock<S, E>,
    after: Lock<S, E>,
    shared: SharedView<S, E>,
    shared_after: SharedView<S, E>,
    poisoned: bool,
    ready: Ready<E>,
)
    requires
        service::compatible(before.state, shared),
        shared.waiters.next < u64::MAX,
        exists|lock: &mut Lock<S, E>, s: &mut Shared<S, E>|
            *lock == before && *final(lock) == after && (*s)@ == shared && (*final(s))@
                == shared_after && #[trigger] call_ensures(
                Lock::<S, E>::poll_ready,
                (lock, s, poisoned),
                ready,
            ),
    ensures
        ready is PollService <==> after.state is Acquired,
        before.state is Acquired ==> after.state == before.state && shared_after == shared,
        before.state !is Acquired ==> (after.state matches State::Acquired(held) ==> shared.state
            == shared::State::<S, E>::Unclaimed(held) && shared_after.state is Claimed && !poisoned),
        after.state !is Acquired ==> shared_after.state == shared.state,
        // An available service is taken by a lock that can.
        (before.state is Released || before.state is Waiting) && !poisoned && shared.state
            is Unclaimed ==> after.state is Acquired,
{
}

/// A lock that fails has the error of the service, and all have the same. It fails for good,
/// and if the shared state is poisoned it says so and stays as it is.
pub proof fn law_poll_fails<S, E>(
    before: Lock<S, E>,
    after: Lock<S, E>,
    shared: SharedView<S, E>,
    shared_after: SharedView<S, E>,
    poisoned: bool,
    ready: Ready<E>,
)
    requires
        service::compatible(before.state, shared),
        shared.waiters.next < u64::MAX,
        exists|lock: &mut Lock<S, E>, s: &mut Shared<S, E>|
            *lock == before && *final(lock) == after && (*s)@ == shared && (*final(s))@
                == shared_after && #[trigger] call_ensures(
                Lock::<S, E>::poll_ready,
                (lock, s, poisoned),
                ready,
            ),
    ensures
        ready matches Ready::Failed(ServiceError(error)) ==> after.state == State::<S, E>::Failed(
            error,
        ) && (before.state == after.state || shared.state == shared::State::<S, E>::Failed(error)),
        before.state is Failed ==> ready is Failed && after.state == before.state && shared_after
            == shared,
        (before.state is Released || before.state is Waiting) && poisoned ==> ready is Poisoned
            && after.state == before.state && shared_after == shared,
        ready is Poisoned ==> poisoned,
        (before.state is Released || before.state is Waiting) && !poisoned && shared.state
            is Failed ==> ready is Failed,
{
}

/// A lock that is pending is registered to be notified, under a number of its own that it keeps
/// while it waits. Other locks stay registered as they were. A lock that no longer waits is
/// forgotten.
pub proof fn law_poll_registers<S, E>(
    before: Lock<S, E>,
    after: Lock<S, E>,
    shared: SharedView<S, E>,
    shared_after: SharedView<S, E>,
    poisoned: bool,
    ready: Ready<E>,
)
    requires
        service::compatible(before.state, shared),
        shared.waiters.next < u64::MAX,
        exists|lock: &mut Lock<S, E>, s: &mut Shared<S, E>|
            *lock == before && *final(lock) == after && (*s)@ == shared && (*final(s))@
                == shared_after && #[trigger] call_ensures(
                Lock::<S, E>::poll_ready,
                (lock, s, poisoned),
                ready,
            ),
    ensures
        ready is Pending ==> after.state is Waiting && shared.state is Claimed
            && shared_after.waiters.queue.contains(after.state->Waiting_0.id),
        ready is Pending <==> (before.state is Released || before.state is Waiting) && !poisoned
            && shared.state is Claimed,
        ready is Pending && before.state is Waiting ==> after.state == before.state
            && shared_after.waiters.live == shared.waiters.live && shared_after.waiters.next
            == shared.waiters.next,
        // A new wait has a number that no wait has.
        ready is Pending && before.state is Released ==> {
            let id = after.state->Waiting_0.id;
            &&& !shared.waiters.live.contains(id)
            &&& !shared.waiters.queue.contains(id)
            &&& shared_after.waiters.live == shared.waiters.live.insert(id)
            &&& shared_after.waiters.next > id
        },
        // No other registration changes.
        ready !is Pending ==> shared_after.waiters.queue == shared.waiters.queue,
        ready is Pending ==> shared_after.waiters.queue == shared.waiters.queue || (
        shared_after.waiters.queue == shared.waiters.queue.push(after.state->Waiting_0.id)
            && !shared.waiters.queue.contains(after.state->Waiting_0.id)),
        before.state matches State::Waiting(wait) ==> (after.state !is Waiting
            ==> shared_after.waiters.live == shared.waiters.live.remove(wait.id)),
        before.state !is Waiting && ready !is Pending ==> shared_after.waiters == shared.waiters,
{
    let id = shared.waiters.next;
    let own = match before.state {
        State::Waiting(wait) => wait.id,
        _ => id,
    };
    let longer = shared.waiters.queue.push(own);
    assert(longer[longer.len() - 1] == own);
    if shared.waiters.queue.contains(id) {
        let j = choose|j: int| 0 <= j < shared.waiters.queue.len() && shared.waiters.queue[j] == id;
        assert(shared.waiters.queue[j] < shared.waiters.next);
    }
}

/// If the service fails, the lock and the shared state hold its error, and every registered
/// wait that still exists is notified, once, the one that was registered last first. Otherwise
/// nothing changes and nobody is notified.
pub proof fn law_service_failure_notifies_all<S, E>(
    before: Lock<S, E>,
    after: Lock<S, E>,
    shared: SharedView<S, E>,
    shared_after: SharedView<S, E>,
    poisoned: bool,
    result: Result<Poll<()>, E>,
    done: (Result<Poll<()>, ServiceError<E>>, Vec<u64>),
)
    requires
        before.state is Acquired,
        service::compatible(before.state, shared),
        exists|lock: &mut Lock<S, E>, s: &mut Shared<S, E>|
            *lock == before && *final(lock) == after && (*s)@ == shared && (*final(s))@
                == shared_after && #[trigger] call_ensures(
                Lock::<S, E>::service_polled,
                (lock, s, poisoned, result),
                done,
            ),
    ensures
        result matches Ok(poll) ==> done.0 == Ok::<Poll<()>, ServiceError<E>>(poll)
            && done.1@.len() == 0 && after.state == before.state && shared_after == shared,
        result matches Err(error) ==> {
            &&& done.0 matches Err(ServiceError(held))
            &&& *held == error
            &&& after.state == State::<S, E>::Failed(held)
            &&& !poisoned ==> shared_after.state == shared::State::<S, E>::Failed(held)
            &&& poisoned ==> shared_after == shared && done.1@.len() == 0
        },
        result is Err && !poisoned ==> {
            &&& forall|id: u64| #[trigger]
                done.1@.contains(id) <==> shared.waiters.queue.contains(id)
                    && shared.waiters.live.contains(id)
            &&& done.1@ == shared.waiters.queue.reverse().filter(
                |id: u64| shared.waiters.live.contains(id),
            )
            &&& shared_after.waiters.queue.len() == 0
            &&& shared_after.waiters.live == shared.waiters.live
            &&& shared_after.waiters.next == shared.waiters.next
        },
{
    lemma_all_notified(shared.waiters);
}

proof fn lemma_all_notified(waiters: WaitersView)
    ensures
        forall|id: u64| #[trigger]
            waiters.all_notified().contains(id) <==> waiters.queue.contains(id)
                && waiters.live.contains(id),
{
    let alive = |id: u64| waiters.live.contains(id);
    let reversed = waiters.queue.reverse();
    let all = waiters.all_notified();
    assert forall|id: u64| #[trigger]
        all.contains(id) <==> waiters.queue.contains(id) && waiters.live.contains(id) by {
        if all.contains(id) {
            let k = choose|k: int| 0 <= k < all.len() && all[k] == id;
            reversed.lemma_filter_pred(alive, k);
            reversed.lemma_filter_contains_rev(alive, id);
            assert(reversed.contains(id));
            let j = choose|j: int| 0 <= j < reversed.len() && reversed[j] == id;
            assert(waiters.queue[waiters.queue.len() - 1 - j] == id);
        }
        if waiters.queue.contains(id) && waiters.live.contains(id) {
            let j = choose|j: int| 0 <= j < waiters.queue.len() && waiters.queue[j] == id;
            let k = waiters.queue.len() - 1 - j;
            assert(reversed[k] == id);
            reversed.lemma_filter_contains(alive, k);
        }
    }
}

/// A call takes the service out of the lock, which must acquire it anew. After the call the
/// service is available again, and the wait that was registered last is notified.
pub proof fn law_call_gives_back<S, E>(
    before: Lock<S, E>,
    after: Lock<S, E>,
    held: S,
    service: S,
    shared: SharedView<S, E>,
    shared_after: SharedView<S, E>,
    poisoned: bool,
    notified: Option<u64>,
)
    requires
        before.state == State::<S, E>::Acquired(held),
        exists|lock: &mut Lock<S, E>|
            *lock == before && *final(lock) == after && #[trigger] call_ensures(
                Lock::<S, E>::call,
                (lock,),
                service,
            ),
        shared.waiters.wf(),
        shared.state is Claimed,
        exists|s: &mut Shared<S, E>|
            (*s)@ == shared && (*final(s))@ == shared_after && #[trigger] call_ensures(
                Lock::<S, E>::release,
                (s, poisoned, service),
                notified,
            ),
    ensures
        service == held,
        after.state is Released,
        poisoned ==> shared_after == shared && notified is None,
        !poisoned ==> {
            &&& shared_after.state == shared::State::<S, E>::Unclaimed(held)
            &&& notifies_last(shared.waiters, shared_after.waiters.queue, notified)
            &&& shared.waiters.has_registered() ==> notified is Some
            &&& shared_after.waiters.live == shared.waiters.live
            &&& shared_after.waiters.next == shared.waiters.next
        },
{
    lemma_notifies_last(shared.waiters);
    let next = shared.waiters.notified_next();
    lemma_none_is_lost(shared.waiters, next.0.queue, next.1);
}

/// A new lock shares a service that is available, and nobody waits. A clone holds nothing.
pub proof fn law_new_lock_is_free<S, E>(
    service: S,
    made: (Lock<S, E>, Shared<S, E>),
    lock: Lock<S, E>,
    copy: Lock<S, E>,
)
    requires
        call_ensures(Lock::<S, E>::new, (service,), made),
        call_ensures(Lock::<S, E>::clone, (&lock,), copy),
    ensures
        made.0.state is Released,
        made.1@.state == shared::State::<S, E>::Unclaimed(service),
        made.1@.waiters.queue.len() == 0,
        forall|id: u64| !(#[trigger] made.1@.waiters.live.contains(id)),
        copy.state is Released,
{
}

/// The shared state hands the service out to one taker, keeps an error for all, and gives
/// nothing while the service is taken.
pub proof fn law_shared_service_is_taken_once<S, E>(
    before: SharedView<S, E>,
    after: SharedView<S, E>,
    acquired: Result<Option<S>, Arc<E>>,
)
    requires
        exists|s: &mut Shared<S, E>|
            (*s)@ == before && (*final(s))@ == after && #[trigger] call_ensures(
                Shared::<S, E>::try_acquire,
                (s,),
                acquired,
            ),
    ensures
        after.waiters == before.waiters,
        acquired matches Ok(Some(service)) ==> before.state == shared::State::<S, E>::Unclaimed(
            service,
        ) && after.state is Claimed,
        acquired matches Ok(None) ==> before.state is Claimed && after.state is Claimed,
        acquired matches Err(error) ==> before.state == shared::State::<S, E>::Failed(error)
            && after.state == before.state,
{
}

/// A wait that finds the service taken is registered once, behind those that are registered.
/// Otherwise no wait is registered.
pub proof fn law_shared_wait_is_registered<S, E>(
    before: SharedView<S, E>,
    after: SharedView<S, E>,
    wait: Wait,
    acquired: Result<Poll<S>, Arc<E>>,
)
    requires
        before.waiters.wf(),
        wait.id < before.waiters.next,
        exists|s: &mut Shared<S, E>|
            (*s)@ == before && (*final(s))@ == after && #[trigger] call_ensures(
                Shared::<S, E>::poll_acquire,
                (s, &wait),
                acquired,
            ),
    ensures
        acquired matches Ok(Poll::Ready(service)) ==> before.state == shared::State::<
            S,
            E,
        >::Unclaimed(service) && after.state is Claimed,
        acquired matches Err(error) ==> before.state == shared::State::<S, E>::Failed(error)
            && after.state == before.state,
        acquired == Ok::<Poll<S>, Arc<E>>(Poll::Pending) <==> before.state is Claimed,
        before.state is Claimed ==> {
            &&& after.state is Claimed
            &&& after.waiters.queue.contains(wait.id)
            &&& after.waiters.queue == before.waiters.queue || after.waiters.queue
                == before.waiters.queue.push(wait.id)
            &&& after.waiters.queue.no_duplicates()
            &&& after.waiters.live == before.waiters.live
        },
        before.state !is Claimed ==> after.waiters == before.waiters,
{
    let queue = before.waiters.queue;
    if !queue.contains(wait.id) {
        assert(queue.push(wait.id)[queue.len() as int] == wait.id);
    }
}

/// A wait is made under a number that no wait has, and is not registered. A wait that is
/// forgotten does not exist, and others do as before.
pub proof fn law_waits_are_made_and_forgotten<S, E>(
    before: SharedView<S, E>,
    made: SharedView<S, E>,
    wait: Wait,
    gone: Wait,
    after: SharedView<S, E>,
)
    requires
        before.waiters.wf(),
        before.waiters.next < u64::MAX,
        exists|s: &mut Shared<S, E>|
            (*s)@ == before && (*final(s))@ == made && #[trigger] call_ensures(
                Shared::<S, E>::wait,
                (s,),
                wait,
            ),
        exists|s: &mut Shared<S, E>|
            (*s)@ == before && (*final(s))@ == after && #[trigger] call_ensures(
                Shared::<S, E>::forget,
                (s, gone),
                (),
            ),
    ensures
        !before.waiters.live.contains(wait.id),
        !made.waiters.queue.contains(wait.id),
        forall|id: u64| #[trigger]
            made.waiters.live.contains(id) <==> before.waiters.live.contains(id) || id == wait.id,
        made.waiters.queue == before.waiters.queue,
        made.state == before.state,
        made.waiters.next > before.waiters.next,
        forall|id: u64| #[trigger]
            after.waiters.live.contains(id) <==> before.waiters.live.contains(id) && id != gone.id,
        after.waiters.queue == before.waiters.queue,
        after.waiters.next == before.waiters.next,
        after.state == before.state,
{
    let queue = before.waiters.queue;
    if queue.contains(wait.id) {
        let j = choose|j: int| 0 <= j < queue.len() && queue[j] == wait.id;
        assert(queue[j] < before.waiters.next);
    }
}

/// Giving the service back makes it available and notifies the wait that was registered last.
/// Notifying alone leaves the service where it is. A failure notifies all.
pub proof fn law_shared_release_notifies<S, E>(
    before: SharedView<S, E>,
    service: S,
    released: SharedView<S, E>,
    notified: Option<u64>,
    told: SharedView<S, E>,
    next: Option<u64>,
    error: Arc<E>,
    failed: SharedView<S, E>,
    all: Vec<u64>,
)
    requires
        before.waiters.wf(),
        before.state is Claimed,
        exists|s: &mut Shared<S, E>|
            (*s)@ == before && (*final(s))@ == released && #[trigger] call_ensures(
                Shared::<S, E>::release,
                (s, service),
                notified,
            ),
        exists|s: &mut Shared<S, E>|
            (*s)@ == before && (*final(s))@ == told && #[trigger] call_ensures(
                Shared::<S, E>::notify_next_waiter,
                (s,),
                next,
            ),
        exists|s: &mut Shared<S, E>|
            (*s)@ == before && (*final(s))@ == failed && #[trigger] call_ensures(
                Shared::<S, E>::fail,
                (s, error),
                all,
            ),
    ensures
        released.state == shared::State::<S, E>::Unclaimed(service),
        notifies_last(before.waiters, released.waiters.queue, notified),
        released.waiters.live == before.waiters.live,
        told.state == before.state,
        notifies_last(before.waiters, told.waiters.queue, next),
        told.waiters.live == before.waiters.live,
        failed.state == shared::State::<S, E>::Failed(error),
        failed.waiters.queue.len() == 0,
        failed.waiters.live == before.waiters.live,
        forall|id: u64| #[trigger]
            all@.contains(id) <==> before.waiters.queue.contains(id)
                && before.waiters.live.contains(id),
{
    lemma_notifies_last(before.waiters);
    lemma_all_notified(before.waiters);
}

/// A wait is registered once at most, notified only if it exists, and known to wait while it is
/// registered.
pub proof fn law_wait_handles(
    wait: Wait,
    waiters: Waiters,
    waiting: bool,
    not_waiting: bool,
    notify: Option<Notify>,
    handle: Notify,
    notified: bool,
    after: WaitersView,
)
    requires
        call_ensures(Wait::is_waiting, (&wait, &waiters), waiting),
        call_ensures(Wait::is_not_waiting, (&wait, &waiters), not_waiting),
        call_ensures(Wait::get_notify, (&wait, &waiters), notify),
        call_ensures(Notify::notify, (handle, &waiters), notified),
        waiters@.wf(),
        wait.id < waiters@.next,
        exists|w: &mut Waiters|
            *w == waiters && (*final(w))@ == after && #[trigger] call_ensures(
                Wait::register,
                (&wait, w),
                (),
            ),
    ensures
        waiting <==> waiters@.queue.contains(wait.id),
        not_waiting <==> !waiting,
        notify is Some <==> !waiting,
        notify matches Some(notify) ==> notify.id == wait.id,
        notified <==> waiters@.live.contains(handle.id),
        after.queue.contains(wait.id),
        after.queue.no_duplicates(),
        waiting ==> after.queue == waiters@.queue,
        !waiting ==> after.queue == waiters@.queue.push(wait.id),
        after.live == waiters@.live,
{
}

/// The waits themselves: there are none at first, one that is made has a number of its own and
/// is not registered, and one that is forgotten does not exist.
pub proof fn law_waits_have_their_own_number(
    fresh: Waiters,
    before: WaitersView,
    wait: Wait,
    made: WaitersView,
    gone: Wait,
    left: WaitersView,
    id: u64,
)
    requires
        call_ensures(Waiters::new, (), fresh),
        before.wf(),
        before.next < u64::MAX,
        exists|w: &mut Waiters|
            (*w)@ == before && (*final(w))@ == made && #[trigger] call_ensures(
                Waiters::wait,
                (w,),
                wait,
            ),
        exists|w: &mut Waiters|
            (*w)@ == before && (*final(w))@ == left && #[trigger] call_ensures(
                Waiters::forget,
                (w, gone),
                (),
            ),
    ensures
        fresh@.queue.len() == 0,
        !fresh@.live.contains(id),
        !before.live.contains(wait.id),
        !before.queue.contains(wait.id),
        made.live.contains(id) <==> before.live.contains(id) || id == wait.id,
        made.queue == before.queue,
        made.next > wait.id,
        left.live.contains(id) <==> before.live.contains(id) && id != gone.id,
        left.queue == before.queue,
        left.next == before.next,
{
    if before.queue.contains(wait.id) {
        let j = choose|j: int| 0 <= j < before.queue.len() && before.queue[j] == wait.id;
        assert(before.queue[j] < before.next);
    }
}

/// The one that was registered last is notified first, and all are notified in that order. A
/// wait that exists is not left out.
pub proof fn law_waits_are_notified(
    before: WaitersView,
    notified: Option<u64>,
    after: WaitersView,
    all: Vec<u64>,
    emptied: WaitersView,
)
    requires
        before.wf(),
        exists|w: &mut Waiters|
            (*w)@ == before && (*final(w))@ == after && #[trigger] call_ensures(
                Waiters::notify_next,
                (w,),
                notified,
            ),
        exists|w: &mut Waiters|
            (*w)@ == before && (*final(w))@ == emptied && #[trigger] call_ensures(
                Waiters::notify_all,
                (w,),
                all,
            ),
    ensures
        notifies_last(before, after.queue, notified),
        after.live == before.live,
        after.next == before.next,
        forall|id: u64|
            before.queue.contains(id) && before.live.contains(id) && !(
            #[trigger] after.queue.contains(id)) ==> notified == Some(id),
        all@ == before.queue.reverse().filter(|id: u64| before.live.contains(id)),
        emptied.queue.len() == 0,
        emptied.live == before.live,
        emptied.next == before.next,
{
    lemma_notifies_last(before);
    lemma_none_is_lost(before, after.queue, notified);
}

/// A shared service is available at first, and nobody waits for it. It is known whether it is
/// available and who waits, and a wait that is registered comes last unless it is there.
pub proof fn law_shared_state_is_known<S, E>(
    service: S,
    fresh: Shared<S, E>,
    shared: Shared<S, E>,
    wait: Wait,
    waiting: bool,
    unclaimed: bool,
    before: SharedView<S, E>,
    after: SharedView<S, E>,
)
    requires
        call_ensures(Shared::<S, E>::new, (service,), fresh),
        call_ensures(Shared::<S, E>::is_waiting, (&shared, &wait), waiting),
        call_ensures(Shared::<S, E>::is_unclaimed, (&shared,), unclaimed),
        before.waiters.wf(),
        wait.id < before.waiters.next,
        exists|s: &mut Shared<S, E>|
            (*s)@ == before && (*final(s))@ == after && #[trigger] call_ensures(
                Shared::<S, E>::register,
                (s, &wait),
                (),
            ),
    ensures
        fresh@.state == shared::State::<S, E>::Unclaimed(service),
        fresh@.waiters.queue.len() == 0,
        waiting <==> shared@.waiters.queue.contains(wait.id),
        unclaimed <==> shared@.state is Unclaimed,
        after.state == before.state,
        after.waiters.live == before.waiters.live,
        after.waiters.queue == if before.waiters.queue.contains(wait.id) {
            before.waiters.queue
        } else {
            before.waiters.queue.push(wait.id)
        },
{
}

} // verus!
