//! The tasks that wait for a service.

use std::collections::HashSet;
use vstd::prelude::*;

verus! {

/// A lock's own handle of its wait.
#[derive(Debug)]
pub struct Wait {
    pub id: u64,
}

/// The means to notify a wait, if it still exists.
#[derive(Debug)]
pub struct Notify {
    pub id: u64,
}

/// The waits that exist, and those that are registered to be notified.
pub struct Waiters {
    queue: Vec<Notify>,
    live: HashSet<u64>,
    next: u64,
}

/// The content of a `Waiters`.
#[verifier::ext_equal]
pub struct WaitersView {
    /// The registered waits. The one that was registered last is notified first.
    pub queue: Seq<u64>,
    /// The waits that exist.
    pub live: Set<u64>,
    /// The number of the next wait.
    pub next: u64,
}

impl WaitersView {
    /// No wait is registered twice, and a number is used for one wait only.
    pub open spec fn wf(self) -> bool {
        &&& self.queue.no_duplicates()
        &&& forall|i: int| 0 <= i < self.queue.len() ==> #[trigger] self.queue[i] < self.next
        &&& forall|id: u64| #[trigger] self.live.contains(id) ==> id < self.next
        &&& self.live.finite()
    }

    /// The waits after one is made.
    pub open spec fn with_wait(self) -> WaitersView {
        WaitersView {
            queue: self.queue,
            live: self.live.insert(self.next),
            next: (self.next + 1) as u64,
        }
    }

    /// The waits after `id` is dropped.
    pub open spec fn without(self, id: u64) -> WaitersView {
        WaitersView { live: self.live.remove(id), ..self }
    }

    /// The waits after `id` is registered.
    pub open spec fn registered(self, id: u64) -> WaitersView {
        WaitersView {
            queue: if self.queue.contains(id) {
                self.queue
            } else {
                self.queue.push(id)
            },
            ..self
        }
    }

    /// Whether a wait that exists is registered.
    pub open spec fn has_registered(self) -> bool {
        exists|i: int| 0 <= i < self.queue.len() && self.live.contains(#[trigger] self.queue[i])
    }

    /// The waits after the next one is notified, and which one that is.
    pub open spec fn notified_next(self) -> (WaitersView, Option<u64>)
        decreases self.queue.len(),
    {
        if self.queue.len() == 0 {
            (self, None)
        } else {
            let rest = WaitersView { queue: self.queue.drop_last(), ..self };
            if self.live.contains(self.queue.last()) {
                (rest, Some(self.queue.last()))
            } else {
                rest.notified_next()
            }
        }
    }

    /// The waits that are notified when all are, in order.
    pub open spec fn all_notified(self) -> Seq<u64> {
        self.queue.reverse().filter(|id: u64| self.live.contains(id))
    }
}

/// The numbers of a queue.
pub open spec fn queue_ids(queue: Seq<Notify>) -> Seq<u64> {
    queue.map_values(|n: Notify| n.id)
}

impl View for Waiters {
    type V = WaitersView;

    closed spec fn view(&self) -> WaitersView {
        WaitersView { queue: queue_ids(self.queue@), live: self.live@, next: self.next }
    }
}

impl Wait {
    /// Whether this is registered.
    pub fn is_waiting(&self, waiters: &Waiters) -> (waiting: bool)
        ensures
            waiting == waiters@.queue.contains(self.id),
    {
        let mut i: usize = 0;
        while i < waiters.queue.len()
            invariant
                i <= waiters.queue.len(),
                forall|j: int| 0 <= j < i ==> #[trigger] waiters@.queue[j] != self.id,
                waiters@.queue == queue_ids(waiters.queue@),
            decreases waiters.queue.len() - i,
        {
            assert(waiters@.queue[i as int] == waiters.queue[i as int].id);
            if waiters.queue[i].id == self.id {
                return true;
            }
            i += 1;
        }
        false
    }

    /// Whether this is not registered.
    pub fn is_not_waiting(&self, waiters: &Waiters) -> (waiting: bool)
        ensures
            waiting == !waiters@.queue.contains(self.id),
    {
        !self.is_waiting(waiters)
    }

    /// The means to notify this, unless it is registered already.
    pub fn get_notify(&self, waiters: &Waiters) -> (notify: Option<Notify>)
        ensures
            match notify {
                Some(notify) => notify.id == self.id && !waiters@.queue.contains(self.id),
                None => waiters@.queue.contains(self.id),
            },
    {
        if self.is_not_waiting(waiters) {
            Some(Notify { id: self.id })
        } else {
            None
        }
    }

    /// Registers this, unless it is registered already.
    pub fn register(&self, waiters: &mut Waiters)
        requires
            old(waiters)@.wf(),
            self.id < old(waiters)@.next,
        ensures
            final(waiters)@ == old(waiters)@.registered(self.id),
            final(waiters)@.queue.contains(self.id),
            final(waiters)@.wf(),
    {
        if let Some(notify) = self.get_notify(waiters) {
            waiters.queue.push(notify);
            assert(waiters@.queue =~= old(waiters)@.queue.push(self.id));
            assert(waiters@.queue[old(waiters)@.queue.len() as int] == self.id);
        }
        assert(waiters@ =~= old(waiters)@.registered(self.id));
    }
}

impl Notify {
    /// Whether this notifies a wait, that is whether the wait still exists.
    pub fn notify(self, waiters: &Waiters) -> (notified: bool)
        ensures
            notified == waiters@.live.contains(self.id),
    {
        broadcast use vstd::std_specs::hash::group_hash_axioms;

        waiters.live.contains(&self.id)
    }
}

impl Waiters {
    pub fn new() -> (waiters: Self)
        ensures
            waiters@ == (WaitersView {
                queue: Seq::empty(),
                live: Set::empty(),
                next: 0,
            }),
            waiters@.wf(),
    {
        broadcast use vstd::std_specs::hash::group_hash_axioms;

        let waiters = Waiters { queue: Vec::new(), live: HashSet::new(), next: 0 };
        assert(waiters@.queue =~= Seq::empty());
        waiters
    }

    /// Makes a wait that is not registered.
    pub fn wait(&mut self) -> (wait: Wait)
        requires
            old(self)@.wf(),
            old(self)@.next < u64::MAX,
        ensures
            wait.id == old(self)@.next,
            final(self)@ == old(self)@.with_wait(),
            final(self)@.wf(),
    {
        broadcast use vstd::std_specs::hash::group_hash_axioms;

        let id = self.next;
        self.live.insert(id);
        self.next = id + 1;
        assert(self@ =~= old(self)@.with_wait());
        Wait { id }
    }

    /// Drops `wait`. It can no longer be notified.
    pub fn forget(&mut self, wait: Wait)
        requires
            old(self)@.wf(),
        ensures
            final(self)@ == old(self)@.without(wait.id),
            final(self)@.wf(),
    {
        broadcast use vstd::std_specs::hash::group_hash_axioms;

        self.live.remove(&wait.id);
        assert(self@ =~= old(self)@.without(wait.id));
    }

    /// Notifies the wait that was registered last among those that still exist.
    pub fn notify_next(&mut self) -> (notified: Option<u64>)
        requires
            old(self)@.wf(),
        ensures
            (final(self)@, notified) == old(self)@.notified_next(),
            final(self)@.wf(),
    {
        loop
            invariant
                self@.wf(),
                self@.notified_next() == old(self)@.notified_next(),
            decreases self.queue.len(),
        {
            let ghost before = *self;
            match self.queue.pop() {
                None => {
                    assert(self@.queue =~= before@.queue);
                    assert(self@.queue.len() == 0);
                    return None;
                },
                Some(waiter) => {
                    let id = waiter.id;
                    assert(before@.queue.last() == id);
                    assert(self@.queue =~= before@.queue.drop_last());
                    assert(self@ =~= (WaitersView { queue: before@.queue.drop_last(), ..before@ }));
                    assert(self@.wf()) by {
                        assert forall|i: int| 0 <= i < self@.queue.len() implies #[trigger] self@.queue[i]
                            < self@.next by {
                            assert(before@.queue[i] < before@.next);
                        }
                    }
                    if waiter.notify(self) {
                        return Some(id);
                    }
                },
            }
        }
    }

    /// Notifies all registered waits that still exist.
    pub fn notify_all(&mut self) -> (notified: Vec<u64>)
        requires
            old(self)@.wf(),
        ensures
            notified@ == old(self)@.all_notified(),
            final(self)@ == (WaitersView { queue: Seq::empty(), ..old(self)@ }),
            final(self)@.wf(),
    {
        let mut notified: Vec<u64> = Vec::new();
        let ghost start = self@;
        let ghost alive = |id: u64| start.live.contains(id);
        proof {
            reveal(Seq::filter);
            assert(start.queue.skip(start.queue.len() as int) =~= Seq::<u64>::empty());
            assert(start.queue.skip(start.queue.len() as int).reverse() =~= Seq::<u64>::empty());
        }
        loop
            invariant
                start.wf(),
                self@.wf(),
                self@.live == start.live,
                self@.next == start.next,
                self@.queue.len() <= start.queue.len(),
                self@.queue == start.queue.take(self@.queue.len() as int),
                alive == (|id: u64| start.live.contains(id)),
                notified@ == start.queue.skip(self@.queue.len() as int).reverse().filter(alive),
            ensures
                self@.queue.len() == 0,
                self@.wf(),
                self@.live == start.live,
                self@.next == start.next,
                notified@ == start.queue.skip(0).reverse().filter(alive),
            decreases self.queue.len(),
        {
            let ghost before = *self;
            let ghost n = before@.queue.len();
            match self.queue.pop() {
                None => {
                    assert(self@.queue =~= before@.queue);
                    assert(n == 0);
                    break;
                },
                Some(waiter) => {
                    let id = waiter.id;
                    assert(before@.queue.last() == id);
                    assert(self@.queue =~= before@.queue.drop_last());
                    assert(self@.queue =~= start.queue.take(n - 1));
                    proof {
                        assert forall|i: int| 0 <= i < self@.queue.len() implies #[trigger] self@.queue[i]
                            < self@.next by {
                            assert(before@.queue[i] < before@.next);
                        }
                        let older = start.queue.skip(n as int).reverse();
                        assert(start.queue.skip(n - 1).reverse() =~= older.push(id));
                        older.lemma_filter_push(id, alive);
                    }
                    if waiter.notify(self) {
                        notified.push(id);
                    }
                },
            }
        }
        assert(start.queue.skip(0) =~= start.queue);
        assert(self@ =~= (WaitersView { queue: Seq::empty(), ..start }));
        notified
    }
}

} // verus!
