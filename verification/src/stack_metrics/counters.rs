//! The counters of a stack, by its label.

use crate::index_map::entries;
use crate::index_map::slots::{self, SlotMap};
use vstd::prelude::*;

verus! {

/// What is counted of a stack.
#[derive(Clone, Copy, Debug, PartialEq, Eq, Structural)]
pub struct Metrics {
    pub failure_total: u64,
    pub make_success_total: u64,
    pub make_failure_total: u64,
    pub service_failure_total: u64,
    pub service_request_total: u64,
    pub service_drop_total: u64,
}

/// Something that is counted.
#[derive(Clone, Copy, Debug, PartialEq, Eq, Structural)]
pub enum Counted {
    Failure,
    MakeSuccess,
    MakeFailure,
    ServiceFailure,
    ServiceRequest,
    ServiceDrop,
}

/// The counters of all stacks. A stack is known by the identifier of its label.
pub struct Registry {
    slots: SlotMap,
    metrics: Vec<Metrics>,
}

/// Counters of which nothing was counted.
pub open spec fn zero() -> Metrics {
    Metrics {
        failure_total: 0,
        make_success_total: 0,
        make_failure_total: 0,
        service_failure_total: 0,
        service_request_total: 0,
        service_drop_total: 0,
    }
}

/// A counter after one more, which starts over after the largest number.
pub open spec fn next(count: u64) -> u64 {
    if count == u64::MAX {
        0
    } else {
        (count + 1) as u64
    }
}

impl Metrics {
    /// The counters after something is counted.
    pub open spec fn counted(self, what: Counted) -> Metrics {
        match what {
            Counted::Failure => Metrics { failure_total: next(self.failure_total), ..self },
            Counted::MakeSuccess => Metrics {
                make_success_total: next(self.make_success_total),
                ..self
            },
            Counted::MakeFailure => Metrics {
                make_failure_total: next(self.make_failure_total),
                ..self
            },
            Counted::ServiceFailure => Metrics {
                service_failure_total: next(self.service_failure_total),
                ..self
            },
            Counted::ServiceRequest => Metrics {
                service_request_total: next(self.service_request_total),
                ..self
            },
            Counted::ServiceDrop => Metrics {
                service_drop_total: next(self.service_drop_total),
                ..self
            },
        }
    }
}

impl View for Registry {
    type V = Seq<(u64, Metrics)>;

    closed spec fn view(&self) -> Seq<(u64, Metrics)> {
        Seq::new(
            self.metrics@.len(),
            |i: int| (slots::slot_entries(self.slots)[i].0, self.metrics@[i]),
        )
    }
}

/// The stacks after something is counted of the one at `slot`.
pub open spec fn counted_at(stacks: Seq<(u64, Metrics)>, slot: usize, what: Counted) -> Seq<
    (u64, Metrics),
> {
    let (label, metrics) = stacks[slot as int];
    stacks.update(slot as int, (label, metrics.counted(what)))
}

impl Registry {
    /// Whether each label has counters of its own, in the same order.
    pub closed spec fn wf(&self) -> bool {
        let held = slots::slot_entries(self.slots);
        &&& held.len() == self.metrics@.len()
        &&& entries::distinct(held)
        &&& forall|i: int| 0 <= i < held.len() ==> #[trigger] held[i].1 == i
    }

    pub fn new() -> (registry: Self)
        ensures
            registry.wf(),
            registry@ == Seq::<(u64, Metrics)>::empty(),
    {
        let registry = Registry { slots: slots::new_slots(), metrics: Vec::new() };
        assert(registry@ =~= Seq::empty());
        registry
    }

    /// The place of the counters for `label`, which are made if there are none.
    pub fn new_layer(&mut self, label: u64) -> (slot: usize)
        requires
            old(self).wf(),
        ensures
            final(self).wf(),
            slot < final(self)@.len(),
            final(self)@[slot as int].0 == label,
            final(self)@ == if entries::has_key(old(self)@, label) {
                old(self)@
            } else {
                old(self)@.push((label, zero()))
            },
    {
        let fresh: u64 = self.metrics.len() as u64;
        let ghost before = slots::slot_entries(self.slots);
        let ghost stacks = self@;
        let slot: u64 = slots::slot_or_insert(&mut self.slots, label, fresh);
        proof {
            if entries::has_key(stacks, label) {
                let k = entries::position(stacks, label);
                assert(stacks[k].0 == label);
                assert(before[k].0 == label);
            }
            if entries::has_key(before, label) {
                let k = entries::position(before, label);
                assert(before[k].0 == label);
                assert(stacks[k].0 == label);
            }
        }
        if slot == fresh {
            proof {
                if entries::has_key(before, label) {
                    let k = entries::position(before, label);
                    assert(before[k].1 == k);
                }
                let after = slots::slot_entries(self.slots);
                assert forall|i: int, j: int| 0 <= i < j < after.len() implies #[trigger] after[i].0
                    != #[trigger] after[j].0 by {
                    if j == before.len() {
                        assert(before[i].0 != label);
                    }
                }
            }
            self.metrics.push(
                Metrics {
                    failure_total: 0,
                    make_success_total: 0,
                    make_failure_total: 0,
                    service_failure_total: 0,
                    service_request_total: 0,
                    service_drop_total: 0,
                },
            );
            assert(self@ =~= stacks.push((label, zero())));
        } else {
            assert(self@ =~= stacks);
            proof {
                let k = entries::position(before, label);
                assert(before[k].1 == k);
                assert(stacks[k].0 == label);
            }
        }
        slot as usize
    }

    /// Counts something of the stack at `slot`.
    pub fn incr(&mut self, slot: usize, what: Counted)
        requires
            old(self).wf(),
            slot < old(self)@.len(),
        ensures
            final(self).wf(),
            final(self)@ == counted_at(old(self)@, slot, what),
    {
        let mut metrics = self.metrics[slot];
        match what {
            Counted::Failure => {
                metrics.failure_total = metrics.failure_total.wrapping_add(1);
            },
            Counted::MakeSuccess => {
                metrics.make_success_total = metrics.make_success_total.wrapping_add(1);
            },
            Counted::MakeFailure => {
                metrics.make_failure_total = metrics.make_failure_total.wrapping_add(1);
            },
            Counted::ServiceFailure => {
                metrics.service_failure_total = metrics.service_failure_total.wrapping_add(1);
            },
            Counted::ServiceRequest => {
                metrics.service_request_total = metrics.service_request_total.wrapping_add(1);
            },
            Counted::ServiceDrop => {
                metrics.service_drop_total = metrics.service_drop_total.wrapping_add(1);
            },
        }
        assert(metrics == self.metrics@[slot as int].counted(what));
        self.metrics.set(slot, metrics);
        assert(self@ =~= counted_at(old(self)@, slot, what));
    }

    /// All labels and their counters, in order.
    pub fn list(&self) -> (stacks: Vec<(u64, Metrics)>)
        requires
            self.wf(),
        ensures
            stacks@ == self@,
    {
        let labels = slots::list_slots(&self.slots);
        let mut stacks: Vec<(u64, Metrics)> = Vec::new();
        let mut i: usize = 0;
        while i < labels.len()
            invariant
                self.wf(),
                labels@ == slots::slot_entries(self.slots),
                labels@.len() == self.metrics@.len(),
                i <= labels@.len(),
                stacks@ == self@.take(i as int),
                self@.len() == self.metrics@.len(),
            decreases labels@.len() - i,
        {
            stacks.push((labels[i].0, self.metrics[i]));
            assert(stacks@ =~= self@.take(i + 1));
            i += 1;
        }
        assert(self@.take(i as int) =~= self@);
        stacks
    }
}

} // verus!
