//! Which metrics are kept.

use crate::index_map::entries;
use crate::index_map::slots::{self, SlotMap};
use vstd::prelude::*;

verus! {

/// What is known of the use of metrics.
#[derive(Clone, Copy, Debug, PartialEq, Eq, Structural)]
pub struct Activity {
    /// Whether they are referenced from elsewhere.
    pub referenced: bool,
    /// When they were updated last, if they can be read.
    pub last_update: Option<u64>,
}

/// Metrics by their target. A target is known by its identifier, and metrics by their place in
/// a list.
pub struct Registry {
    pub by_target: SlotMap,
    /// How many metrics were made.
    pub made: u64,
}

/// Whether metrics are retained: they are still referenced, or were updated since `epoch`.
pub open spec fn retained(activity: Activity, epoch: u64) -> bool {
    activity.referenced || (activity.last_update matches Some(time) && time >= epoch)
}

/// Whether the metrics at `slot` are retained.
pub open spec fn retained_slot(activities: Seq<Activity>, epoch: u64, slot: u64) -> bool {
    slot < activities.len() && retained(activities[slot as int], epoch)
}

/// Whether metrics are retained: they are still referenced, or were updated since `epoch`.
pub fn retains(activity: &Activity, epoch: u64) -> (retains: bool)
    ensures
        retains == retained(*activity, epoch),
{
    activity.referenced || match activity.last_update {
        Some(time) => time >= epoch,
        None => false,
    }
}

/// Whether the metrics at `slot` are retained.
pub fn retains_slot(activities: &Vec<Activity>, epoch: u64, slot: u64) -> (retains_it: bool)
    ensures
        retains_it == retained_slot(activities@, epoch, slot),
{
    if slot < activities.len() as u64 {
        retains(&activities[slot as usize], epoch)
    } else {
        false
    }
}

/// `IndexMap::retain` keeps the entries that are retained, in their order.
#[verifier::external_body]
fn retain_slots(map: &mut SlotMap, activities: &Vec<Activity>, epoch: u64)
    ensures
        slots::slot_entries(*final(map)) == slots::slot_entries(*old(map)).filter(
            |entry: (u64, u64)| retained_slot(activities@, epoch, entry.1),
        ),
{
    map.retain(|_, slot| retains_slot(activities, epoch, *slot))
}

impl Registry {
    /// The targets and the places of their metrics, in order.
    pub open spec fn targets(&self) -> Seq<(u64, u64)> {
        slots::slot_entries(self.by_target)
    }

    /// Whether every target has metrics that were made, and no two have the same.
    pub open spec fn wf(&self) -> bool {
        &&& forall|i: int| 0 <= i < self.targets().len() ==> #[trigger] self.targets()[i].1 < self.made
        &&& forall|i: int, j: int|
            0 <= i < j < self.targets().len() ==> #[trigger] self.targets()[i].1
                != #[trigger] self.targets()[j].1
    }

    /// A registry without targets.
    pub fn new() -> (registry: Self)
        ensures
            registry.targets() == Seq::<(u64, u64)>::empty(),
            registry.made == 0,
            registry.wf(),
    {
        Registry { by_target: slots::new_slots(), made: 0 }
    }

    /// Drops the metrics that are no longer referenced and were not updated since `epoch`.
    /// `activities` says of each place in the list how it was used.
    pub fn retain_since(&mut self, epoch: u64, activities: &Vec<Activity>)
        requires
            old(self).wf(),
            activities@.len() == old(self).made,
        ensures
            final(self).targets() == old(self).targets().filter(
                |entry: (u64, u64)| retained_slot(activities@, epoch, entry.1),
            ),
            final(self).made == old(self).made,
            final(self).wf(),
    {
        let ghost before = self.targets();
        let ghost kept = |entry: (u64, u64)| retained_slot(activities@, epoch, entry.1);
        retain_slots(&mut self.by_target, activities, epoch);
        proof {
            lemma_filter_slots(before, kept, self.made);
        }
    }

    /// The place of the metrics of `target`, which are made if there are none. A place that was
    /// not made before holds new metrics.
    pub fn get_or_insert_target(&mut self, target: u64) -> (slot: u64)
        requires
            old(self).wf(),
            old(self).made < u64::MAX,
        ensures
            match entries::lookup(old(self).targets(), target) {
                Some(known) => {
                    &&& slot == known
                    &&& final(self).targets() == old(self).targets()
                    &&& final(self).made == old(self).made
                },
                None => {
                    &&& slot == old(self).made
                    &&& final(self).targets() == old(self).targets().push((target, slot))
                    &&& final(self).made == old(self).made + 1
                },
            },
            final(self).wf(),
    {
        match slots::get_slot(&self.by_target, target) {
            Some(slot) => slot,
            None => {
                let slot: u64 = self.made;
                slots::insert_slot(&mut self.by_target, target, slot);
                self.made = slot + 1;
                slot
            },
        }
    }
}

proof fn lemma_filter_slots(
    targets: Seq<(u64, u64)>,
    kept: spec_fn((u64, u64)) -> bool,
    made: u64,
)
    requires
        forall|i: int| 0 <= i < targets.len() ==> #[trigger] targets[i].1 < made,
        forall|i: int, j: int|
            0 <= i < j < targets.len() ==> #[trigger] targets[i].1 != #[trigger] targets[j].1,
    ensures
        ({
            let after = targets.filter(kept);
            &&& forall|i: int| 0 <= i < after.len() ==> #[trigger] after[i].1 < made
            &&& forall|i: int, j: int|
                0 <= i < j < after.len() ==> #[trigger] after[i].1 != #[trigger] after[j].1
            &&& forall|i: int|
                0 <= i < after.len() ==> #[trigger] targets.contains(after[i])
        }),
    decreases targets.len(),
{
    reveal(Seq::filter);
    if targets.len() > 0 {
        let rest = targets.drop_last();
        lemma_filter_slots(rest, kept, made);
        let shorter = rest.filter(kept);
        let after = targets.filter(kept);
        assert forall|i: int| 0 <= i < after.len() implies #[trigger] targets.contains(after[i]) by {
            if i < shorter.len() {
                assert(after[i] == shorter[i]);
                assert(rest.contains(shorter[i]));
                let k = choose|k: int| 0 <= k < rest.len() && rest[k] == shorter[i];
                assert(targets[k] == shorter[i]);
            } else {
                assert(targets[targets.len() - 1] == after[i]);
            }
        }
        assert forall|i: int, j: int| 0 <= i < j < after.len() implies #[trigger] after[i].1
            != #[trigger] after[j].1 by {
            assert(after[i] == shorter[i]);
            if j < shorter.len() {
                assert(after[j] == shorter[j]);
            } else {
                assert(rest.contains(shorter[i]));
                let k = choose|k: int| 0 <= k < rest.len() && rest[k] == shorter[i];
                assert(targets[k].1 != targets[targets.len() - 1].1);
            }
        }
    }
}

/// Metrics that are referenced, or were updated since the epoch, are kept with their target.
/// All others are dropped.
pub proof fn law_used_metrics_are_kept(
    targets: Seq<(u64, u64)>,
    activities: Seq<Activity>,
    epoch: u64,
    i: int,
)
    requires
        0 <= i < targets.len(),
        targets[i].1 < activities.len(),
    ensures
        targets.filter(
            |entry: (u64, u64)| retained_slot(activities, epoch, entry.1),
        ).contains(targets[i]) <==> retained(activities[targets[i].1 as int], epoch),
{
    let kept = |entry: (u64, u64)| retained_slot(activities, epoch, entry.1);
    let after = targets.filter(kept);
    if retained(activities[targets[i].1 as int], epoch) {
        targets.lemma_filter_contains(kept, i);
    }
    if after.contains(targets[i]) {
        let k = choose|k: int| 0 <= k < after.len() && after[k] == targets[i];
        targets.lemma_filter_pred(kept, k);
    }
}

/// An epoch that is not later keeps no less.
pub proof fn law_earlier_epoch_keeps_more(activity: Activity, earlier: u64, later: u64)
    requires
        earlier <= later,
        retained(activity, later),
    ensures
        retained(activity, earlier),
{
}

/// Whether metrics are in use: they are referenced, or were updated at `epoch` or later.
pub open spec fn in_use(activity: Activity, epoch: u64) -> bool {
    activity.referenced || (activity.last_update is Some && activity.last_update->0 >= epoch)
}

/// Metrics are retained exactly if they are in use.
pub proof fn law_metrics_in_use_are_retained(
    activity: Activity,
    epoch: u64,
    retains_it: bool,
    activities: Vec<Activity>,
    slot: u64,
    retains_place: bool,
)
    requires
        call_ensures(retains, (&activity, epoch), retains_it),
        call_ensures(retains_slot, (&activities, epoch, slot), retains_place),
    ensures
        retains_it <==> in_use(activity, epoch),
        retains_place <==> slot < activities@.len() && in_use(activities@[slot as int], epoch),
{
}

/// The targets whose metrics are in use stay, in their order, and no other does.
pub proof fn law_targets_in_use_stay(
    before: Registry,
    epoch: u64,
    activities: Vec<Activity>,
    after: Registry,
)
    requires
        before.wf(),
        activities@.len() == before.made,
        exists|r: &mut Registry|
            *r == before && *final(r) == after && #[trigger] call_ensures(
                Registry::retain_since,
                (r, epoch, &activities),
                (),
            ),
    ensures
        after.targets() == before.targets().filter(
            |target: (u64, u64)| in_use(activities@[target.1 as int], epoch),
        ),
        after.made == before.made,
        after.wf(),
{
    lemma_same_filter(before.targets(), activities@, epoch);
}

proof fn lemma_same_filter(targets: Seq<(u64, u64)>, activities: Seq<Activity>, epoch: u64)
    requires
        forall|i: int| 0 <= i < targets.len() ==> #[trigger] targets[i].1 < activities.len(),
    ensures
        targets.filter(|entry: (u64, u64)| retained_slot(activities, epoch, entry.1))
            == targets.filter(
            |target: (u64, u64)| in_use(activities[target.1 as int], epoch),
        ),
    decreases targets.len(),
{
    reveal(Seq::filter);
    if targets.len() > 0 {
        let rest = targets.drop_last();
        assert forall|i: int| 0 <= i < rest.len() implies #[trigger] rest[i].1
            < activities.len() by {
            assert(targets[i].1 < activities.len());
        }
        lemma_same_filter(rest, activities, epoch);
        assert(targets[targets.len() - 1].1 < activities.len());
    }
}

/// A target that is known keeps its metrics. One that is not gets metrics of its own, which no
/// other target has or had, and comes last.
pub proof fn law_targets_have_their_metrics(
    before: Registry,
    target: u64,
    slot: u64,
    after: Registry,
)
    requires
        before.wf(),
        before.made < u64::MAX,
        exists|r: &mut Registry|
            *r == before && *final(r) == after && #[trigger] call_ensures(
                Registry::get_or_insert_target,
                (r, target),
                slot,
            ),
    ensures
        after.targets().contains((target, slot)),
        (exists|known: u64| #[trigger] before.targets().contains((target, known)))
            ==> after.targets() == before.targets() && after.made == before.made,
        !(exists|known: u64| #[trigger] before.targets().contains((target, known))) ==> {
            &&& after.targets() == before.targets().push((target, slot))
            &&& slot >= before.made
            &&& after.made > slot
        },
        after.wf(),
{
    let targets = before.targets();
    if entries::has_key(targets, target) {
        let p = entries::position(targets, target);
        assert(targets[p] == (target, slot));
        assert(targets.contains((target, slot)));
    } else {
        assert forall|known: u64| !(#[trigger] targets.contains((target, known))) by {
            if targets.contains((target, known)) {
                let i = choose|i: int| 0 <= i < targets.len() && targets[i] == (target, known);
                assert(targets[i].0 == target);
            }
        }
        assert(after.targets()[targets.len() as int] == (target, slot));
    }
}

/// A registry starts without targets.
pub proof fn law_registry_starts_empty(registry: Registry)
    requires
        call_ensures(Registry::new, (), registry),
    ensures
        registry.targets().len() == 0,
        registry.made == 0,
{
}

} // verus!
