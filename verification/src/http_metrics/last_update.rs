//! When metrics were updated last.

use vstd::prelude::*;

verus! {

/// The reading of a clock when metrics were updated last.
#[derive(Debug)]
pub struct LastUpdateTime {
    pub last_update: u64,
}

impl LastUpdateTime {
    /// Metrics that are new at `now`.
    pub fn new(now: u64) -> (time: Self)
        ensures
            time.last_update() == now,
    {
        LastUpdateTime { last_update: now }
    }

    /// Takes note of an update at `now`.
    pub fn update(&mut self, now: u64)
        ensures
            final(self).last_update() == now,
    {
        self.last_update = now;
    }

    /// When the metrics were updated last.
    pub open spec fn spec_last_update(&self) -> u64 {
        self.last_update
    }

    /// When the metrics were updated last.
    #[verifier::when_used_as_spec(spec_last_update)]
    pub fn last_update(&self) -> (time: u64)
        ensures
            time == self.last_update(),
    {
        self.last_update
    }
}

/// The time is that of the last update, or of the start.
pub proof fn law_last_update_counts(
    start: u64,
    fresh: LastUpdateTime,
    before: LastUpdateTime,
    now: u64,
    after: LastUpdateTime,
    time: u64,
)
    requires
        call_ensures(LastUpdateTime::new, (start,), fresh),
        exists|t: &mut LastUpdateTime|
            *t == before && *final(t) == after && #[trigger] call_ensures(
                LastUpdateTime::update,
                (t, now),
                (),
            ),
        call_ensures(LastUpdateTime::last_update, (&after,), time),
    ensures
        fresh.last_update == start,
        after.last_update == now,
        time == now,
{
}

} // verus!
