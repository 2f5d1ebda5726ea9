//! Spans of time as plain values.

use std::convert::TryFrom;
use vstd::prelude::*;

verus! {

/// How many nanoseconds make a second.
pub const NANOS_PER_SEC: u32 = 1_000_000_000;

/// A span of time.
#[derive(Clone, Copy, Debug, PartialEq, Eq, Structural)]
pub struct Duration {
    pub secs: u64,
    pub nanos: u32,
}

impl Duration {
    /// The length in nanoseconds.
    pub open spec fn total(self) -> int {
        self.secs * NANOS_PER_SEC + self.nanos
    }

    /// Whether the nanoseconds do not make a second.
    pub open spec fn wf(self) -> bool {
        self.nanos < NANOS_PER_SEC
    }

    /// A span of whole seconds.
    pub fn from_secs(secs: u64) -> (duration: Self)
        ensures
            duration.secs == secs,
            duration.nanos == 0,
            duration.wf(),
    {
        Duration { secs, nanos: 0 }
    }
}

/// A signed span of time as messages carry it. The parts need not have the same sign.
#[derive(Clone, Copy, Debug, PartialEq, Eq, Structural)]
pub struct ProtoDuration {
    pub seconds: i64,
    pub nanos: i32,
}

/// The whole seconds in `nanos`, rounded towards zero.
pub open spec fn carried(nanos: int) -> int {
    if nanos >= 0 {
        nanos / (NANOS_PER_SEC as int)
    } else {
        -((-nanos) / (NANOS_PER_SEC as int))
    }
}

/// The seconds and nanoseconds of a span, with fewer nanoseconds than make a second and both
/// of the same sign.
pub open spec fn normalized(duration: ProtoDuration) -> (int, int) {
    let carry = carried(duration.nanos as int);
    let seconds = duration.seconds + carry;
    let nanos = duration.nanos - carry * NANOS_PER_SEC;
    if seconds < 0 && nanos > 0 {
        (seconds + 1, nanos - NANOS_PER_SEC)
    } else if seconds > 0 && nanos < 0 {
        (seconds - 1, nanos + NANOS_PER_SEC)
    } else {
        (seconds, nanos)
    }
}

/// Whether the seconds of a span and its negation can be represented.
pub open spec fn representable(duration: ProtoDuration) -> bool {
    let carry = carried(duration.nanos as int);
    &&& i64::MIN <= duration.seconds + carry <= i64::MAX
    &&& normalized(duration).0 > i64::MIN
}

/// The span of time that a message means, if it is not negative.
///
/// A negative span of less than a second counts as one of some seconds: its nanoseconds are
/// taken modulo `2^32`.
pub open spec fn converted(duration: ProtoDuration) -> Option<Duration> {
    let (seconds, nanos) = normalized(duration);
    if !representable(duration) || seconds < 0 {
        None
    } else if nanos >= 0 {
        Some(Duration { secs: seconds as u64, nanos: nanos as u32 })
    } else {
        let wrapped = nanos + 0x1_0000_0000;
        Some(
            Duration {
                secs: (wrapped / (NANOS_PER_SEC as int)) as u64,
                nanos: (wrapped % (NANOS_PER_SEC as int)) as u32,
            },
        )
    }
}

/// `TryFrom<prost_types::Duration>` for `std::time::Duration` normalizes the span and accepts
/// it if its seconds are not negative. The nanoseconds are cast to `u32`, and whole seconds
/// among them are carried. Arithmetic on the seconds must not overflow.
#[verifier::external_body]
pub(crate) fn std_duration(duration: ProtoDuration) -> (accepted: Option<Duration>)
    requires
        representable(duration),
    ensures
        accepted == converted(duration),
{
    let ProtoDuration { seconds, nanos } = duration;
    std::time::Duration::try_from(prost_types::Duration { seconds, nanos })
        .ok()
        .map(|accepted| Duration { secs: accepted.as_secs(), nanos: accepted.subsec_nanos() })
}

impl ProtoDuration {
    /// The span of time that this means, if it can be represented and is not negative.
    pub fn to_duration(self) -> (accepted: Option<Duration>)
        ensures
            accepted == converted(self),
            accepted matches Some(duration) ==> duration.wf(),
    {
        let carry: i64 = if self.nanos >= 0 {
            (self.nanos as i64) / 1_000_000_000
        } else {
            -((-(self.nanos as i64)) / 1_000_000_000)
        };
        let seconds: i128 = self.seconds as i128 + carry as i128;
        if seconds > i64::MAX as i128 || seconds < i64::MIN as i128 {
            return None;
        }
        let positive = self.nanos as i64 - carry * 1_000_000_000 > 0;
        if seconds == i64::MIN as i128 && !positive {
            return None;
        }
        std_duration(self)
    }
}

/// The length of a signed span in nanoseconds.
pub open spec fn signed_total(span: ProtoDuration) -> int {
    span.seconds * 1_000_000_000 + span.nanos
}

/// Whether a signed span means a span of time: it is not below a negative second, and its
/// seconds can be counted.
pub open spec fn has_length(span: ProtoDuration) -> bool {
    -1_000_000_000 < signed_total(span) < 0x8000_0000_0000_0000 * 1_000_000_000
}

/// Whether `duration` is what a signed span means: it has the same length, and below a second
/// it counts modulo `2^32` nanoseconds.
pub open spec fn is_length_of(duration: Duration, span: ProtoDuration) -> bool {
    &&& duration.nanos < 1_000_000_000
    &&& duration.secs * 1_000_000_000 + duration.nanos == if signed_total(span) >= 0 {
        signed_total(span)
    } else {
        signed_total(span) + 0x1_0000_0000
    }
}

/// Whether `duration` is the time that a message gives, and none at all if it gives none.
pub open spec fn is_given(duration: Duration, span: Option<ProtoDuration>) -> bool {
    match span {
        Some(span) => if has_length(span) {
            is_length_of(duration, span)
        } else {
            duration.secs == 0 && duration.nanos == 0
        },
        None => duration.secs == 0 && duration.nanos == 0,
    }
}

/// What a span means is its length.
pub proof fn lemma_converted(span: ProtoDuration)
    ensures
        converted(span) is Some <==> has_length(span),
        converted(span) matches Some(duration) ==> is_length_of(duration, span),
{
}

/// A span keeps its length. Only one that is too long, or that is below a negative second, is
/// refused.
pub proof fn law_spans_keep_their_length(span: ProtoDuration, accepted: Option<Duration>)
    requires
        call_ensures(ProtoDuration::to_duration, (span,), accepted),
    ensures
        accepted is Some <==> has_length(span),
        accepted matches Some(duration) ==> is_length_of(duration, span),
{
    lemma_converted(span);
}

/// Seconds are counted in nanoseconds.
pub proof fn law_seconds_are_counted(secs: u64, duration: Duration)
    requires
        call_ensures(Duration::from_secs, (secs,), duration),
    ensures
        duration.total() == secs * 1_000_000_000,
        duration.nanos == 0,
{
}

} // verus!
