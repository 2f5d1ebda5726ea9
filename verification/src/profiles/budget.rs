//! How many requests may be retried.

use super::api;
use crate::time::{self, Duration};
use vstd::prelude::*;

verus! {

/// The settings of a retry budget. The ratio is the bits of a single precision number.
#[derive(Clone, Copy, Debug, PartialEq, Eq, Structural)]
pub struct BudgetParams {
    pub ttl: Duration,
    pub min_retries: u32,
    pub retry_ratio: u32,
}

/// The bits of the single precision number `1000`.
pub const THOUSAND: u32 = 0x447a_0000;

/// The bits of the single precision number `-0`.
pub const NEGATIVE_ZERO: u32 = 0x8000_0000;

/// The shortest time that a budget remembers, in seconds.
pub const MIN_TTL: u64 = 1;

/// The longest time that a budget remembers, in seconds.
pub const MAX_TTL: u64 = 60;

/// Whether the bits are those of a single precision number between `0` and `1000`. Numbers
/// that are not negative are ordered as their bits are.
pub open spec fn is_ratio(bits: u32) -> bool {
    bits <= THOUSAND || bits == NEGATIVE_ZERO
}

/// Whether a budget can remember for `ttl`.
pub open spec fn is_ttl(ttl: Duration) -> bool {
    MIN_TTL * time::NANOS_PER_SEC <= ttl.total() <= MAX_TTL * time::NANOS_PER_SEC
}

/// The settings that a message means, if a budget can have them.
pub open spec fn converted(orig: api::RetryBudget) -> Option<BudgetParams> {
    let ttl = match orig.ttl {
        Some(ttl) => time::converted(ttl),
        None => None,
    };
    match ttl {
        Some(ttl) if orig.min_retries_per_second < i32::MAX && is_ratio(orig.retry_ratio)
            && is_ttl(ttl) => Some(
            BudgetParams {
                ttl,
                min_retries: orig.min_retries_per_second,
                retry_ratio: orig.retry_ratio,
            },
        ),
        _ => None,
    }
}

/// The settings that a message means, if a budget can have them.
pub fn convert_retry_budget(orig: api::RetryBudget) -> (budget: Option<BudgetParams>)
    ensures
        budget == converted(orig),
{
    if orig.min_retries_per_second >= i32::MAX as u32 {
        return None;
    }
    if !(orig.retry_ratio <= THOUSAND || orig.retry_ratio == NEGATIVE_ZERO) {
        return None;
    }
    match orig.ttl {
        None => None,
        Some(ttl) => match ttl.to_duration() {
            None => None,
            Some(ttl) => {
                let too_long = ttl.secs > MAX_TTL || (ttl.secs == MAX_TTL && ttl.nanos > 0);
                if too_long || ttl.secs < MIN_TTL {
                    return None;
                }
                Some(
                    BudgetParams {
                        ttl,
                        min_retries: orig.min_retries_per_second,
                        retry_ratio: orig.retry_ratio,
                    },
                )
            },
        },
    }
}

} // verus!
