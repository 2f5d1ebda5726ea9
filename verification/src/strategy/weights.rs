//! The weights of a split.

use rand::distributions::WeightedIndex;
use vstd::prelude::*;

verus! {

/// The sum of `weights`.
pub open spec fn total(weights: Seq<u32>) -> nat
    decreases weights.len(),
{
    if weights.len() == 0 {
        0
    } else {
        total(weights.drop_last()) + weights.last() as nat
    }
}

/// `rand::distributions::WeightedIndex::new` accepts weights unless there are none or all of
/// them are zero. Their sum must not overflow.
#[verifier::external_body]
pub(crate) fn weighs(weights: &Vec<u32>) -> (accepted: bool)
    requires
        total(weights@) <= u32::MAX,
    ensures
        accepted == (total(weights@) > 0),
{
    WeightedIndex::<u32>::new(weights).is_ok()
}

} // verus!
