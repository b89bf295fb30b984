//! Validation of a candidate allocation policy.

use vstd::prelude::*;
use crate::error::SaturnFundError;
use crate::state::allocation::{weights_sum, Allocation, AllocationView};

verus! {

/// Among candidates whose weights fit the whole, the liquid target and the
/// baseline decide alone: a candidate is valid exactly when the two are
/// together at most 100.
pub proof fn lemma_target_and_baseline_decide(candidate: AllocationView)
    requires
        weights_sum(candidate.holding_tokens) <= 100,
    ensures
        candidate.valid() <==> candidate.target_amount_percentage + candidate.baseline_amount_percentage
            <= 100,
{
}

/// Checks a candidate policy against the policy's invariant: the liquid
/// target and the baseline together are at most 100, and the per-asset
/// weights together are at most 100. A candidate that breaks either is
/// refused with `InvalidPercentage`; every other candidate is accepted.
pub fn validate_allocation_percentages(allocation: &Allocation) -> (r: Result<(), SaturnFundError>)
    ensures
        allocation@.valid() <==> r is Ok,
        r matches Err(e) ==> e == SaturnFundError::InvalidPercentage,
{
    let target: u16 = allocation.target_amount_percentage() as u16;
    let baseline: u16 = allocation.baseline_amount_percentage() as u16;
    if target + baseline > 100 {
        Err(SaturnFundError::InvalidPercentage)
    } else if !allocation.weights_within_whole() {
        Err(SaturnFundError::InvalidPercentage)
    } else {
        Ok(())
    }
}

} // verus!
