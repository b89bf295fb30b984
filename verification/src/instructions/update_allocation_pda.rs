//! Updates of the stored allocation policy.

use vstd::prelude::*;
use crate::error::SaturnFundError;
use crate::instructions::validation::validate_allocation_percentages;
use crate::state::accounts::Pubkey;
use crate::state::allocation::{policy_view, weights_sum, Allocation, AllocationView};

verus! {

/// The stored policy with the principal that may replace it.
#[derive(Debug)]
pub struct UpdateAllocationPda {
    pub allocation_pda: Option<Allocation>,
    pub owner: Pubkey,
}

/// What the market looks like. Percentages are in hundredths of a percent,
/// so that no fraction is needed: a price change of 5% is `500`.
#[derive(Clone, Copy, Debug, PartialEq, Eq, Structural)]
pub struct MarketData {
    pub price_change_percentage: i64,
    pub volatility_index: u64,
    pub economic_stability_index: u64,
    pub performance_index: u64,
}

/// The liquid target before any adjustment.
pub const BASE_TARGET_PERCENTAGE: u8 = 50;

/// The baseline before any adjustment.
pub const BASE_BASELINE_PERCENTAGE: u8 = 30;

/// The reward share before any adjustment.
pub const BASE_REWARD_PERCENTAGE: u8 = 20;

/// A price change beyond this, up or down, moves the liquid target: 5%.
pub const PRICE_CHANGE_THRESHOLD: i64 = 500;

/// A volatility above this lowers the liquid target: 50.
pub const VOLATILITY_THRESHOLD: u64 = 5_000;

/// The liquid target for a market: 50, five less after a price rise of more
/// than 5%, five more after a fall of more than 5%, and five less while
/// volatility is above 50.
pub open spec fn new_target_percentage(market_data: MarketData) -> u8 {
    let after_price: int = if market_data.price_change_percentage > PRICE_CHANGE_THRESHOLD {
        BASE_TARGET_PERCENTAGE - 5
    } else if market_data.price_change_percentage < -PRICE_CHANGE_THRESHOLD {
        BASE_TARGET_PERCENTAGE + 5
    } else {
        BASE_TARGET_PERCENTAGE as int
    };
    if market_data.volatility_index > VOLATILITY_THRESHOLD {
        (after_price - 5) as u8
    } else {
        after_price as u8
    }
}

/// The baseline for a market: 30, ten more while economic stability is above
/// 70, ten less while it is under 30.
pub open spec fn new_baseline_percentage(market_data: MarketData) -> u8 {
    if market_data.economic_stability_index > 70 {
        (BASE_BASELINE_PERCENTAGE + 10) as u8
    } else if market_data.economic_stability_index < 30 {
        (BASE_BASELINE_PERCENTAGE - 10) as u8
    } else {
        BASE_BASELINE_PERCENTAGE
    }
}

/// The reward share for a market: 20, five more while performance is above
/// 80, five less while it is under 50.
pub open spec fn new_reward_percentage(market_data: MarketData) -> u8 {
    if market_data.performance_index > 80 {
        (BASE_REWARD_PERCENTAGE + 5) as u8
    } else if market_data.performance_index < 50 {
        (BASE_REWARD_PERCENTAGE - 5) as u8
    } else {
        BASE_REWARD_PERCENTAGE
    }
}

/// Whatever the market, the percentages derived from it keep the liquid
/// target and the baseline together at or under 100, and the reward share
/// at or under 100.
pub proof fn lemma_market_percentages_fit(market_data: MarketData)
    ensures
        40 <= new_target_percentage(market_data) <= 55,
        20 <= new_baseline_percentage(market_data) <= 40,
        15 <= new_reward_percentage(market_data) <= 25,
        new_target_percentage(market_data) + new_baseline_percentage(market_data) <= 100,
{
}

/// Computes the liquid target for a market.
pub fn calculate_new_target_percentage(market_data: &MarketData) -> (r: u8)
    ensures
        r == new_target_percentage(*market_data),
{
    let after_price: u8 = if market_data.price_change_percentage > PRICE_CHANGE_THRESHOLD {
        BASE_TARGET_PERCENTAGE - 5
    } else if market_data.price_change_percentage < -PRICE_CHANGE_THRESHOLD {
        BASE_TARGET_PERCENTAGE + 5
    } else {
        BASE_TARGET_PERCENTAGE
    };
    if market_data.volatility_index > VOLATILITY_THRESHOLD {
        after_price - 5
    } else {
        after_price
    }
}

/// Computes the baseline for a market.
pub fn calculate_new_baseline_percentage(market_data: &MarketData) -> (r: u8)
    ensures
        r == new_baseline_percentage(*market_data),
{
    if market_data.economic_stability_index > 70 {
        BASE_BASELINE_PERCENTAGE + 10
    } else if market_data.economic_stability_index < 30 {
        BASE_BASELINE_PERCENTAGE - 10
    } else {
        BASE_BASELINE_PERCENTAGE
    }
}

/// Computes the reward share for a market.
pub fn calculate_new_reward_percentage(market_data: &MarketData) -> (r: u8)
    ensures
        r == new_reward_percentage(*market_data),
{
    if market_data.performance_index > 80 {
        BASE_REWARD_PERCENTAGE + 5
    } else if market_data.performance_index < 50 {
        BASE_REWARD_PERCENTAGE - 5
    } else {
        BASE_REWARD_PERCENTAGE
    }
}

/// Replaces the stored policy by `new_allocation`, as one step: the candidate
/// is validated first, and either the whole policy is replaced or nothing
/// changes. Only the recorded owner may update; any other signer is refused
/// with `Unauthorized`. A candidate that breaks the policy's invariant is
/// refused with `InvalidPercentage`.
pub fn handler(ctx: &mut UpdateAllocationPda, signer: &Pubkey, new_allocation: Allocation) -> (r: Result<
    (),
    SaturnFundError,
>)
    ensures
        final(ctx).owner == old(ctx).owner,
        r is Ok <==> *signer == old(ctx).owner && new_allocation@.valid(),
        r is Ok ==> final(ctx).allocation_pda == Some(new_allocation),
        r is Err ==> final(ctx).allocation_pda == old(ctx).allocation_pda,
        r matches Err(e) ==> e == (if *signer != old(ctx).owner {
            SaturnFundError::Unauthorized
        } else {
            SaturnFundError::InvalidPercentage
        }),
{
    if *signer != ctx.owner {
        return Err(SaturnFundError::Unauthorized);
    }
    match validate_allocation_percentages(&new_allocation) {
        Err(e) => {
            return Err(e);
        },
        Ok(()) => {},
    }
    ctx.allocation_pda = Some(new_allocation);
    Ok(())
}

/// What an update from market data answers for the stored policy: the new
/// policy, or why there is none.
pub open spec fn market_update(
    owner: Pubkey,
    allocation: Option<AllocationView>,
    signer: Pubkey,
    market_data: MarketData,
) -> Result<AllocationView, SaturnFundError> {
    if signer != owner {
        Err(SaturnFundError::Unauthorized)
    } else {
        match allocation {
            None => Err(SaturnFundError::PolicyUnset),
            Some(a) => if weights_sum(a.holding_tokens) > 100 {
                Err(SaturnFundError::InvalidPercentage)
            } else {
                Ok(
                    a.with_percentages(
                        new_target_percentage(market_data),
                        new_baseline_percentage(market_data),
                        new_reward_percentage(market_data),
                    ),
                )
            },
        }
    }
}

/// Steers the stored policy by the market: its liquid target, baseline and
/// reward share are replaced by the ones derived from `market_data`; the
/// weights stay. The updated policy satisfies the policy's invariant, or
/// nothing changes. Only the recorded owner may update.
pub fn update_allocation_based_on_market(ctx: &mut UpdateAllocationPda, signer: &Pubkey, market_data: MarketData) -> (r:
    Result<(), SaturnFundError>)
    ensures
        final(ctx).owner == old(ctx).owner,
        match market_update(old(ctx).owner, policy_view(old(ctx).allocation_pda), *signer, market_data) {
            Ok(updated) => r is Ok && policy_view(final(ctx).allocation_pda) == Some(updated)
                && updated.valid(),
            Err(e) => r == Err::<(), SaturnFundError>(e) && final(ctx).allocation_pda == old(
                ctx,
            ).allocation_pda,
        },
{
    if *signer != ctx.owner {
        return Err(SaturnFundError::Unauthorized);
    }
    let target: u8 = calculate_new_target_percentage(&market_data);
    let baseline: u8 = calculate_new_baseline_percentage(&market_data);
    let reward: u8 = calculate_new_reward_percentage(&market_data);
    match ctx.allocation_pda.take() {
        None => Err(SaturnFundError::PolicyUnset),
        Some(mut allocation) => {
            if !allocation.weights_within_whole() {
                ctx.allocation_pda = Some(allocation);
                return Err(SaturnFundError::InvalidPercentage);
            }
            let set: Result<(), SaturnFundError> = allocation.set_percentages(target, baseline, reward);
            ctx.allocation_pda = Some(allocation);
            set
        },
    }
}

} // verus!
