//! The fee ledger: how collected rewards are split between the reward
//! destination and the fund.

use vstd::prelude::*;
use crate::error::SaturnFundError;
use crate::ratio::{lemma_floor_bounds, lemma_mul_div_le, percent_of, percentage_of_amount};
use crate::state::accounts::Pubkey;
use crate::state::allocation::{policy_view, Allocation, AllocationView};

verus! {

/// The reward share of `rewards`: `rewards * percentage / 100`, rounded down.
pub open spec fn reward_share(rewards: u64, percentage: u8) -> int {
    percent_of(rewards as int, percentage as int)
}

/// What the fee ledger has seen so far.
pub struct FeeStateView {
    pub rewards_collected: nat,
    pub reward_amount: nat,
    pub remaining_amount: nat,
}

impl FeeStateView {
    /// The ledger's invariant: what went to the reward destination and what
    /// stayed with the fund are together what was collected.
    pub open spec fn balanced(self) -> bool {
        self.reward_amount + self.remaining_amount == self.rewards_collected
    }

    /// The ledger after one more collection.
    pub open spec fn after(self, rewards: u64, percentage: u8) -> FeeStateView {
        FeeStateView {
            rewards_collected: (self.rewards_collected + rewards) as nat,
            reward_amount: (self.reward_amount + reward_share(rewards, percentage)) as nat,
            remaining_amount: (self.remaining_amount + rewards - reward_share(rewards, percentage)) as nat,
        }
    }
}

/// The accumulated fee state: everything collected so far, and how it was
/// split.
#[derive(Debug)]
pub struct FeeState {
    rewards_collected: u64,
    reward_amount: u64,
    remaining_amount: u64,
}

impl View for FeeState {
    type V = FeeStateView;

    closed spec fn view(&self) -> FeeStateView {
        FeeStateView {
            rewards_collected: self.rewards_collected as nat,
            reward_amount: self.reward_amount as nat,
            remaining_amount: self.remaining_amount as nat,
        }
    }
}

/// One collection, split.
#[derive(Clone, Copy, Debug, PartialEq, Eq, Structural)]
pub struct RewardDistribution {
    /// What goes to the reward destination.
    pub reward_amount: u64,
    /// Where it goes.
    pub reward_destination: Pubkey,
    /// What stays with the fund.
    pub remaining_rewards: u64,
}

/// A split is exact: the two parts are together what was collected, and
/// rounding never favours the reward destination.
pub proof fn lemma_collect_partitions(rewards: u64, percentage: u8)
    requires
        percentage <= 100,
    ensures
        0 <= reward_share(rewards, percentage) <= rewards,
        reward_share(rewards, percentage) + (rewards - reward_share(rewards, percentage)) == rewards,
        reward_share(rewards, percentage) * 100 <= rewards * percentage,
        rewards * percentage < reward_share(rewards, percentage) * 100 + 100,
{
    lemma_mul_div_le(rewards as int, percentage as int, 100);
    assert(0 <= rewards * percentage) by (nonlinear_arith);
    lemma_floor_bounds(rewards * percentage, 100);
}

impl FeeState {
    #[verifier::type_invariant]
    closed spec fn inv(self) -> bool {
        self.reward_amount + self.remaining_amount == self.rewards_collected
    }

    /// A ledger that has seen nothing.
    pub fn new() -> (s: FeeState)
        ensures
            s@ == (FeeStateView { rewards_collected: 0, reward_amount: 0, remaining_amount: 0 }),
    {
        FeeState { rewards_collected: 0, reward_amount: 0, remaining_amount: 0 }
    }

    /// The ledger that recorded parts stand for. Parts of which the reward
    /// share and the fund's share are not together what was collected are
    /// refused with `InvalidAccountData`.
    pub fn restore(rewards_collected: u64, reward_amount: u64, remaining_amount: u64) -> (r: Result<
        FeeState,
        SaturnFundError,
    >)
        ensures
            reward_amount + remaining_amount == rewards_collected <==> r is Ok,
            r matches Ok(s) ==> s@ == (FeeStateView {
                rewards_collected: rewards_collected as nat,
                reward_amount: reward_amount as nat,
                remaining_amount: remaining_amount as nat,
            }),
            r matches Err(e) ==> e == SaturnFundError::InvalidAccountData,
    {
        let balanced: bool = match reward_amount.checked_add(remaining_amount) {
            Some(sum) => sum == rewards_collected,
            None => false,
        };
        if balanced {
            Ok(FeeState { rewards_collected, reward_amount, remaining_amount })
        } else {
            Err(SaturnFundError::InvalidAccountData)
        }
    }

    /// Everything collected so far.
    pub fn rewards_collected(&self) -> (r: u64)
        ensures
            r == self@.rewards_collected,
            self@.balanced(),
    {
        proof {
            use_type_invariant(self);
        }
        self.rewards_collected
    }

    /// What went to the reward destination so far.
    pub fn reward_amount(&self) -> (r: u64)
        ensures
            r == self@.reward_amount,
    {
        self.reward_amount
    }

    /// What stayed with the fund so far.
    pub fn remaining_amount(&self) -> (r: u64)
        ensures
            r == self@.remaining_amount,
    {
        self.remaining_amount
    }

    /// What `collect` answers.
    pub open spec fn collect_spec(state: FeeStateView, rewards: u64, percentage: u8) -> Result<
        (u64, u64),
        SaturnFundError,
    > {
        if percentage > 100 {
            Err(SaturnFundError::InvalidPercentage)
        } else if state.rewards_collected + rewards > u64::MAX {
            Err(SaturnFundError::Overflow)
        } else {
            Ok(
                (
                    reward_share(rewards, percentage) as u64,
                    (rewards - reward_share(rewards, percentage)) as u64,
                ),
            )
        }
    }

    /// Splits collected rewards: `rewards * percentage / 100` for the reward
    /// destination, the rest for the fund, and records both. A percentage
    /// above 100 is refused with `InvalidPercentage`, and a collection that
    /// the ledger cannot count with `Overflow`; the ledger is then unchanged.
    pub fn collect(&mut self, rewards: u64, percentage: u8) -> (r: Result<(u64, u64), SaturnFundError>)
        ensures
            r == Self::collect_spec(old(self)@, rewards, percentage),
            r is Ok ==> final(self)@ == old(self)@.after(rewards, percentage),
            r is Err ==> final(self)@ == old(self)@,
            final(self)@.balanced(),
    {
        proof {
            use_type_invariant(&*self);
        }
        if percentage > 100 {
            return Err(SaturnFundError::InvalidPercentage);
        }
        let collected: u64 = match self.rewards_collected.checked_add(rewards) {
            Some(v) => v,
            None => {
                return Err(SaturnFundError::Overflow);
            },
        };
        let reward: u64 = percentage_of_amount(rewards, percentage);
        let remaining: u64 = rewards - reward;
        *self = FeeState {
            rewards_collected: collected,
            reward_amount: self.reward_amount + reward,
            remaining_amount: self.remaining_amount + remaining,
        };
        Ok((reward, remaining))
    }
}

/// What a collection reads and changes: the fund's recorded owner, the stored
/// policy, and the fee ledger.
#[derive(Debug)]
pub struct CollectLiquidityPoolRewards {
    pub owner: Pubkey,
    pub allocation: Option<Allocation>,
    pub fees: FeeState,
}

/// How a collection of `rewards` is split under the stored policy.
pub open spec fn distribution(allocation: Option<AllocationView>, rewards: u64) -> Result<
    RewardDistribution,
    SaturnFundError,
> {
    match allocation {
        None => Err(SaturnFundError::PolicyUnset),
        Some(a) => if a.liquidity_pool_reward_percentage > 100 {
            Err(SaturnFundError::InvalidPercentage)
        } else {
            Ok(
                RewardDistribution {
                    reward_amount: reward_share(rewards, a.liquidity_pool_reward_percentage) as u64,
                    reward_destination: a.liquidity_pool_reward_destination,
                    remaining_rewards: (rewards - reward_share(rewards, a.liquidity_pool_reward_percentage)) as u64,
                },
            )
        },
    }
}

/// What a collection by `signer` answers.
pub open spec fn collection(
    owner: Pubkey,
    allocation: Option<AllocationView>,
    fees: FeeStateView,
    signer: Pubkey,
    rewards: u64,
) -> Result<RewardDistribution, SaturnFundError> {
    if signer != owner {
        Err(SaturnFundError::Unauthorized)
    } else {
        match distribution(allocation, rewards) {
            Err(e) => Err(e),
            Ok(d) => if fees.rewards_collected + rewards > u64::MAX {
                Err(SaturnFundError::Overflow)
            } else {
                Ok(d)
            },
        }
    }
}

/// Splits collected rewards between the policy's reward destination and the
/// fund, and records the collection in the fee ledger. Only the fund's owner
/// may collect; anyone else is refused with `Unauthorized`. When the call
/// fails nothing is recorded.
pub fn collect_liquidity_pool_rewards(ctx: &mut CollectLiquidityPoolRewards, signer: &Pubkey, rewards: u64) -> (r:
    Result<RewardDistribution, SaturnFundError>)
    ensures
        r == collection(old(ctx).owner, policy_view(old(ctx).allocation), old(ctx).fees@, *signer, rewards),
        final(ctx).owner == old(ctx).owner,
        final(ctx).allocation == old(ctx).allocation,
        r is Ok ==> final(ctx).fees@ == old(ctx).fees@.after(
            rewards,
            old(ctx).allocation->Some_0@.liquidity_pool_reward_percentage,
        ),
        r is Err ==> final(ctx).fees@ == old(ctx).fees@,
        final(ctx).fees@.balanced(),
{
    if *signer != ctx.owner {
        proof {
            use_type_invariant(&ctx.fees);
        }
        return Err(SaturnFundError::Unauthorized);
    }
    let (percentage, destination): (u8, Pubkey) = match &ctx.allocation {
        None => {
            proof {
                use_type_invariant(&ctx.fees);
            }
            return Err(SaturnFundError::PolicyUnset);
        },
        Some(a) => (a.liquidity_pool_reward_percentage(), a.liquidity_pool_reward_destination()),
    };
    match ctx.fees.collect(rewards, percentage) {
        Err(e) => Err(e),
        Ok((reward, remaining)) => Ok(
            RewardDistribution {
                reward_amount: reward,
                reward_destination: destination,
                remaining_rewards: remaining,
            },
        ),
    }
}

/// Computes how `rewards` are split under the stored policy, and where the
/// reward share goes, without recording anything.
pub fn distribute_rewards(ctx: &CollectLiquidityPoolRewards, rewards: u64) -> (r: Result<
    RewardDistribution,
    SaturnFundError,
>)
    ensures
        r == distribution(policy_view(ctx.allocation), rewards),
{
    match &ctx.allocation {
        None => Err(SaturnFundError::PolicyUnset),
        Some(a) => {
            let reward: u64 = percentage_of_amount(rewards, a.liquidity_pool_reward_percentage());
            Ok(
                RewardDistribution {
                    reward_amount: reward,
                    reward_destination: a.liquidity_pool_reward_destination(),
                    remaining_rewards: rewards - reward,
                },
            )
        },
    }
}

/// Computes the reward share of `rewards` under the stored policy:
/// `rewards * reward_percentage / 100`.
pub fn dynamic_liquidity_reward_calculation(ctx: &CollectLiquidityPoolRewards, rewards: u64) -> (r: Result<
    u64,
    SaturnFundError,
>)
    ensures
        r == (match distribution(policy_view(ctx.allocation), rewards) {
            Ok(d) => Ok::<u64, SaturnFundError>(d.reward_amount),
            Err(e) => Err(e),
        }),
{
    match distribute_rewards(ctx, rewards) {
        Ok(d) => Ok(d.reward_amount),
        Err(e) => Err(e),
    }
}

} // verus!
