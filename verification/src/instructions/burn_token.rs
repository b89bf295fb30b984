//! Redemptions: what a number of shares is owed, what is paid out, and how a
//! shortfall of the liquid reserve is raised.

use vstd::prelude::*;
use crate::error::SaturnFundError;
use crate::instructions::manage_transaction_account::{baseline_top_up, settle_against_baseline};
use crate::instructions::mint_token::{deposit, lemma_mint_conserves_value};
use crate::instructions::program_calls::{spec_token_program_id, token_burn};
use crate::instructions::validation::validate_allocation_percentages;
use crate::services::price_stream_service::le_u64;
use crate::state::accounts::Pubkey;
use crate::state::instruction::Instruction;
use crate::ratio::{
    lemma_floor_bounds,
    lemma_mul_div_le,
    mul_div,
    percent_of,
    percentage_of_amount,
    share_of,
};
use crate::state::accounts::{HoldingsLedger, LedgerView};
use crate::state::allocation::{policy_view, Allocation, AllocationView};

verus! {

/// What a redemption reads: the priced holdings, the number of shares in
/// circulation, the shares that the redeemer owns, and the stored policy.
#[derive(Debug)]
pub struct BurnToken {
    pub ledger: HoldingsLedger,
    pub supply: u64,
    pub user_shares: u64,
    pub allocation: Option<Allocation>,
}

/// How a redemption settles.
#[derive(Clone, Copy, Debug, PartialEq, Eq, Structural)]
pub struct BurnReceipt {
    /// What the redeemed shares are worth.
    pub owed: u64,
    /// The fee kept from the proceeds; it stays in the fund's reserve.
    pub fee: u64,
    /// What is paid out to the redeemer: `owed - fee`.
    pub transferred: u64,
    /// What has to be moved into the reserve in the same transaction for the
    /// baseline to hold.
    pub top_up: u64,
    /// The shares in circulation after the redemption.
    pub supply_after: u64,
    /// The liquid reserve after the redemption.
    pub reserve_after: u64,
    /// The fund's total value after the redemption.
    pub total_value_after: u64,
}

/// How a shortfall of the liquid reserve is raised.
#[derive(Clone, Copy, Debug, PartialEq, Eq, Structural)]
pub struct LiquidationPlan {
    /// The value to raise by selling holdings at the venue.
    pub from_holdings: u64,
    /// The value to take from the fund's other reserve assets.
    pub from_reserve_assets: u64,
}

/// What `shares` of `supply` are worth in a fund worth `total_value`.
pub open spec fn owed_for(shares: int, supply: int, total_value: int) -> int {
    mul_div(shares, total_value, supply)
}

/// How a redemption of `shares` settles.
pub open spec fn redeem(
    ledger: LedgerView,
    supply: u64,
    user_shares: u64,
    allocation: Option<AllocationView>,
    shares: u64,
) -> Result<BurnReceipt, SaturnFundError> {
    match allocation {
        None => Err(SaturnFundError::PolicyUnset),
        Some(a) => if !a.valid() {
            Err(SaturnFundError::InvalidPercentage)
        } else if a.rules.transfer_fee_percentage > 100 {
            Err(SaturnFundError::InvalidPercentage)
        } else if ledger.total_value() > u64::MAX {
            Err(SaturnFundError::ValueOverflow)
        } else if supply == 0 {
            Err(SaturnFundError::DivisionByZero)
        } else if shares > user_shares || shares > supply {
            Err(SaturnFundError::InsufficientFunds)
        } else {
            let total = ledger.total_value() as int;
            let owed = owed_for(shares as int, supply as int, total);
            if ledger.reserve < owed {
                Err(
                    SaturnFundError::PartialRedemptionShortfall {
                        shortfall: (owed - ledger.reserve) as u64,
                    },
                )
            } else {
                let fee = percent_of(owed, a.rules.transfer_fee_percentage as int);
                let transferred = owed - fee;
                match baseline_top_up(ledger.reserve - transferred, total - transferred, a) {
                    Err(e) => Err(e),
                    Ok(top_up) => Ok(
                        BurnReceipt {
                            owed: owed as u64,
                            fee: fee as u64,
                            transferred: transferred as u64,
                            top_up,
                            supply_after: (supply - shares) as u64,
                            reserve_after: (ledger.reserve - transferred) as u64,
                            total_value_after: (total - transferred) as u64,
                        },
                    ),
                }
            }
        },
    }
}

/// A redemption that the liquid reserve covers takes out of the fund exactly
/// what it pays: the total value and the reserve fall by the transferred
/// amount, the supply falls by the redeemed shares, and what is owed is split
/// without remainder into the payout and the fee.
pub proof fn lemma_redeem_is_exact(
    ledger: LedgerView,
    supply: u64,
    user_shares: u64,
    allocation: Option<AllocationView>,
    shares: u64,
)
    requires
        redeem(ledger, supply, user_shares, allocation, shares) is Ok,
    ensures
        ({
            let receipt = redeem(ledger, supply, user_shares, allocation, shares)->Ok_0;
            &&& receipt.owed == owed_for(shares as int, supply as int, ledger.total_value() as int)
            &&& receipt.owed <= ledger.reserve
            &&& receipt.transferred + receipt.fee == receipt.owed
            &&& receipt.total_value_after == ledger.total_value() - receipt.transferred
            &&& receipt.reserve_after == ledger.reserve - receipt.transferred
            &&& receipt.supply_after == supply - shares
            &&& (LedgerView { reserve: receipt.reserve_after as nat, ..ledger }).total_value()
                == receipt.total_value_after
        }),
{
    let a = allocation->Some_0;
    let total = ledger.total_value() as int;
    let owed = owed_for(shares as int, supply as int, total);
    lemma_mul_div_le(total, shares as int, supply as int);
    assert(shares * total == total * shares) by (nonlinear_arith);
    lemma_mul_div_le(owed, a.rules.transfer_fee_percentage as int, 100);
}

/// A redemption settles whenever a valid policy is stored, the fund's value
/// fits in 64 bits, the redeemer owns the shares, the reserve covers what is
/// owed and the baseline does not block. The fund's value and its reserve
/// then fall by exactly what is paid out, the supply by the redeemed shares,
/// and no holding but the reserve changes.
pub proof fn lemma_redemption_is_owed(
    ledger: LedgerView,
    supply: u64,
    user_shares: u64,
    allocation: AllocationView,
    shares: u64,
)
    requires
        allocation.valid(),
        allocation.wf(),
        ledger.total_value() <= u64::MAX,
        0 < supply,
        shares <= user_shares,
        shares <= supply,
        owed_for(shares as int, supply as int, ledger.total_value() as int) <= ledger.reserve,
        ({
            let owed = owed_for(shares as int, supply as int, ledger.total_value() as int);
            let paid = owed - percent_of(owed, allocation.rules.transfer_fee_percentage as int);
            baseline_top_up(ledger.reserve - paid, ledger.total_value() - paid, allocation) is Ok
        }),
    ensures
        redeem(ledger, supply, user_shares, Some(allocation), shares) is Ok,
        ({
            let receipt = redeem(ledger, supply, user_shares, Some(allocation), shares)->Ok_0;
            let after = LedgerView { reserve: receipt.reserve_after as nat, ..ledger };
            &&& receipt.owed == owed_for(shares as int, supply as int, ledger.total_value() as int)
            &&& receipt.fee == percent_of(receipt.owed as int, allocation.rules.transfer_fee_percentage as int)
            &&& receipt.transferred == receipt.owed - receipt.fee
            &&& ledger.total_value() - receipt.total_value_after == receipt.transferred
            &&& ledger.reserve - receipt.reserve_after == receipt.transferred
            &&& supply - receipt.supply_after == shares
            &&& after.positions == ledger.positions
            &&& after.total_value() == receipt.total_value_after
        }),
{
    lemma_redeem_is_exact(ledger, supply, user_shares, Some(allocation), shares);
    let total = ledger.total_value() as int;
    let owed = owed_for(shares as int, supply as int, total);
    lemma_mul_div_le(total, shares as int, supply as int);
    assert(shares * total == total * shares) by (nonlinear_arith);
    lemma_mul_div_le(owed, allocation.rules.transfer_fee_percentage as int, 100);
}

/// A redemption that the reserve does not cover pays nothing and reports
/// exactly what is missing: what the shares are owed less the reserve. What
/// has been raised since an earlier request stands in the reserve of the
/// ledger that the next request reads: where `raised` was moved into the
/// reserve at unchanged total value and the reserve is still short, the
/// report is the earlier shortfall less what was raised.
pub proof fn lemma_shortfall_is_reported(
    ledger: LedgerView,
    later: LedgerView,
    raised: nat,
    supply: u64,
    user_shares: u64,
    allocation: AllocationView,
    shares: u64,
)
    requires
        allocation.valid(),
        allocation.wf(),
        ledger.total_value() <= u64::MAX,
        0 < supply,
        shares <= user_shares,
        shares <= supply,
        later.total_value() == ledger.total_value(),
        later.reserve == ledger.reserve + raised,
        later.reserve < owed_for(shares as int, supply as int, ledger.total_value() as int),
    ensures
        redeem(ledger, supply, user_shares, Some(allocation), shares) == Err::<BurnReceipt, SaturnFundError>(
            SaturnFundError::PartialRedemptionShortfall {
                shortfall: (owed_for(shares as int, supply as int, ledger.total_value() as int)
                    - ledger.reserve) as u64,
            },
        ),
        redeem(later, supply, user_shares, Some(allocation), shares) == Err::<BurnReceipt, SaturnFundError>(
            SaturnFundError::PartialRedemptionShortfall {
                shortfall: (owed_for(shares as int, supply as int, ledger.total_value() as int)
                    - ledger.reserve - raised) as u64,
            },
        ),
        owed_for(shares as int, supply as int, ledger.total_value() as int) - ledger.reserve - raised > 0,
        owed_for(shares as int, supply as int, ledger.total_value() as int) <= u64::MAX,
{
    let total = ledger.total_value() as int;
    lemma_mul_div_le(total, shares as int, supply as int);
    assert(shares * total == total * shares) by (nonlinear_arith);
}

/// A redemption that settles never leaves shares without value behind them:
/// while shares remain the fund keeps value, and when the last share is
/// redeemed the fund keeps the fee and nothing else.
pub proof fn lemma_redeem_keeps_shares_backed(
    ledger: LedgerView,
    supply: u64,
    user_shares: u64,
    allocation: Option<AllocationView>,
    shares: u64,
)
    requires
        redeem(ledger, supply, user_shares, allocation, shares) is Ok,
        ledger.total_value() > 0,
    ensures
        ({
            let receipt = redeem(ledger, supply, user_shares, allocation, shares)->Ok_0;
            &&& receipt.supply_after > 0 ==> receipt.total_value_after > 0
            &&& receipt.supply_after == 0 ==> receipt.total_value_after == receipt.fee
        }),
{
    lemma_redeem_is_exact(ledger, supply, user_shares, allocation, shares);
    let total = ledger.total_value() as int;
    let s = supply as int;
    let k = shares as int;
    assert(0 <= k * total) by (nonlinear_arith)
        requires
            0 <= k,
            0 <= total,
    ;
    lemma_floor_bounds(k * total, s);
    if k < s {
        assert((k * total) / s < total) by (nonlinear_arith)
            requires
                ((k * total) / s) * s <= k * total,
                0 <= k < s,
                0 < total,
        ;
    } else {
        assert((k * total) / s == total) by (nonlinear_arith)
            requires
                k == s,
                0 < s,
                ((k * total) / s) * s <= k * total,
                k * total < ((k * total) / s) * s + s,
        ;
    }
}

/// The ledger after a deposit of `amount`, before any of it is traded.
pub open spec fn ledger_after_deposit(ledger: LedgerView, amount: u64) -> LedgerView {
    LedgerView { reserve: (ledger.reserve + amount) as nat, ..ledger }
}

/// Round trip: the shares that a deposit mints, redeemed at once at unchanged
/// prices, are owed the deposit back, less only what the truncation of the
/// share count and of the payout takes. They are never owed more than was
/// deposited, and the loss is under the value of one share plus one unit.
/// The reserve always covers such a redemption: it is paid what is owed less
/// only the policy's fee, unless the baseline blocks it.
pub proof fn lemma_round_trip(
    ledger: LedgerView,
    supply: u64,
    allocation: Option<AllocationView>,
    amount: u64,
)
    requires
        deposit(ledger, supply, allocation, amount) is Ok,
        supply == 0 ==> ledger.total_value() == 0,
        deposit(ledger, supply, allocation, amount)->Ok_0.supply_after > 0,
        allocation matches Some(a) && a.wf(),
    ensures
        ({
            let receipt = deposit(ledger, supply, allocation, amount)->Ok_0;
            let owed = owed_for(
                receipt.shares_minted as int,
                receipt.supply_after as int,
                receipt.total_value_after as int,
            );
            &&& 0 <= owed <= amount
            &&& owed <= ledger.reserve + amount
            &&& (amount - owed) * receipt.supply_after < ledger.total_value() + receipt.supply_after
            &&& amount - owed <= ledger.total_value() as int / receipt.supply_after as int + 1
            &&& redeem(
                ledger_after_deposit(ledger, amount),
                receipt.supply_after,
                receipt.shares_minted,
                allocation,
                receipt.shares_minted,
            ) is Ok <==> baseline_top_up(
                ledger.reserve + amount - (owed - percent_of(
                    owed,
                    allocation->Some_0.rules.transfer_fee_percentage as int,
                )),
                receipt.total_value_after - (owed - percent_of(
                    owed,
                    allocation->Some_0.rules.transfer_fee_percentage as int,
                )),
                allocation->Some_0,
            ) is Ok
            &&& match redeem(
                ledger_after_deposit(ledger, amount),
                receipt.supply_after,
                receipt.shares_minted,
                allocation,
                receipt.shares_minted,
            ) {
                Ok(back) => {
                    &&& back.owed == owed
                    &&& back.fee == percent_of(owed, allocation->Some_0.rules.transfer_fee_percentage as int)
                    &&& back.transferred == owed - back.fee
                    &&& back.supply_after == supply
                },
                Err(e) => e == SaturnFundError::BelowBaseline,
            }
        }),
{
    lemma_mint_conserves_value(ledger, supply, allocation, amount);
    let receipt = deposit(ledger, supply, allocation, amount)->Ok_0;
    let m = receipt.shares_minted as int;
    let s = receipt.supply_after as int;
    let t = receipt.total_value_after as int;
    let a = amount as int;
    let before = ledger.total_value() as int;
    assert(0 <= m * t) by (nonlinear_arith)
        requires
            0 <= m,
            0 <= t,
    ;
    lemma_floor_bounds(m * t, s);
    let owed = (m * t) / s;
    assert(owed <= a) by (nonlinear_arith)
        requires
            owed * s <= m * t,
            m * t <= a * s,
            0 < s,
    ;
    assert((a - owed) * s < before + s) by (nonlinear_arith)
        requires
            m * t < owed * s + s,
            a * s - m * t <= before,
            0 < s,
    ;
    let after = ledger_after_deposit(ledger, amount);
    assert(after.total_value() == t);
    lemma_mul_div_le(owed, allocation->Some_0.rules.transfer_fee_percentage as int, 100);
    assert(a - owed <= before / s + 1) by (nonlinear_arith)
        requires
            (a - owed) * s < before + s,
            0 < s,
            0 <= before,
    ;
}

/// Decides how a redemption of `shares` settles. The shares are owed
/// `shares * total_value / supply`. Where the liquid reserve covers that, the
/// redeemer is paid what is owed less the policy's fee, which stays in the
/// fund. Where it does not, nothing is paid and the exact shortfall is
/// reported as `PartialRedemptionShortfall`.
///
/// Fails with `PolicyUnset` where no policy is stored, `InvalidPercentage`
/// where the stored policy breaks its invariant, `ValueOverflow` where the
/// fund's value does not fit, `DivisionByZero` where no share exists,
/// `InsufficientFunds` where more shares are redeemed than the redeemer owns
/// or than exist, and `BelowBaseline` where the payout would leave the
/// reserve under the baseline and the policy blocks.
pub fn handler(ctx: &BurnToken, shares: u64) -> (r: Result<BurnReceipt, SaturnFundError>)
    ensures
        r == redeem(ctx.ledger@, ctx.supply, ctx.user_shares, policy_view(ctx.allocation), shares),
{
    let allocation: &Allocation = match &ctx.allocation {
        None => {
            return Err(SaturnFundError::PolicyUnset);
        },
        Some(a) => a,
    };
    match validate_allocation_percentages(allocation) {
        Err(e) => {
            return Err(e);
        },
        Ok(()) => {},
    }
    let fee_percentage: u8 = allocation.rules().transfer_fee_percentage;
    let total: u64 = match ctx.ledger.total_value() {
        Ok(v) => v,
        Err(e) => {
            return Err(e);
        },
    };
    if ctx.supply == 0 {
        return Err(SaturnFundError::DivisionByZero);
    }
    if shares > ctx.user_shares || shares > ctx.supply {
        return Err(SaturnFundError::InsufficientFunds);
    }
    let owed: u64 = calculate_solana_equivalent(shares, ctx.supply, total)?;
    let liquid: u64 = ctx.ledger.reserve();
    if liquid < owed {
        return Err(SaturnFundError::PartialRedemptionShortfall { shortfall: owed - liquid });
    }
    let fee: u64 = percentage_of_amount(owed, fee_percentage);
    let transferred: u64 = owed - fee;
    let top_up: u64 = settle_against_baseline(liquid - transferred, total - transferred, allocation)?;
    Ok(
        BurnReceipt {
            owed,
            fee,
            transferred,
            top_up,
            supply_after: ctx.supply - shares,
            reserve_after: liquid - transferred,
            total_value_after: total - transferred,
        },
    )
}

/// What redeemed shares are owed for given numbers.
pub open spec fn owed_amount(shares: u64, supply: u64, total_value: u64) -> Result<u64, SaturnFundError> {
    if supply == 0 {
        Err(SaturnFundError::DivisionByZero)
    } else if shares > supply {
        Err(SaturnFundError::InsufficientFunds)
    } else {
        Ok(owed_for(shares as int, supply as int, total_value as int) as u64)
    }
}

/// Computes what `shares` of `supply` are worth in a fund worth
/// `total_value`: `shares * total_value / supply`, which is never more than
/// the fund's value. Fails with `DivisionByZero` where no share exists, and
/// with `InsufficientFunds` where more shares are named than exist.
pub fn calculate_solana_equivalent(shares: u64, supply: u64, total_value: u64) -> (r: Result<u64, SaturnFundError>)
    ensures
        r == owed_amount(shares, supply, total_value),
        r matches Ok(owed) ==> owed == owed_for(shares as int, supply as int, total_value as int) && owed
            <= total_value,
{
    if supply == 0 {
        return Err(SaturnFundError::DivisionByZero);
    }
    if shares > supply {
        return Err(SaturnFundError::InsufficientFunds);
    }
    proof {
        assert(shares * total_value == total_value * shares) by (nonlinear_arith);
    }
    Ok(share_of(total_value, shares, supply))
}

/// Splits a shortfall of the liquid reserve between a sale of holdings and
/// the fund's other reserve assets: the policy's share of it is raised by
/// selling, the rest is taken from reserve assets, and the two together are
/// exactly the shortfall.
pub fn liquidate_holding_tokens(shortfall: u64, allocation: &Allocation) -> (plan: LiquidationPlan)
    ensures
        plan.from_holdings == percent_of(
            shortfall as int,
            allocation@.rules.shortfall_sale_percentage as int,
        ),
        plan.from_holdings + plan.from_reserve_assets == shortfall,
{
    let from_holdings: u64 = percentage_of_amount(shortfall, allocation.rules().shortfall_sale_percentage);
    LiquidationPlan { from_holdings, from_reserve_assets: shortfall - from_holdings }
}

/// Whether `ix` is the token program's burning of `amount` of `mint` from
/// `account`, signed by the account's `authority`.
pub open spec fn is_burn(
    ix: Instruction,
    program: Pubkey,
    account: Pubkey,
    mint: Pubkey,
    authority: Pubkey,
    amount: u64,
) -> bool {
    &&& program.spells(ix.program_id@)
    &&& ix.accounts@.len() == 3
    &&& ix.accounts@[0].names(account, false, true)
    &&& ix.accounts@[1].names(mint, false, true)
    &&& ix.accounts@[2].names(authority, true, false)
    &&& ix.data@.len() == 9
    &&& ix.data@[0] == 8
    &&& le_u64(ix.data@, 1) == amount
}

/// Builds the instruction that burns `shares` shares from the redeemer's
/// share account, signed by the redeemer. Any program but the token program
/// is refused with `IncorrectProgramId`.
pub fn burn_shares(
    token_program: &Pubkey,
    user_token_account: &Pubkey,
    mint: &Pubkey,
    user: &Pubkey,
    shares: u64,
) -> (r: Result<Instruction, SaturnFundError>)
    ensures
        r is Ok <==> *token_program == spec_token_program_id(),
        r matches Ok(ix) ==> is_burn(ix, *token_program, *user_token_account, *mint, *user, shares),
        r matches Err(e) ==> e == SaturnFundError::IncorrectProgramId,
{
    match token_burn(
        &token_program.to_bytes(),
        &user_token_account.to_bytes(),
        &mint.to_bytes(),
        &user.to_bytes(),
        shares,
    ) {
        Ok(ix) => Ok(ix),
        Err(_) => Err(SaturnFundError::IncorrectProgramId),
    }
}

} // verus!
