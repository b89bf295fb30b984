//! Deposits: how many shares a deposit mints, and where the deposited amount
//! goes.

use vstd::prelude::*;
use crate::error::SaturnFundError;
use crate::instructions::manage_transaction_account::{baseline_top_up, settle_against_baseline};
use crate::instructions::program_calls::{spec_token_program_id, token_mint_to};
use crate::instructions::validation::validate_allocation_percentages;
use crate::state::accounts::Pubkey;
use crate::state::instruction::Instruction;
use crate::ratio::{checked_mul_div, lemma_floor_bounds, mul_div, percent_of, percentage_of_amount};
use crate::services::price_stream_service::{le_u64, read_u64_le};
use crate::state::accounts::{HoldingsLedger, LedgerView};
use crate::state::allocation::{policy_view, Allocation, AllocationView};

verus! {

/// What a deposit reads: the priced holdings, the number of shares in
/// circulation, and the stored policy.
#[derive(Debug)]
pub struct MintToken {
    pub ledger: HoldingsLedger,
    pub supply: u64,
    pub allocation: Option<Allocation>,
}

/// How a deposit settles.
#[derive(Clone, Copy, Debug, PartialEq, Eq, Structural)]
pub struct MintReceipt {
    /// The shares to mint to the depositor.
    pub shares_minted: u64,
    /// The part of the deposit that stays in the liquid reserve.
    pub to_holding: u64,
    /// The part of the deposit that is routed through rebalancing.
    pub to_fund: u64,
    /// What has to be moved into the reserve in the same transaction for the
    /// baseline to hold.
    pub top_up: u64,
    /// The shares in circulation after the deposit.
    pub supply_after: u64,
    /// The fund's total value after the deposit.
    pub total_value_after: u64,
}

/// The shares that a deposit of `amount` mints: `amount` itself while no
/// share exists, which sets the first price; afterwards the deposit's part of
/// the fund's value, in shares.
pub open spec fn shares_for(amount: int, supply: int, total_value: int) -> int {
    if supply == 0 {
        amount
    } else {
        mul_div(amount, supply, total_value)
    }
}

/// What the liquid reserve is filled up to by a deposit: the policy's liquid
/// target share of `total`.
pub open spec fn reserve_goal(total: int, allocation: AllocationView) -> int {
    percent_of(total, allocation.target_amount_percentage as int)
}

/// The part of `amount` that a reserve of `liquid` keeps on its way to
/// `goal`.
pub open spec fn reserve_part(amount: int, liquid: int, goal: int) -> int {
    if liquid >= goal {
        0
    } else if goal - liquid >= amount {
        amount
    } else {
        goal - liquid
    }
}

/// How a deposit of `amount` settles.
pub open spec fn deposit(
    ledger: LedgerView,
    supply: u64,
    allocation: Option<AllocationView>,
    amount: u64,
) -> Result<MintReceipt, SaturnFundError> {
    match allocation {
        None => Err(SaturnFundError::PolicyUnset),
        Some(a) => if !a.valid() {
            Err(SaturnFundError::InvalidPercentage)
        } else if ledger.total_value() > u64::MAX {
            Err(SaturnFundError::ValueOverflow)
        } else if supply > 0 && ledger.total_value() == 0 {
            Err(SaturnFundError::DivisionByZero)
        } else {
            let total = ledger.total_value() as int;
            let shares = shares_for(amount as int, supply as int, total);
            if shares > u64::MAX || supply + shares > u64::MAX || total + amount > u64::MAX {
                Err(SaturnFundError::Overflow)
            } else {
                let total_after = total + amount;
                let to_holding = reserve_part(
                    amount as int,
                    ledger.reserve as int,
                    reserve_goal(total_after, a),
                );
                match baseline_top_up(ledger.reserve + to_holding, total_after, a) {
                    Err(e) => Err(e),
                    Ok(top_up) => Ok(
                        MintReceipt {
                            shares_minted: shares as u64,
                            to_holding: to_holding as u64,
                            to_fund: (amount - to_holding) as u64,
                            top_up,
                            supply_after: (supply + shares) as u64,
                            total_value_after: total_after as u64,
                        },
                    ),
                }
            }
        },
    }
}

/// Mint accounting neither creates nor destroys value: after a deposit that
/// settles, the minted shares stand to the new supply as the deposit stands
/// to the new total value, up to the truncation of the share count. That
/// truncation is always in the fund's favour and under the fund's value
/// before the deposit; the first deposit of a fund is exact.
pub proof fn lemma_mint_conserves_value(
    ledger: LedgerView,
    supply: u64,
    allocation: Option<AllocationView>,
    amount: u64,
)
    requires
        deposit(ledger, supply, allocation, amount) is Ok,
        supply == 0 ==> ledger.total_value() == 0,
    ensures
        ({
            let receipt = deposit(ledger, supply, allocation, amount)->Ok_0;
            &&& receipt.total_value_after == ledger.total_value() + amount
            &&& receipt.supply_after == supply + receipt.shares_minted
            &&& receipt.to_holding + receipt.to_fund == amount
            &&& receipt.shares_minted * receipt.total_value_after <= amount * receipt.supply_after
            &&& supply == 0 ==> receipt.shares_minted * receipt.total_value_after == amount
                * receipt.supply_after
            &&& supply > 0 ==> amount * receipt.supply_after - receipt.shares_minted
                * receipt.total_value_after < ledger.total_value()
        }),
{
    let receipt = deposit(ledger, supply, allocation, amount)->Ok_0;
    let total = ledger.total_value() as int;
    let shares = receipt.shares_minted as int;
    let a = amount as int;
    let s = supply as int;
    if supply == 0 {
        assert(shares == a);
        assert(total == 0);
        assert(shares * (total + a) == a * (s + shares)) by (nonlinear_arith)
            requires
                shares == a,
                total == 0,
                s == 0,
        ;
    } else {
        assert(total > 0);
        assert(0 <= a * s) by (nonlinear_arith)
            requires
                0 <= a,
                0 <= s,
        ;
        lemma_floor_bounds(a * s, total);
        assert(shares == (a * s) / total);
        assert(shares * (total + a) <= a * (s + shares) && a * (s + shares) - shares * (total + a)
            < total) by (nonlinear_arith)
            requires
                shares * total <= a * s,
                a * s < shares * total + total,
        ;
    }
}

/// A deposit into a fund that has shares and value settles whenever a valid
/// policy is stored, the numbers fit in 64 bits and the baseline does not
/// block. It then mints the floor of `amount * supply / total_value` shares,
/// and the new shares stand to the new supply as the deposit stands to the
/// new value, up to a truncation that is under the old value and never in
/// the depositor's favour.
pub proof fn lemma_deposit_is_owed(ledger: LedgerView, supply: u64, allocation: AllocationView, amount: u64)
    requires
        allocation.valid(),
        0 < supply,
        0 < ledger.total_value() <= u64::MAX,
        ledger.total_value() + amount <= u64::MAX,
        supply + mul_div(amount as int, supply as int, ledger.total_value() as int) <= u64::MAX,
        baseline_top_up(
            ledger.reserve + reserve_part(
                amount as int,
                ledger.reserve as int,
                reserve_goal(ledger.total_value() + amount, allocation),
            ),
            ledger.total_value() + amount,
            allocation,
        ) is Ok,
    ensures
        deposit(ledger, supply, Some(allocation), amount) is Ok,
        ({
            let receipt = deposit(ledger, supply, Some(allocation), amount)->Ok_0;
            let gap = amount * receipt.supply_after - receipt.shares_minted * receipt.total_value_after;
            &&& receipt.shares_minted == mul_div(amount as int, supply as int, ledger.total_value() as int)
            &&& receipt.supply_after == supply + receipt.shares_minted
            &&& receipt.total_value_after == ledger.total_value() + amount
            &&& receipt.to_holding + receipt.to_fund == amount
            &&& receipt.to_holding == reserve_part(
                amount as int,
                ledger.reserve as int,
                percent_of(ledger.total_value() + amount, allocation.target_amount_percentage as int),
            )
            &&& 0 <= gap < ledger.total_value()
        }),
{
    assert(0 <= mul_div(amount as int, supply as int, ledger.total_value() as int)) by (nonlinear_arith)
        requires
            0 <= amount,
            0 < supply,
            0 < ledger.total_value(),
    ;
    lemma_mint_conserves_value(ledger, supply, Some(allocation), amount);
}

/// The first deposit into a fund without shares and without value settles
/// whenever a valid policy is stored and the baseline does not block. It
/// mints as many shares as were deposited, which sets the first price, and
/// this is exact.
pub proof fn lemma_seed_deposit_is_owed(ledger: LedgerView, allocation: AllocationView, amount: u64)
    requires
        allocation.valid(),
        ledger.total_value() == 0,
        baseline_top_up(
            reserve_part(amount as int, 0, reserve_goal(amount as int, allocation)),
            amount as int,
            allocation,
        ) is Ok,
    ensures
        deposit(ledger, 0, Some(allocation), amount) is Ok,
        ({
            let receipt = deposit(ledger, 0, Some(allocation), amount)->Ok_0;
            &&& receipt.shares_minted == amount
            &&& receipt.supply_after == amount
            &&& receipt.total_value_after == amount
            &&& receipt.shares_minted * receipt.total_value_after == amount * receipt.supply_after
        }),
{
}

/// A fund is at steady state when it has shares exactly when it has value.
pub open spec fn steady_state(supply: int, total_value: int) -> bool {
    supply == 0 <==> total_value == 0
}

/// A deposit that settles leaves a fund at steady state at steady state.
pub proof fn lemma_deposit_keeps_steady_state(
    ledger: LedgerView,
    supply: u64,
    allocation: Option<AllocationView>,
    amount: u64,
)
    requires
        deposit(ledger, supply, allocation, amount) is Ok,
        steady_state(supply as int, ledger.total_value() as int),
    ensures
        ({
            let receipt = deposit(ledger, supply, allocation, amount)->Ok_0;
            steady_state(receipt.supply_after as int, receipt.total_value_after as int)
        }),
{
    let total = ledger.total_value() as int;
    if supply > 0 {
        assert(0 <= (amount * supply) / total) by (nonlinear_arith)
            requires
                0 <= amount,
                0 < supply,
                0 < total,
        ;
    }
}

/// Decides how a deposit of `amount` settles. The depositor is minted
/// `amount * supply / total_value` shares, or `amount` shares while none
/// exist. Of the amount, the liquid reserve keeps what brings it up to the
/// policy's liquid target share of the new total value; the rest is routed
/// through rebalancing. The baseline is checked for the state after that.
///
/// Fails with `PolicyUnset` where no policy is stored, `InvalidPercentage`
/// where the stored policy breaks its invariant, `ValueOverflow` where the
/// fund's value does not fit, `DivisionByZero` where shares exist against a
/// value of zero, `Overflow` where the shares, the new supply or the new
/// total value do not fit, and `BelowBaseline` where the reserve stays under
/// the baseline and the policy blocks.
pub fn handler(ctx: &MintToken, amount: u64) -> (r: Result<MintReceipt, SaturnFundError>)
    ensures
        r == deposit(ctx.ledger@, ctx.supply, policy_view(ctx.allocation), amount),
{
    let allocation: &Allocation = match &ctx.allocation {
        None => {
            return Err(SaturnFundError::PolicyUnset);
        },
        Some(a) => a,
    };
    match validate_allocation_percentages(allocation) {
        Err(e) => {
            return Err(e);
        },
        Ok(()) => {},
    }
    let total: u64 = match ctx.ledger.total_value() {
        Ok(v) => v,
        Err(e) => {
            return Err(e);
        },
    };
    let shares: u64 = calculate_strn_amount(amount, ctx.supply, total)?;
    let supply_after: u64 = match ctx.supply.checked_add(shares) {
        Some(v) => v,
        None => {
            return Err(SaturnFundError::Overflow);
        },
    };
    let total_after: u64 = match total.checked_add(amount) {
        Some(v) => v,
        None => {
            return Err(SaturnFundError::Overflow);
        },
    };
    let liquid: u64 = ctx.ledger.reserve();
    let goal: u64 = percentage_of_amount(total_after, allocation.target_amount_percentage());
    let to_holding: u64 = if liquid >= goal {
        0
    } else if goal - liquid >= amount {
        amount
    } else {
        goal - liquid
    };
    let top_up: u64 = settle_against_baseline(liquid + to_holding, total_after, allocation)?;
    Ok(
        MintReceipt {
            shares_minted: shares,
            to_holding,
            to_fund: amount - to_holding,
            top_up,
            supply_after,
            total_value_after: total_after,
        },
    )
}

/// What share issuance answers for given numbers.
pub open spec fn issued_shares(amount: u64, supply: u64, total_value: u64) -> Result<u64, SaturnFundError> {
    if supply > 0 && total_value == 0 {
        Err(SaturnFundError::DivisionByZero)
    } else if shares_for(amount as int, supply as int, total_value as int) > u64::MAX {
        Err(SaturnFundError::Overflow)
    } else {
        Ok(shares_for(amount as int, supply as int, total_value as int) as u64)
    }
}

/// Computes the shares that a deposit of `amount` mints against `supply`
/// shares and a fund worth `total_value`.
pub fn calculate_strn_amount(amount: u64, supply: u64, total_value: u64) -> (r: Result<u64, SaturnFundError>)
    ensures
        r == issued_shares(amount, supply, total_value),
{
    if supply == 0 {
        Ok(amount)
    } else if total_value == 0 {
        Err(SaturnFundError::DivisionByZero)
    } else {
        match checked_mul_div(amount, supply, total_value) {
            Some(shares) => Ok(shares),
            None => Err(SaturnFundError::Overflow),
        }
    }
}

/// Reads the balance at the start of an account's data: its first eight
/// bytes, little-endian. Data shorter than that is refused with
/// `InvalidAccountData`.
pub fn get_balance(account_data: &[u8]) -> (r: Result<u64, SaturnFundError>)
    ensures
        account_data@.len() >= 8 <==> r is Ok,
        r matches Ok(balance) ==> balance == le_u64(account_data@, 0),
        r matches Err(e) ==> e == SaturnFundError::InvalidAccountData,
{
    match read_u64_le(account_data, 0) {
        Some(balance) => Ok(balance),
        None => Err(SaturnFundError::InvalidAccountData),
    }
}

/// Whether `ix` is the token program's minting of `amount` of `mint` to
/// `account`, signed by the mint's `authority`.
pub open spec fn is_mint_to(
    ix: Instruction,
    program: Pubkey,
    mint: Pubkey,
    account: Pubkey,
    authority: Pubkey,
    amount: u64,
) -> bool {
    &&& program.spells(ix.program_id@)
    &&& ix.accounts@.len() == 3
    &&& ix.accounts@[0].names(mint, false, true)
    &&& ix.accounts@[1].names(account, false, true)
    &&& ix.accounts@[2].names(authority, true, false)
    &&& ix.data@.len() == 9
    &&& ix.data@[0] == 7
    &&& le_u64(ix.data@, 1) == amount
}

/// Builds the instruction that mints `shares` shares to the depositor's
/// share account, signed by the program's authority over the mint. Any
/// program but the token program is refused with `IncorrectProgramId`.
pub fn mint_shares(
    token_program: &Pubkey,
    mint: &Pubkey,
    user_token_account: &Pubkey,
    program_authority: &Pubkey,
    shares: u64,
) -> (r: Result<Instruction, SaturnFundError>)
    ensures
        r is Ok <==> *token_program == spec_token_program_id(),
        r matches Ok(ix) ==> is_mint_to(ix, *token_program, *mint, *user_token_account, *program_authority, shares),
        r matches Err(e) ==> e == SaturnFundError::IncorrectProgramId,
{
    match token_mint_to(
        &token_program.to_bytes(),
        &mint.to_bytes(),
        &user_token_account.to_bytes(),
        &program_authority.to_bytes(),
        shares,
    ) {
        Ok(ix) => Ok(ix),
        Err(_) => Err(SaturnFundError::IncorrectProgramId),
    }
}

} // verus!
