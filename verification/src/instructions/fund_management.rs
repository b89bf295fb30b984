//! The reserve asset's share of the fund, and plans for explicitly given
//! weights.

use vstd::prelude::*;
use crate::error::SaturnFundError;
use crate::instructions::manage_holdings::{adjust_holdings_to, compute_deltas_for, plan_view, Delta};
use crate::instructions::manage_transaction_account::{adjust_balances, adjustment_for, BalanceAdjustment};
use crate::instructions::validation::validate_allocation_percentages;
use crate::instructions::manage_transaction_account::{is_system_transfer, transfer_solana};
use crate::instructions::program_calls::{spec_token_program_id, token_transfer};
use crate::ratio::{percent_of, percentage_of_amount};
use crate::services::price_stream_service::le_u64;
use crate::state::accounts::{HoldingsLedger, LedgerView, Pubkey};
use crate::state::instruction::Instruction;
use crate::state::allocation::{policy_view, Allocation, AllocationView, TokenAllocation};

verus! {

/// What fund management reads: the priced holdings and the stored policy.
#[derive(Debug)]
pub struct FundManagement {
    pub ledger: HoldingsLedger,
    pub allocation: Option<Allocation>,
}

/// How the reserve has to change to stand at the policy's liquid target.
pub open spec fn balance_to_target(ledger: LedgerView, allocation: Option<AllocationView>) -> Result<
    BalanceAdjustment,
    SaturnFundError,
> {
    match allocation {
        None => Err(SaturnFundError::PolicyUnset),
        Some(a) => if !a.valid() {
            Err(SaturnFundError::InvalidPercentage)
        } else if ledger.total_value() > u64::MAX {
            Err(SaturnFundError::ValueOverflow)
        } else {
            let required = percent_of(ledger.total_value() as int, a.target_amount_percentage as int) as u64;
            Ok(adjustment_for(ledger.reserve as u64, required, required))
        },
    }
}

/// Decides how the balance of the reserve asset has to change to stand at
/// the policy's liquid target share of the fund's total value: filled by the
/// difference where it is under it, released by the difference where it is
/// over it.
pub fn ensure_solana_balance(ctx: &FundManagement) -> (r: Result<BalanceAdjustment, SaturnFundError>)
    ensures
        r == balance_to_target(ctx.ledger@, policy_view(ctx.allocation)),
{
    let allocation: &Allocation = match &ctx.allocation {
        None => {
            return Err(SaturnFundError::PolicyUnset);
        },
        Some(a) => a,
    };
    match validate_allocation_percentages(allocation) {
        Err(e) => {
            return Err(e);
        },
        Ok(()) => {},
    }
    let total: u64 = match ctx.ledger.total_value() {
        Ok(v) => v,
        Err(e) => {
            return Err(e);
        },
    };
    let required: u64 = percentage_of_amount(total, allocation.target_amount_percentage());
    Ok(adjust_balances(ctx.ledger.reserve(), required, required))
}

/// Computes the trades that bring each asset named in `allocations` to the
/// given share of the fund's total value, without minting or burning shares.
/// The trades come in ascending order of asset key.
pub fn adjust_fund_holdings(ctx: &FundManagement, allocations: &Vec<TokenAllocation>) -> (r: Result<
    Vec<Delta>,
    SaturnFundError,
>)
    ensures
        plan_view(r) == compute_deltas_for(ctx.ledger@, allocations@),
{
    adjust_holdings_to(&ctx.ledger, allocations)
}

/// Whether `ix` is the token program's transfer of `amount` from `source` to
/// `destination`, signed by `authority`.
pub open spec fn is_token_transfer(
    ix: Instruction,
    program: Pubkey,
    source: Pubkey,
    destination: Pubkey,
    authority: Pubkey,
    amount: u64,
) -> bool {
    &&& program.spells(ix.program_id@)
    &&& ix.accounts@.len() == 4
    &&& ix.accounts@[0].names(source, false, true)
    &&& ix.accounts@[1].names(destination, false, true)
    &&& ix.accounts@[2].names(authority, false, false)
    &&& ix.accounts@[3].names(authority, true, false)
    &&& ix.data@.len() == 9
    &&& ix.data@[0] == 3
    &&& le_u64(ix.data@, 1) == amount
}

/// Builds the token transfer that moves `amount` from `source` to `account`,
/// to raise a holding. Any program but the token program is refused with
/// `IncorrectProgramId`.
pub fn transfer_tokens_to_account(
    token_program: &Pubkey,
    source: &Pubkey,
    account: &Pubkey,
    authority: &Pubkey,
    amount: u64,
) -> (r: Result<Instruction, SaturnFundError>)
    ensures
        r is Ok <==> *token_program == spec_token_program_id(),
        r matches Ok(ix) ==> is_token_transfer(ix, *token_program, *source, *account, *authority, amount),
        r matches Err(e) ==> e == SaturnFundError::IncorrectProgramId,
{
    match token_transfer(
        &token_program.to_bytes(),
        &source.to_bytes(),
        &account.to_bytes(),
        &authority.to_bytes(),
        amount,
    ) {
        Ok(ix) => Ok(ix),
        Err(_) => Err(SaturnFundError::IncorrectProgramId),
    }
}

/// Builds the token transfer that moves `amount` from `account` to
/// `destination`, to lower a holding. Any program but the token program is
/// refused with `IncorrectProgramId`.
pub fn transfer_tokens_from_account(
    token_program: &Pubkey,
    account: &Pubkey,
    destination: &Pubkey,
    authority: &Pubkey,
    amount: u64,
) -> (r: Result<Instruction, SaturnFundError>)
    ensures
        r is Ok <==> *token_program == spec_token_program_id(),
        r matches Ok(ix) ==> is_token_transfer(ix, *token_program, *account, *destination, *authority, amount),
        r matches Err(e) ==> e == SaturnFundError::IncorrectProgramId,
{
    match token_transfer(
        &token_program.to_bytes(),
        &account.to_bytes(),
        &destination.to_bytes(),
        &authority.to_bytes(),
        amount,
    ) {
        Ok(ix) => Ok(ix),
        Err(_) => Err(SaturnFundError::IncorrectProgramId),
    }
}

/// Builds the transfer that carries out an adjustment of the reserve: from
/// the fund's account into the reserve account to fill it, the other way to
/// release from it, and none where the reserve is kept.
pub fn settle_solana_balance(
    adjustment: BalanceAdjustment,
    fund_account: &Pubkey,
    reserve_account: &Pubkey,
) -> (r: Option<Instruction>)
    ensures
        match adjustment {
            BalanceAdjustment::Keep => r is None,
            BalanceAdjustment::Fill(amount) => r matches Some(ix) && is_system_transfer(
                ix,
                *fund_account,
                *reserve_account,
                amount,
            ),
            BalanceAdjustment::Release(amount) => r matches Some(ix) && is_system_transfer(
                ix,
                *reserve_account,
                *fund_account,
                amount,
            ),
        },
{
    match adjustment {
        BalanceAdjustment::Keep => None,
        BalanceAdjustment::Fill(amount) => Some(transfer_solana(fund_account, reserve_account, amount)),
        BalanceAdjustment::Release(amount) => Some(transfer_solana(reserve_account, fund_account, amount)),
    }
}

} // verus!
