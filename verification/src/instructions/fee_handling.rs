//! Transfers that keep a fee.

use vstd::prelude::*;
use crate::error::SaturnFundError;

verus! {

/// The three balances that a transfer with a fee touches: the account that
/// pays, the account that receives, and the account that takes the fee.
#[derive(Clone, Copy, Debug, PartialEq, Eq, Structural)]
pub struct TransferWithFee {
    pub from: u64,
    pub to: u64,
    pub fee_account: u64,
}

impl TransferWithFee {
    /// The three balances together.
    pub open spec fn sum(self) -> int {
        self.from + self.to + self.fee_account
    }
}

/// The balances after `amount` has left `from`, of which `fee` went to the
/// fee account and the rest to `to`.
pub open spec fn transfer_outcome(balances: TransferWithFee, amount: u64, fee: u64) -> Result<
    TransferWithFee,
    SaturnFundError,
> {
    if fee > amount || amount > balances.from {
        Err(SaturnFundError::InsufficientFunds)
    } else if balances.to + (amount - fee) > u64::MAX || balances.fee_account + fee > u64::MAX {
        Err(SaturnFundError::Overflow)
    } else {
        Ok(
            TransferWithFee {
                from: (balances.from - amount) as u64,
                to: (balances.to + (amount - fee)) as u64,
                fee_account: (balances.fee_account + fee) as u64,
            },
        )
    }
}

/// A transfer with a fee moves value and makes none: the three balances are
/// together what they were.
pub proof fn lemma_transfer_conserves(balances: TransferWithFee, amount: u64, fee: u64)
    ensures
        transfer_outcome(balances, amount, fee) matches Ok(after) ==> after.sum() == balances.sum(),
{
}

/// Moves `amount` out of `from`: `fee` of it to the fee account, the rest to
/// `to`. All three balances change together or not at all. A fee above the
/// amount, or an amount above the paying balance, is refused with
/// `InsufficientFunds`; a receiving balance that would not fit, with
/// `Overflow`.
pub fn transfer_with_fee(ctx: &mut TransferWithFee, amount: u64, fee: u64) -> (r: Result<(), SaturnFundError>)
    ensures
        match transfer_outcome(*old(ctx), amount, fee) {
            Ok(after) => r is Ok && *final(ctx) == after,
            Err(e) => r == Err::<(), SaturnFundError>(e) && *final(ctx) == *old(ctx),
        },
{
    let amount_after_fee: u64 = match amount.checked_sub(fee) {
        Some(v) => v,
        None => {
            return Err(SaturnFundError::InsufficientFunds);
        },
    };
    let from: u64 = match ctx.from.checked_sub(amount) {
        Some(v) => v,
        None => {
            return Err(SaturnFundError::InsufficientFunds);
        },
    };
    let to: u64 = match ctx.to.checked_add(amount_after_fee) {
        Some(v) => v,
        None => {
            return Err(SaturnFundError::Overflow);
        },
    };
    let fee_account: u64 = match ctx.fee_account.checked_add(fee) {
        Some(v) => v,
        None => {
            return Err(SaturnFundError::Overflow);
        },
    };
    ctx.from = from;
    ctx.to = to;
    ctx.fee_account = fee_account;
    Ok(())
}

} // verus!
