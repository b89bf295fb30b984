//! Transfers whose fee is a percentage of the amount.

use vstd::prelude::*;
use crate::error::SaturnFundError;
use crate::instructions::fee_handling::{transfer_outcome, transfer_with_fee, TransferWithFee};
use crate::ratio::{percent_of, percentage_of_amount};

verus! {

/// What a transfer of `amount` at a fee of `fee_percentage` percent answers:
/// the fee that was kept.
pub open spec fn percentage_transfer(balances: TransferWithFee, amount: u64, fee_percentage: u8) -> Result<
    u64,
    SaturnFundError,
> {
    if fee_percentage > 100 {
        Err(SaturnFundError::InvalidPercentage)
    } else {
        match transfer_outcome(balances, amount, percent_of(amount as int, fee_percentage as int) as u64) {
            Err(e) => Err(e),
            Ok(_) => Ok(percent_of(amount as int, fee_percentage as int) as u64),
        }
    }
}

/// Moves `amount` out of `from` and keeps `amount * fee_percentage / 100` of
/// it as the fee; the rest goes to `to`. Answers the fee. A percentage above
/// 100 is refused with `InvalidPercentage`; after that the transfer fails as
/// a transfer with a given fee does, and then no balance changes.
pub fn handler(ctx: &mut TransferWithFee, amount: u64, fee_percentage: u8) -> (r: Result<u64, SaturnFundError>)
    ensures
        r == percentage_transfer(*old(ctx), amount, fee_percentage),
        r is Ok ==> Ok::<TransferWithFee, SaturnFundError>(*final(ctx)) == transfer_outcome(
            *old(ctx),
            amount,
            r->Ok_0,
        ),
        r is Err ==> *final(ctx) == *old(ctx),
{
    if fee_percentage > 100 {
        return Err(SaturnFundError::InvalidPercentage);
    }
    let fee: u64 = percentage_of_amount(amount, fee_percentage);
    match transfer_with_fee(ctx, amount, fee) {
        Ok(()) => Ok(fee),
        Err(e) => Err(e),
    }
}

} // verus!
