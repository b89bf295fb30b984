//! The price of one share of the fund.

use vstd::prelude::*;
use crate::error::SaturnFundError;
use crate::state::accounts::{HoldingsLedger, LedgerView};

verus! {

/// What pricing reads: the priced holdings and the number of shares in
/// circulation.
#[derive(Debug)]
pub struct CalculatePriceOfFund {
    pub ledger: HoldingsLedger,
    pub supply: u64,
}

/// The net asset value of one share: the fund's total value divided by the
/// shares in circulation.
pub open spec fn price_of_fund(ledger: LedgerView, supply: u64) -> Result<u64, SaturnFundError> {
    if ledger.total_value() > u64::MAX {
        Err(SaturnFundError::ValueOverflow)
    } else if supply == 0 {
        Err(SaturnFundError::DivisionByZero)
    } else {
        Ok((ledger.total_value() as int / supply as int) as u64)
    }
}

/// Computes the price of one share from a fresh valuation of the holdings.
/// Fails with `ValueOverflow` where the fund's value does not fit, and with
/// `DivisionByZero` where no share is in circulation.
pub fn handler(ctx: &CalculatePriceOfFund) -> (r: Result<u64, SaturnFundError>)
    ensures
        r == price_of_fund(ctx.ledger@, ctx.supply),
{
    let total: u64 = match ctx.ledger.total_value() {
        Ok(v) => v,
        Err(e) => {
            return Err(e);
        },
    };
    if ctx.supply == 0 {
        Err(SaturnFundError::DivisionByZero)
    } else {
        Ok(total / ctx.supply)
    }
}

} // verus!
