//! The liquid reserve against its target and its baseline.

use vstd::prelude::*;
use crate::error::SaturnFundError;
use crate::instructions::validation::validate_allocation_percentages;
use crate::instructions::program_calls::{spec_system_program_id, system_transfer, system_transfer_data};
use crate::instructions::raydium_integration::{feed_price, get_current_market_price_from_raydium};
use crate::state::instruction::Instruction;
use crate::ratio::{percent_of, percentage_of_amount};
use crate::state::accounts::{
    ascending,
    positions_value,
    HoldingsLedger,
    LedgerView,
    Position,
    Pubkey,
    TokenAccount,
};
use crate::state::allocation::{policy_view, Allocation, AllocationView, BaselineEnforcement};

verus! {

/// What managing the liquid reserve reads: the mint of the account that holds
/// the reserve, the mint of the reserve asset, the priced holdings and the
/// stored policy.
#[derive(Debug)]
pub struct ManageTransactionAccount {
    pub transaction_mint: Pubkey,
    pub reserve_mint: Pubkey,
    pub ledger: HoldingsLedger,
    pub allocation: Option<Allocation>,
}

/// How the liquid reserve has to change.
#[derive(Clone, Copy, Debug, PartialEq, Eq, Structural)]
pub enum BalanceAdjustment {
    /// The reserve lies between baseline and target.
    Keep,
    /// Move this much from the fund's holdings into the reserve.
    Fill(u64),
    /// Move this much of the reserve back to the fund's holdings.
    Release(u64),
}

/// The adjustment for a reserve of `current`: up to the baseline where it is
/// under it, down to the target where it is over it.
pub open spec fn adjustment_for(current: u64, target_balance: u64, baseline_balance: u64) -> BalanceAdjustment {
    if current < baseline_balance {
        BalanceAdjustment::Fill((baseline_balance - current) as u64)
    } else if current > target_balance {
        BalanceAdjustment::Release((current - target_balance) as u64)
    } else {
        BalanceAdjustment::Keep
    }
}

/// Decides how a reserve of `current` has to change to lie between the
/// baseline and the target.
pub fn adjust_balances(current: u64, target_balance: u64, baseline_balance: u64) -> (r: BalanceAdjustment)
    ensures
        r == adjustment_for(current, target_balance, baseline_balance),
{
    if current < baseline_balance {
        BalanceAdjustment::Fill(baseline_balance - current)
    } else if current > target_balance {
        BalanceAdjustment::Release(current - target_balance)
    } else {
        BalanceAdjustment::Keep
    }
}

/// What the reserve has to hold at least after an operation settles, or how
/// the operation ends where it does not: refused under `Block`, or reported
/// with the amount to move into the reserve under `TopUp`.
pub open spec fn baseline_top_up(liquid_after: int, total_after: int, allocation: AllocationView) -> Result<
    u64,
    SaturnFundError,
> {
    if allocation.baseline_amount_percentage > 100 {
        Err(SaturnFundError::InvalidPercentage)
    } else {
        let floor = percent_of(total_after, allocation.baseline_amount_percentage as int);
        if liquid_after >= floor {
            Ok(0u64)
        } else {
            match allocation.rules.baseline_enforcement {
                BaselineEnforcement::Block => Err(SaturnFundError::BelowBaseline),
                BaselineEnforcement::TopUp => Ok((floor - liquid_after) as u64),
            }
        }
    }
}

/// Checks the baseline for the state in which an operation would settle:
/// `0` where the reserve holds the baseline share of the total value;
/// otherwise `BelowBaseline` where the policy blocks, or the missing amount
/// where it tops up.
pub fn settle_against_baseline(liquid_after: u64, total_after: u64, allocation: &Allocation) -> (r: Result<
    u64,
    SaturnFundError,
>)
    ensures
        r == baseline_top_up(liquid_after as int, total_after as int, allocation@),
{
    let percentage: u8 = allocation.baseline_amount_percentage();
    if percentage > 100 {
        return Err(SaturnFundError::InvalidPercentage);
    }
    let floor: u64 = percentage_of_amount(total_after, percentage);
    if liquid_after >= floor {
        Ok(0)
    } else {
        match allocation.rules().baseline_enforcement {
            BaselineEnforcement::Block => Err(SaturnFundError::BelowBaseline),
            BaselineEnforcement::TopUp => Ok(floor - liquid_after),
        }
    }
}

/// The amount that brings the reserve up to the baseline.
pub open spec fn baseline_shortfall(ledger: LedgerView, allocation: Option<AllocationView>) -> Result<
    u64,
    SaturnFundError,
> {
    match allocation {
        None => Err(SaturnFundError::PolicyUnset),
        Some(a) => if !a.valid() {
            Err(SaturnFundError::InvalidPercentage)
        } else if ledger.total_value() > u64::MAX {
            Err(SaturnFundError::ValueOverflow)
        } else {
            let floor = percent_of(ledger.total_value() as int, a.baseline_amount_percentage as int);
            if ledger.reserve < floor {
                Ok((floor - ledger.reserve) as u64)
            } else {
                Ok(0u64)
            }
        },
    }
}

/// Decides how much has to be moved into the liquid reserve so that it holds
/// the baseline share of the fund's total value: the difference, or `0` where
/// the reserve holds that much already.
pub fn enforce_baseline_amount(ctx: &ManageTransactionAccount) -> (r: Result<u64, SaturnFundError>)
    ensures
        r == baseline_shortfall(ctx.ledger@, policy_view(ctx.allocation)),
{
    let allocation: &Allocation = match &ctx.allocation {
        None => {
            return Err(SaturnFundError::PolicyUnset);
        },
        Some(a) => a,
    };
    match validate_allocation_percentages(allocation) {
        Err(e) => {
            return Err(e);
        },
        Ok(()) => {},
    }
    let total: u64 = match ctx.ledger.total_value() {
        Ok(v) => v,
        Err(e) => {
            return Err(e);
        },
    };
    let floor: u64 = percentage_of_amount(total, allocation.baseline_amount_percentage());
    let balance: u64 = ctx.ledger.reserve();
    if balance < floor {
        Ok(floor - balance)
    } else {
        Ok(0)
    }
}

/// How the reserve has to change under the policy.
pub open spec fn reserve_adjustment(
    transaction_mint: Pubkey,
    reserve_mint: Pubkey,
    ledger: LedgerView,
    allocation: Option<AllocationView>,
) -> Result<BalanceAdjustment, SaturnFundError> {
    match allocation {
        None => Err(SaturnFundError::PolicyUnset),
        Some(a) => if !a.valid() {
            Err(SaturnFundError::InvalidPercentage)
        } else if ledger.total_value() > u64::MAX {
            Err(SaturnFundError::ValueOverflow)
        } else if transaction_mint != reserve_mint {
            Err(SaturnFundError::InvalidAccountData)
        } else {
            Ok(
                adjustment_for(
                    ledger.reserve as u64,
                    percent_of(ledger.total_value() as int, a.target_amount_percentage as int) as u64,
                    percent_of(ledger.total_value() as int, a.baseline_amount_percentage as int) as u64,
                ),
            )
        },
    }
}

/// Decides how the liquid reserve has to change to lie between the baseline
/// share and the target share of the fund's total value. An account that
/// does not hold the reserve asset is refused with `InvalidAccountData`.
pub fn dynamic_transaction_account_management(ctx: &ManageTransactionAccount) -> (r: Result<
    BalanceAdjustment,
    SaturnFundError,
>)
    ensures
        r == reserve_adjustment(
            ctx.transaction_mint,
            ctx.reserve_mint,
            ctx.ledger@,
            policy_view(ctx.allocation),
        ),
{
    let allocation: &Allocation = match &ctx.allocation {
        None => {
            return Err(SaturnFundError::PolicyUnset);
        },
        Some(a) => a,
    };
    match validate_allocation_percentages(allocation) {
        Err(e) => {
            return Err(e);
        },
        Ok(()) => {},
    }
    let total: u64 = match ctx.ledger.total_value() {
        Ok(v) => v,
        Err(e) => {
            return Err(e);
        },
    };
    if ctx.transaction_mint != ctx.reserve_mint {
        return Err(SaturnFundError::InvalidAccountData);
    }
    let target_balance: u64 = percentage_of_amount(total, allocation.target_amount_percentage());
    let baseline_balance: u64 = percentage_of_amount(total, allocation.baseline_amount_percentage());
    Ok(adjust_balances(ctx.ledger.reserve(), target_balance, baseline_balance))
}

/// The holding of `account` at the price that `feed` publishes.
pub open spec fn priced(account: TokenAccount, feed: Seq<u8>, now: u64, max_age: u64) -> Position {
    Position {
        mint: account.mint,
        amount: account.amount,
        decimals: account.decimals,
        price: feed_price(feed, now, max_age)->Ok_0.price,
    }
}

/// The holdings, each at the price of the feed that stands at its place. One
/// feed that cannot be read fails them all: no price is filled in for it.
pub open spec fn priced_positions(
    accounts: Seq<TokenAccount>,
    feeds: Seq<Vec<u8>>,
    now: u64,
    max_age: u64,
) -> Result<Seq<Position>, SaturnFundError> {
    if accounts.len() != feeds.len() {
        Err(SaturnFundError::InvalidAccountData)
    } else if exists|i: int| 0 <= i < feeds.len() && feed_price((#[trigger] feeds[i])@, now, max_age) is Err {
        Err(SaturnFundError::StaleOrMalformedFeed)
    } else {
        Ok(Seq::new(accounts.len(), |i: int| priced(accounts[i], feeds[i]@, now, max_age)))
    }
}

/// Reads the price of one asset from its feed, at `now` and for a freshness
/// bound of `max_age`.
pub fn get_price_from_oracle(feed: &Vec<u8>, now: u64, max_age: u64) -> (r: Result<u64, SaturnFundError>)
    ensures
        r == (match feed_price(feed@, now, max_age) {
            Ok(p) => Ok::<u64, SaturnFundError>(p.price),
            Err(e) => Err(e),
        }),
{
    match get_current_market_price_from_raydium(feed.as_slice(), now, max_age) {
        Ok(p) => Ok(p.price),
        Err(e) => Err(e),
    }
}

/// Matches each holding with the price of its feed; `feeds[i]` is the feed
/// for `accounts[i]`. Fails with `InvalidAccountData` where the two differ in
/// number, and with `StaleOrMalformedFeed` where any feed is too short or
/// too old.
pub fn price_holdings(accounts: &Vec<TokenAccount>, feeds: &Vec<Vec<u8>>, now: u64, max_age: u64) -> (r: Result<
    Vec<Position>,
    SaturnFundError,
>)
    ensures
        (match r {
            Ok(v) => Ok::<Seq<Position>, SaturnFundError>(v@),
            Err(e) => Err(e),
        }) == priced_positions(accounts@, feeds@, now, max_age),
{
    let n: usize = accounts.len();
    if feeds.len() != n {
        return Err(SaturnFundError::InvalidAccountData);
    }
    let mut out: Vec<Position> = Vec::new();
    let mut i: usize = 0;
    while i < n
        invariant
            n == accounts@.len(),
            n == feeds@.len(),
            i <= n,
            out@.len() == i,
            forall|k: int| 0 <= k < i ==> feed_price((#[trigger] feeds@[k])@, now, max_age) is Ok,
            forall|k: int|
                0 <= k < i ==> #[trigger] out@[k] == priced(accounts@[k], feeds@[k]@, now, max_age),
        decreases n - i,
    {
        let account: TokenAccount = accounts[i];
        let price: u64 = match get_price_from_oracle(&feeds[i], now, max_age) {
            Ok(p) => p,
            Err(e) => {
                assert(feed_price(feeds@[i as int]@, now, max_age) is Err);
                return Err(e);
            },
        };
        out.push(Position { mint: account.mint, amount: account.amount, decimals: account.decimals, price });
        i = i + 1;
    }
    assert(out@ =~= Seq::new(accounts@.len(), |i: int| priced(accounts@[i], feeds@[i]@, now, max_age)));
    Ok(out)
}

/// The fund's total value at the prices that the feeds publish.
pub open spec fn fund_value(
    reserve: u64,
    accounts: Seq<TokenAccount>,
    feeds: Seq<Vec<u8>>,
    now: u64,
    max_age: u64,
) -> Result<u64, SaturnFundError> {
    match priced_positions(accounts, feeds, now, max_age) {
        Err(e) => Err(e),
        Ok(positions) => if !ascending(positions) {
            Err(SaturnFundError::InvalidAccountData)
        } else if reserve + positions_value(positions) > u64::MAX {
            Err(SaturnFundError::ValueOverflow)
        } else {
            Ok((reserve + positions_value(positions)) as u64)
        },
    }
}

/// Values the fund afresh: a reserve of `reserve`, plus each holding at the
/// price that its feed publishes now. Any feed that cannot be read fails the
/// valuation with `StaleOrMalformedFeed`; holdings that do not name each
/// asset once in ascending order of key fail it with `InvalidAccountData`;
/// a value that does not fit, with `ValueOverflow`.
pub fn get_fund_value(reserve: u64, accounts: &Vec<TokenAccount>, feeds: &Vec<Vec<u8>>, now: u64, max_age: u64) -> (r:
    Result<u64, SaturnFundError>)
    ensures
        r == fund_value(reserve, accounts@, feeds@, now, max_age),
{
    let positions: Vec<Position> = match price_holdings(accounts, feeds, now, max_age) {
        Ok(v) => v,
        Err(e) => {
            return Err(e);
        },
    };
    let ledger: HoldingsLedger = match HoldingsLedger::new(reserve, positions) {
        Ok(l) => l,
        Err(e) => {
            return Err(e);
        },
    };
    ledger.total_value()
}

/// Whether `ix` is the system program's transfer of `amount` from `from` to
/// `to`.
pub open spec fn is_system_transfer(ix: Instruction, from: Pubkey, to: Pubkey, amount: u64) -> bool {
    &&& spec_system_program_id().spells(ix.program_id@)
    &&& ix.accounts@.len() == 2
    &&& ix.accounts@[0].names(from, true, true)
    &&& ix.accounts@[1].names(to, false, true)
    &&& ix.data@ == system_transfer_data(amount)
}

/// Builds the transfer of `amount` of the reserve asset from `from` to `to`:
/// an instruction for the system program, signed by the paying account.
pub fn transfer_solana(from: &Pubkey, to: &Pubkey, amount: u64) -> (ix: Instruction)
    ensures
        is_system_transfer(ix, *from, *to, amount),
{
    system_transfer(&from.to_bytes(), &to.to_bytes(), amount)
}

} // verus!
