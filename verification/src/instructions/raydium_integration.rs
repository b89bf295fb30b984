//! The price oracle adapter, and how much liquidity the fund should add to
//! its pool.

use vstd::prelude::*;
use crate::error::SaturnFundError;
use crate::instructions::program_calls::{pool_deposit, token_swap};
use crate::ratio::{percent_of, percentage_of_amount};
use crate::state::instruction::Instruction;
use crate::services::price_stream_service::{le_u64, read_u64_le, PRICE_RECORD_LEN};
use crate::state::accounts::{find_position, lemma_found_position, HoldingsLedger, LedgerView, Pubkey};

verus! {

/// A price with the time at which it was published.
#[derive(Clone, Copy, Debug, PartialEq, Eq, Structural)]
pub struct PriceData {
    pub price: u64,
    pub timestamp: u64,
}

/// Whether a price published at `timestamp` is too old at `now`, for a
/// freshness bound of `max_age`.
pub open spec fn is_stale(timestamp: u64, now: u64, max_age: u64) -> bool {
    timestamp + max_age < now
}

/// What a price feed's bytes say at `now`.
pub open spec fn feed_price(data: Seq<u8>, now: u64, max_age: u64) -> Result<
    PriceData,
    SaturnFundError,
> {
    if data.len() < PRICE_RECORD_LEN {
        Err(SaturnFundError::StaleOrMalformedFeed)
    } else if is_stale(le_u64(data, 8) as u64, now, max_age) {
        Err(SaturnFundError::StaleOrMalformedFeed)
    } else {
        Ok(PriceData { price: le_u64(data, 0) as u64, timestamp: le_u64(data, 8) as u64 })
    }
}

/// Decodes a price record. A buffer shorter than the record is a malformed
/// feed.
pub fn decode_price_data(data: &[u8]) -> (r: Result<PriceData, SaturnFundError>)
    ensures
        data@.len() >= PRICE_RECORD_LEN <==> r is Ok,
        r matches Ok(p) ==> p.price == le_u64(data@, 0) && p.timestamp == le_u64(data@, 8),
        r matches Err(e) ==> e == SaturnFundError::StaleOrMalformedFeed,
{
    let price: u64 = match read_u64_le(data, 0) {
        Some(v) => v,
        None => {
            return Err(SaturnFundError::StaleOrMalformedFeed);
        },
    };
    let timestamp: u64 = match read_u64_le(data, 8) {
        Some(v) => v,
        None => {
            return Err(SaturnFundError::StaleOrMalformedFeed);
        },
    };
    Ok(PriceData { price, timestamp })
}

/// Reads the current market price from a feed's bytes. The feed is refused as
/// `StaleOrMalformedFeed` when it is shorter than a price record, or when its
/// timestamp lies more than `max_age` before `now`. No price is ever made up
/// in place of a feed that was refused.
pub fn get_current_market_price_from_raydium(oracle_data: &[u8], now: u64, max_age: u64) -> (r:
    Result<PriceData, SaturnFundError>)
    ensures
        r == feed_price(oracle_data@, now, max_age),
{
    let record: PriceData = match decode_price_data(oracle_data) {
        Ok(p) => p,
        Err(e) => {
            return Err(e);
        },
    };
    let stale: bool = match record.timestamp.checked_add(max_age) {
        Some(limit) => limit < now,
        None => false,
    };
    if stale {
        Err(SaturnFundError::StaleOrMalformedFeed)
    } else {
        Ok(record)
    }
}

/// How much value has to be added to the pool position in `pool_mint` so that
/// it stands for `target_percentage` of the fund's total value.
pub open spec fn liquidity_to_add(ledger: LedgerView, pool_mint: Pubkey, target_percentage: u8) -> Result<
    u64,
    SaturnFundError,
> {
    if target_percentage > 100 {
        Err(SaturnFundError::InvalidPercentage)
    } else if ledger.total_value() > u64::MAX {
        Err(SaturnFundError::ValueOverflow)
    } else {
        match find_position(ledger.positions, pool_mint) {
            None => Err(SaturnFundError::AccountNotFound),
            Some(p) => {
                let required = percent_of(ledger.total_value() as int, target_percentage as int);
                if p.value() < required {
                    Ok((required - p.value()) as u64)
                } else {
                    Ok(0u64)
                }
            },
        }
    }
}

/// Decides how much value to add to the fund's pool position: the difference
/// between `target_percentage` of the fund's total value and what the
/// position is worth, or nothing where it is worth that much already.
pub fn ensure_liquidity_representation(ledger: &HoldingsLedger, pool_mint: &Pubkey, target_percentage: u8) -> (r:
    Result<u64, SaturnFundError>)
    ensures
        r == liquidity_to_add(ledger@, *pool_mint, target_percentage),
{
    if target_percentage > 100 {
        return Err(SaturnFundError::InvalidPercentage);
    }
    let total: u64 = match ledger.total_value() {
        Ok(v) => v,
        Err(e) => {
            return Err(e);
        },
    };
    match ledger.find(pool_mint) {
        None => Err(SaturnFundError::AccountNotFound),
        Some(p) => {
            proof {
                lemma_found_position(ledger@.positions, *pool_mint);
            }
            let required: u64 = percentage_of_amount(total, target_percentage);
            let current: u64 = p.amount * p.price;
            if current < required {
                Ok(required - current)
            } else {
                Ok(0)
            }
        },
    }
}

/// What to ask of the pool to add liquidity: the pool tokens to receive, and
/// the most to give of either asset.
#[derive(Clone, Copy, Debug, PartialEq, Eq, Structural)]
pub struct LiquidityOrder {
    pub liquidity_amount: u64,
    pub maximum_token_a_amount: u64,
    pub maximum_token_b_amount: u64,
}

/// The deposit that brings the pool position in `pool_mint` up to
/// `target_percentage` of the fund's value: the missing value in pool tokens
/// at their price, for at most the missing value of either asset; none where
/// nothing is missing.
pub open spec fn liquidity_order(ledger: LedgerView, pool_mint: Pubkey, target_percentage: u8) -> Result<
    Option<LiquidityOrder>,
    SaturnFundError,
> {
    match liquidity_to_add(ledger, pool_mint, target_percentage) {
        Err(e) => Err(e),
        Ok(missing) => if missing == 0 {
            Ok(None)
        } else if find_position(ledger.positions, pool_mint)->Some_0.price == 0 {
            Err(SaturnFundError::DivisionByZero)
        } else {
            Ok(
                Some(
                    LiquidityOrder {
                        liquidity_amount: (missing as int / find_position(
                            ledger.positions,
                            pool_mint,
                        )->Some_0.price as int) as u64,
                        maximum_token_a_amount: missing,
                        maximum_token_b_amount: missing,
                    },
                ),
            )
        },
    }
}

/// Decides what to ask of the pool so that the fund's pool position stands
/// for `target_percentage` of the fund's value. Fails as
/// `ensure_liquidity_representation` does, and with `DivisionByZero` where
/// value is missing and the pool's tokens have no price.
pub fn plan_liquidity_deposit(ledger: &HoldingsLedger, pool_mint: &Pubkey, target_percentage: u8) -> (r: Result<
    Option<LiquidityOrder>,
    SaturnFundError,
>)
    ensures
        r == liquidity_order(ledger@, *pool_mint, target_percentage),
{
    let missing: u64 = ensure_liquidity_representation(ledger, pool_mint, target_percentage)?;
    if missing == 0 {
        return Ok(None);
    }
    match ledger.find(pool_mint) {
        None => Err(SaturnFundError::AccountNotFound),
        Some(p) => if p.price == 0 {
            Err(SaturnFundError::DivisionByZero)
        } else {
            Ok(
                Some(
                    LiquidityOrder {
                        liquidity_amount: missing / p.price,
                        maximum_token_a_amount: missing,
                        maximum_token_b_amount: missing,
                    },
                ),
            )
        },
    }
}

/// The accounts of a swap at a pool.
#[derive(Clone, Copy, Debug, PartialEq, Eq, Structural)]
pub struct SwapViaRaydium {
    /// The swap program.
    pub program_id: Pubkey,
    /// The token program.
    pub token_program: Pubkey,
    /// The pool.
    pub pool: Pubkey,
    /// The pool's authority.
    pub pool_authority: Pubkey,
    /// The authority that signs for the user's source account.
    pub user_transfer_authority: Pubkey,
    /// The account that pays what is swapped.
    pub user_source: Pubkey,
    /// The pool's account that takes what is swapped.
    pub pool_source: Pubkey,
    /// The pool's account that pays out.
    pub pool_destination: Pubkey,
    /// The account that receives.
    pub user_destination: Pubkey,
    /// The pool's mint.
    pub pool_mint: Pubkey,
    /// The pool's fee account.
    pub fee_account: Pubkey,
}

/// Whether `ix` is the swap of `swap_amount` at the pool that `accounts`
/// name, for no less than `minimum_amount_out`.
pub open spec fn is_swap(ix: Instruction, accounts: SwapViaRaydium, swap_amount: u64, minimum_amount_out: u64) -> bool {
    &&& accounts.program_id.spells(ix.program_id@)
    &&& ix.accounts@.len() == 10
    &&& ix.accounts@[0].names(accounts.pool, false, false)
    &&& ix.accounts@[1].names(accounts.pool_authority, false, false)
    &&& ix.accounts@[2].names(accounts.user_transfer_authority, true, false)
    &&& ix.accounts@[3].names(accounts.user_source, false, true)
    &&& ix.accounts@[4].names(accounts.pool_source, false, true)
    &&& ix.accounts@[5].names(accounts.pool_destination, false, true)
    &&& ix.accounts@[6].names(accounts.user_destination, false, true)
    &&& ix.accounts@[7].names(accounts.pool_mint, false, true)
    &&& ix.accounts@[8].names(accounts.fee_account, false, true)
    &&& ix.accounts@[9].names(accounts.token_program, false, false)
    &&& ix.data@.len() == 17
    &&& ix.data@[0] == 1
    &&& le_u64(ix.data@, 1) == swap_amount
    &&& le_u64(ix.data@, 9) == minimum_amount_out
}

/// Builds the instruction that swaps `swap_amount` at a pool, for no less
/// than `minimum_amount_out`.
pub fn swap_via_raydium(accounts: &SwapViaRaydium, swap_amount: u64, minimum_amount_out: u64) -> (r: Result<
    Instruction,
    SaturnFundError,
>)
    ensures
        r matches Ok(ix) && is_swap(ix, *accounts, swap_amount, minimum_amount_out),
{
    let keys: [[u8; 32]; 11] = [
        accounts.program_id.to_bytes(),
        accounts.token_program.to_bytes(),
        accounts.pool.to_bytes(),
        accounts.pool_authority.to_bytes(),
        accounts.user_transfer_authority.to_bytes(),
        accounts.user_source.to_bytes(),
        accounts.pool_source.to_bytes(),
        accounts.pool_destination.to_bytes(),
        accounts.user_destination.to_bytes(),
        accounts.pool_mint.to_bytes(),
        accounts.fee_account.to_bytes(),
    ];
    match token_swap(&keys, swap_amount, minimum_amount_out) {
        Ok(ix) => Ok(ix),
        Err(_) => Err(SaturnFundError::VenueCallFailed),
    }
}

/// The accounts of a deposit of liquidity into a pool.
#[derive(Clone, Copy, Debug, PartialEq, Eq, Structural)]
pub struct IncreaseLiquidityOnRaydium {
    /// The swap program.
    pub program_id: Pubkey,
    /// The token program.
    pub token_program: Pubkey,
    /// The pool.
    pub pool: Pubkey,
    /// The pool's authority.
    pub pool_authority: Pubkey,
    /// The authority that signs for the user's accounts.
    pub user_transfer_authority: Pubkey,
    /// The user's account for the first asset.
    pub user_token_a_account: Pubkey,
    /// The user's account for the second asset.
    pub user_token_b_account: Pubkey,
    /// The pool's account for the first asset.
    pub pool_token_a_account: Pubkey,
    /// The pool's account for the second asset.
    pub pool_token_b_account: Pubkey,
    /// The pool's mint.
    pub pool_mint: Pubkey,
    /// The account that receives the pool's tokens.
    pub user_lp_token_account: Pubkey,
}

/// Whether `ix` is the deposit that `accounts` name, for `liquidity_amount`
/// of the pool's tokens and at most the given amounts of the two assets.
pub open spec fn is_liquidity_deposit(
    ix: Instruction,
    accounts: IncreaseLiquidityOnRaydium,
    liquidity_amount: u64,
    maximum_token_a_amount: u64,
    maximum_token_b_amount: u64,
) -> bool {
    &&& accounts.program_id.spells(ix.program_id@)
    &&& ix.accounts@.len() == 10
    &&& ix.accounts@[0].names(accounts.pool, false, false)
    &&& ix.accounts@[1].names(accounts.pool_authority, false, false)
    &&& ix.accounts@[2].names(accounts.user_transfer_authority, true, false)
    &&& ix.accounts@[3].names(accounts.user_token_a_account, false, true)
    &&& ix.accounts@[4].names(accounts.user_token_b_account, false, true)
    &&& ix.accounts@[5].names(accounts.pool_token_a_account, false, true)
    &&& ix.accounts@[6].names(accounts.pool_token_b_account, false, true)
    &&& ix.accounts@[7].names(accounts.pool_mint, false, true)
    &&& ix.accounts@[8].names(accounts.user_lp_token_account, false, true)
    &&& ix.accounts@[9].names(accounts.token_program, false, false)
    &&& ix.data@.len() == 25
    &&& ix.data@[0] == 2
    &&& le_u64(ix.data@, 1) == liquidity_amount
    &&& le_u64(ix.data@, 9) == maximum_token_a_amount
    &&& le_u64(ix.data@, 17) == maximum_token_b_amount
}

/// Builds the instruction that deposits liquidity into a pool: it asks for
/// `liquidity_amount` of the pool's tokens and gives at most the two maximum
/// amounts of the pool's assets for them.
pub fn increase_liquidity_on_raydium(
    accounts: &IncreaseLiquidityOnRaydium,
    liquidity_amount: u64,
    maximum_token_a_amount: u64,
    maximum_token_b_amount: u64,
) -> (r: Result<Instruction, SaturnFundError>)
    ensures
        r matches Ok(ix) && is_liquidity_deposit(
            ix,
            *accounts,
            liquidity_amount,
            maximum_token_a_amount,
            maximum_token_b_amount,
        ),
{
    let keys: [[u8; 32]; 11] = [
        accounts.program_id.to_bytes(),
        accounts.token_program.to_bytes(),
        accounts.pool.to_bytes(),
        accounts.pool_authority.to_bytes(),
        accounts.user_transfer_authority.to_bytes(),
        accounts.user_token_a_account.to_bytes(),
        accounts.user_token_b_account.to_bytes(),
        accounts.pool_token_a_account.to_bytes(),
        accounts.pool_token_b_account.to_bytes(),
        accounts.pool_mint.to_bytes(),
        accounts.user_lp_token_account.to_bytes(),
    ];
    match pool_deposit(&keys, liquidity_amount, maximum_token_a_amount, maximum_token_b_amount) {
        Ok(ix) => Ok(ix),
        Err(_) => Err(SaturnFundError::VenueCallFailed),
    }
}

} // verus!
