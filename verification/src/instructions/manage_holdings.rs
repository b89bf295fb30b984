//! The rebalancing engine: which trades bring each holding to its target
//! weight, and how a plan of trades is carried out step by step.

use vstd::prelude::*;
use crate::error::SaturnFundError;
use crate::instructions::program_calls::{
    clock_sysvar_id,
    new_order_data,
    pack_new_order,
    rent_sysvar_id,
    spec_clock_sysvar_id,
    spec_rent_sysvar_id,
    spec_token_program_id,
    token_program_id,
    NewOrder,
    OrderType,
    SelfTradeBehavior,
    Side,
};
use crate::instructions::validation::validate_allocation_percentages;
use crate::state::instruction::{AccountMeta, Instruction};
use crate::ratio::{percent_of, percentage_of_amount};
use crate::state::accounts::{
    find_position,
    lemma_found_position,
    lemma_prefix_value_le,
    lemma_value_step,
    HoldingsLedger,
    LedgerView,
    Position,
    Pubkey,
};
use crate::state::allocation::{
    ascending_weights,
    is_ascending,
    lemma_weight_le_sum,
    sums_within_whole,
    policy_view,
    weights_sum,
    Allocation,
    AllocationView,
    TokenAllocation,
};

verus! {

/// Which way a trade goes.
#[derive(Clone, Copy, Debug, PartialEq, Eq, Structural)]
pub enum Direction {
    Buy,
    Sell,
}

/// One trade of a rebalancing plan: `amount` units of `mint`, bought or sold.
#[derive(Clone, Copy, Debug, PartialEq, Eq, Structural)]
pub struct Delta {
    pub mint: Pubkey,
    pub direction: Direction,
    pub amount: u64,
}

/// What rebalancing reads: the priced holdings and the stored policy.
#[derive(Debug)]
pub struct ManageHoldings {
    pub ledger: HoldingsLedger,
    pub allocation: Option<Allocation>,
}

/// The trade that brings the holding named by `weight` to its target value,
/// `total * percentage / 100`: a buy of the missing value, or a sale of the
/// excess, in units of the asset at its price; none where the holding is on
/// target. An asset without a holding has no price, and a trade at price zero
/// has no size: both are errors.
pub open spec fn delta_for(positions: Seq<Position>, total: nat, weight: TokenAllocation) -> Result<
    Option<Delta>,
    SaturnFundError,
> {
    match find_position(positions, weight.token_mint) {
        None => Err(SaturnFundError::AccountNotFound),
        Some(p) => {
            let target = percent_of(total as int, weight.percentage as int);
            if p.value() == target {
                Ok(None)
            } else if p.price == 0 {
                Err(SaturnFundError::DivisionByZero)
            } else if p.value() < target {
                Ok(
                    Some(
                        Delta {
                            mint: weight.token_mint,
                            direction: Direction::Buy,
                            amount: ((target - p.value()) / (p.price as int)) as u64,
                        },
                    ),
                )
            } else {
                Ok(
                    Some(
                        Delta {
                            mint: weight.token_mint,
                            direction: Direction::Sell,
                            amount: ((p.value() - target) / (p.price as int)) as u64,
                        },
                    ),
                )
            }
        },
    }
}

/// The trades for the weights, in the order of the weights. The first weight
/// that has no trade for want of a holding or a price fails the whole plan.
pub open spec fn plan_deltas(positions: Seq<Position>, total: nat, weights: Seq<TokenAllocation>) -> Result<
    Seq<Delta>,
    SaturnFundError,
>
    decreases weights.len(),
{
    if weights.len() == 0 {
        Ok(Seq::empty())
    } else {
        match plan_deltas(positions, total, weights.drop_last()) {
            Err(e) => Err(e),
            Ok(deltas) => match delta_for(positions, total, weights.last()) {
                Err(e) => Err(e),
                Ok(None) => Ok(deltas),
                Ok(Some(d)) => Ok(deltas.push(d)),
            },
        }
    }
}

/// The rebalancing plan for a ledger under a policy.
pub open spec fn compute_deltas(ledger: LedgerView, allocation: Option<AllocationView>) -> Result<
    Seq<Delta>,
    SaturnFundError,
> {
    match allocation {
        None => Err(SaturnFundError::PolicyUnset),
        Some(a) => if !a.valid() {
            Err(SaturnFundError::InvalidPercentage)
        } else if ledger.total_value() > u64::MAX {
            Err(SaturnFundError::ValueOverflow)
        } else {
            plan_deltas(ledger.positions, ledger.total_value(), a.holding_tokens)
        },
    }
}

/// The plan for explicitly given weights in place of the policy's.
pub open spec fn compute_deltas_for(ledger: LedgerView, weights: Seq<TokenAllocation>) -> Result<
    Seq<Delta>,
    SaturnFundError,
> {
    if !ascending_weights(weights) {
        Err(SaturnFundError::InvalidAccountData)
    } else if weights_sum(weights) > 100 {
        Err(SaturnFundError::InvalidPercentage)
    } else if ledger.total_value() > u64::MAX {
        Err(SaturnFundError::ValueOverflow)
    } else {
        plan_deltas(ledger.positions, ledger.total_value(), weights)
    }
}

/// A plan as contracts see it.
pub open spec fn plan_view(r: Result<Vec<Delta>, SaturnFundError>) -> Result<Seq<Delta>, SaturnFundError> {
    match r {
        Ok(v) => Ok(v@),
        Err(e) => Err(e),
    }
}

/// Once a prefix of the weights fails, the whole plan fails in the same way.
pub proof fn lemma_plan_error_persists(
    positions: Seq<Position>,
    total: nat,
    weights: Seq<TokenAllocation>,
    k: int,
)
    requires
        0 <= k <= weights.len(),
        plan_deltas(positions, total, weights.subrange(0, k)) is Err,
    ensures
        plan_deltas(positions, total, weights) == plan_deltas(positions, total, weights.subrange(0, k)),
    decreases weights.len(),
{
    if k == weights.len() {
        assert(weights.subrange(0, k) =~= weights);
    } else {
        assert(weights.drop_last().subrange(0, k) =~= weights.subrange(0, k));
        lemma_plan_error_persists(positions, total, weights.drop_last(), k);
    }
}

/// Whether one of the weights is for `mint`.
pub open spec fn has_weight(weights: Seq<TokenAllocation>, mint: Pubkey) -> bool {
    exists|j: int| 0 <= j < weights.len() && #[trigger] weights[j].token_mint == mint
}

/// A plan trades only assets that have a weight, each at most once, and in
/// ascending order of key when the weights are.
pub proof fn lemma_plan_is_ordered(positions: Seq<Position>, total: nat, weights: Seq<TokenAllocation>)
    requires
        ascending_weights(weights),
    ensures
        plan_deltas(positions, total, weights) matches Ok(deltas) ==> {
            &&& deltas.len() <= weights.len()
            &&& forall|k: int| 0 <= k < deltas.len() ==> has_weight(weights, #[trigger] deltas[k].mint)
            &&& forall|a: int, b: int|
                0 <= a < b < deltas.len() ==> deltas[a].mint.rank() < deltas[b].mint.rank()
        },
    decreases weights.len(),
{
    if weights.len() > 0 {
        let front = weights.drop_last();
        lemma_plan_is_ordered(positions, total, front);
        match plan_deltas(positions, total, weights) {
            Err(_) => {},
            Ok(deltas) => {
                let before = plan_deltas(positions, total, front)->Ok_0;
                assert forall|k: int| 0 <= k < before.len() implies has_weight(
                    weights,
                    #[trigger] before[k].mint,
                ) && before[k].mint.rank() < weights.last().token_mint.rank() by {
                    assert(has_weight(front, before[k].mint));
                    let j = choose|j: int|
                        0 <= j < front.len() && #[trigger] front[j].token_mint == before[k].mint;
                    assert(weights[j].token_mint == before[k].mint);
                }
                match delta_for(positions, total, weights.last()) {
                    Ok(Some(d)) => {
                        assert(deltas == before.push(d));
                        assert(weights[weights.len() - 1].token_mint == d.mint);
                    },
                    _ => {},
                }
            },
        }
    }
}

/// Rebalancing is a function of what it reads: one ledger and one policy have
/// one plan, so two runs against the same snapshot name the same trades in
/// the same order.
pub proof fn lemma_compute_deltas_deterministic(
    ledger: LedgerView,
    allocation: Option<AllocationView>,
    first: Result<Seq<Delta>, SaturnFundError>,
    second: Result<Seq<Delta>, SaturnFundError>,
)
    requires
        first == compute_deltas(ledger, allocation),
        second == compute_deltas(ledger, allocation),
    ensures
        first == second,
{
}

/// The plan for a valid policy trades in ascending order of asset key.
pub proof fn lemma_compute_deltas_ascending(ledger: LedgerView, allocation: AllocationView)
    requires
        allocation.wf(),
    ensures
        compute_deltas(ledger, Some(allocation)) matches Ok(deltas) ==> forall|a: int, b: int|
            0 <= a < b < deltas.len() ==> deltas[a].mint.rank() < deltas[b].mint.rank(),
{
    lemma_plan_is_ordered(ledger.positions, ledger.total_value(), allocation.holding_tokens);
}

/// The trade for one weight.
fn delta_for_weight(ledger: &HoldingsLedger, total: u64, weight: &TokenAllocation) -> (r: Result<
    Option<Delta>,
    SaturnFundError,
>)
    requires
        total == ledger@.total_value(),
        weight.percentage <= 100,
    ensures
        r == delta_for(ledger@.positions, total as nat, *weight),
{
    match ledger.find(&weight.token_mint) {
        None => Err(SaturnFundError::AccountNotFound),
        Some(p) => {
            proof {
                lemma_found_position(ledger@.positions, weight.token_mint);
            }
            let target: u64 = percentage_of_amount(total, weight.percentage);
            let value: u64 = p.amount * p.price;
            if value == target {
                Ok(None)
            } else if p.price == 0 {
                Err(SaturnFundError::DivisionByZero)
            } else if value < target {
                Ok(
                    Some(
                        Delta {
                            mint: weight.token_mint,
                            direction: Direction::Buy,
                            amount: (target - value) / p.price,
                        },
                    ),
                )
            } else {
                Ok(
                    Some(
                        Delta {
                            mint: weight.token_mint,
                            direction: Direction::Sell,
                            amount: (value - target) / p.price,
                        },
                    ),
                )
            }
        },
    }
}

/// The trades for the given weights against a valued ledger.
pub(crate) fn plan_for_weights(ledger: &HoldingsLedger, total: u64, weights: &Vec<TokenAllocation>) -> (r: Result<
    Vec<Delta>,
    SaturnFundError,
>)
    requires
        total == ledger@.total_value(),
        weights_sum(weights@) <= 100,
    ensures
        plan_view(r) == plan_deltas(ledger@.positions, total as nat, weights@),
{
    let n: usize = weights.len();
    let mut out: Vec<Delta> = Vec::new();
    let mut i: usize = 0;
    assert(weights@.subrange(0, 0) =~= Seq::<TokenAllocation>::empty());
    while i < n
        invariant
            n == weights@.len(),
            i <= n,
            total == ledger@.total_value(),
            weights_sum(weights@) <= 100,
            plan_deltas(ledger@.positions, total as nat, weights@.subrange(0, i as int)) == Ok::<
                Seq<Delta>,
                SaturnFundError,
            >(out@),
        decreases n - i,
    {
        proof {
            lemma_weight_le_sum(weights@, i as int);
            assert(weights@.subrange(0, i as int + 1).drop_last() =~= weights@.subrange(0, i as int));
        }
        match delta_for_weight(ledger, total, &weights[i]) {
            Err(e) => {
                proof {
                    lemma_plan_error_persists(ledger@.positions, total as nat, weights@, i as int + 1);
                }
                return Err(e);
            },
            Ok(None) => {},
            Ok(Some(d)) => {
                out.push(d);
            },
        }
        i = i + 1;
    }
    assert(weights@.subrange(0, n as int) =~= weights@);
    Ok(out)
}

/// Computes the trades that bring each weighted asset to its target value
/// under the stored policy, in ascending order of asset key. Fails with
/// `PolicyUnset` where no policy is stored, `InvalidPercentage` where the
/// stored policy breaks its invariant, `ValueOverflow` where the fund's value
/// does not fit, and otherwise as the first weight fails that has no holding
/// (`AccountNotFound`) or whose trade has no size at a price of zero
/// (`DivisionByZero`).
pub fn rebalance_holdings(ctx: &ManageHoldings) -> (r: Result<Vec<Delta>, SaturnFundError>)
    ensures
        plan_view(r) == compute_deltas(ctx.ledger@, policy_view(ctx.allocation)),
{
    let allocation: &Allocation = match &ctx.allocation {
        None => {
            return Err(SaturnFundError::PolicyUnset);
        },
        Some(a) => a,
    };
    match validate_allocation_percentages(allocation) {
        Err(e) => {
            return Err(e);
        },
        Ok(()) => {},
    }
    let total: u64 = match ctx.ledger.total_value() {
        Ok(v) => v,
        Err(e) => {
            return Err(e);
        },
    };
    plan_for_weights(&ctx.ledger, total, allocation.holding_tokens())
}

/// Computes the trades that bring each asset named in `allocations` to the
/// given share of the fund's total value, in ascending order of asset key.
/// Weights that are not in ascending order of key are refused with
/// `InvalidAccountData`, weights that sum to more than 100 with
/// `InvalidPercentage`; after that the plan fails as `rebalance_holdings`
/// does.
pub fn adjust_holdings_to(ledger: &HoldingsLedger, allocations: &Vec<TokenAllocation>) -> (r: Result<
    Vec<Delta>,
    SaturnFundError,
>)
    ensures
        plan_view(r) == compute_deltas_for(ledger@, allocations@),
{
    if !is_ascending(allocations) {
        return Err(SaturnFundError::InvalidAccountData);
    }
    if !sums_within_whole(allocations) {
        return Err(SaturnFundError::InvalidPercentage);
    }
    let total: u64 = match ledger.total_value() {
        Ok(v) => v,
        Err(e) => {
            return Err(e);
        },
    };
    plan_for_weights(ledger, total, allocations)
}

/// The value that each holding gets when what is not kept liquid is spread
/// evenly over `count` holdings.
pub open spec fn even_share(total: int, target_percentage: int, count: int) -> int {
    (total - percent_of(total, target_percentage)) / count
}

/// The purchase that brings a position up to `per_holding`, where it is worth
/// less.
pub open spec fn even_delta(p: Position, per_holding: int) -> Result<Option<Delta>, SaturnFundError> {
    if p.value() >= per_holding {
        Ok(None)
    } else if p.price == 0 {
        Err(SaturnFundError::DivisionByZero)
    } else {
        Ok(
            Some(
                Delta {
                    mint: p.mint,
                    direction: Direction::Buy,
                    amount: ((per_holding - p.value()) / (p.price as int)) as u64,
                },
            ),
        )
    }
}

/// The purchases for the positions, in their order.
pub open spec fn plan_even(positions: Seq<Position>, per_holding: int) -> Result<Seq<Delta>, SaturnFundError>
    decreases positions.len(),
{
    if positions.len() == 0 {
        Ok(Seq::empty())
    } else {
        match plan_even(positions.drop_last(), per_holding) {
            Err(e) => Err(e),
            Ok(deltas) => match even_delta(positions.last(), per_holding) {
                Err(e) => Err(e),
                Ok(None) => Ok(deltas),
                Ok(Some(d)) => Ok(deltas.push(d)),
            },
        }
    }
}

/// The purchases that spread the fund's non-liquid value evenly.
pub open spec fn distribute_evenly(ledger: LedgerView, allocation: Option<AllocationView>) -> Result<
    Seq<Delta>,
    SaturnFundError,
> {
    match allocation {
        None => Err(SaturnFundError::PolicyUnset),
        Some(a) => if !a.valid() {
            Err(SaturnFundError::InvalidPercentage)
        } else if ledger.total_value() > u64::MAX {
            Err(SaturnFundError::ValueOverflow)
        } else if ledger.positions.len() == 0 {
            Ok(Seq::empty())
        } else {
            plan_even(
                ledger.positions,
                even_share(
                    ledger.total_value() as int,
                    a.target_amount_percentage as int,
                    ledger.positions.len() as int,
                ),
            )
        },
    }
}

/// Once a prefix of the positions fails, the whole plan fails in the same
/// way.
pub proof fn lemma_even_error_persists(positions: Seq<Position>, per_holding: int, k: int)
    requires
        0 <= k <= positions.len(),
        plan_even(positions.subrange(0, k), per_holding) is Err,
    ensures
        plan_even(positions, per_holding) == plan_even(positions.subrange(0, k), per_holding),
    decreases positions.len(),
{
    if k == positions.len() {
        assert(positions.subrange(0, k) =~= positions);
    } else {
        assert(positions.drop_last().subrange(0, k) =~= positions.subrange(0, k));
        lemma_even_error_persists(positions.drop_last(), per_holding, k);
    }
}

/// Computes the purchases that bring every holding up to an even share of
/// what the policy does not keep liquid: the fund's total value less its
/// liquid target, divided by the number of holdings. A holding that is worth
/// its share or more is left alone. Fails with `PolicyUnset`,
/// `InvalidPercentage` or `ValueOverflow` as rebalancing does, and with
/// `DivisionByZero` at the first holding that would be bought at a price of
/// zero.
pub fn distribute_holdings_evenly(ctx: &ManageHoldings) -> (r: Result<Vec<Delta>, SaturnFundError>)
    ensures
        plan_view(r) == distribute_evenly(ctx.ledger@, policy_view(ctx.allocation)),
{
    let allocation: &Allocation = match &ctx.allocation {
        None => {
            return Err(SaturnFundError::PolicyUnset);
        },
        Some(a) => a,
    };
    match validate_allocation_percentages(allocation) {
        Err(e) => {
            return Err(e);
        },
        Ok(()) => {},
    }
    let total: u64 = match ctx.ledger.total_value() {
        Ok(v) => v,
        Err(e) => {
            return Err(e);
        },
    };
    let positions: &Vec<Position> = ctx.ledger.positions();
    let n: usize = positions.len();
    let mut out: Vec<Delta> = Vec::new();
    if n == 0 {
        return Ok(out);
    }
    let liquid: u64 = percentage_of_amount(total, allocation.target_amount_percentage());
    let per_holding: u64 = (total - liquid) / (n as u64);
    let mut i: usize = 0;
    assert(positions@.subrange(0, 0) =~= Seq::<Position>::empty());
    assert(distribute_evenly(ctx.ledger@, policy_view(ctx.allocation)) == plan_even(
        positions@,
        per_holding as int,
    ));
    while i < n
        invariant
            n == positions@.len(),
            i <= n,
            positions@ == ctx.ledger@.positions,
            total == ctx.ledger@.total_value(),
            distribute_evenly(ctx.ledger@, policy_view(ctx.allocation)) == plan_even(
                positions@,
                per_holding as int,
            ),
            plan_even(positions@.subrange(0, i as int), per_holding as int) == Ok::<
                Seq<Delta>,
                SaturnFundError,
            >(out@),
        decreases n - i,
    {
        let p: Position = positions[i];
        proof {
            lemma_value_step(positions@, i as int);
            lemma_prefix_value_le(positions@, i as int + 1);
            assert(positions@.subrange(0, i as int + 1).drop_last() =~= positions@.subrange(0, i as int));
        }
        let value: u64 = p.amount * p.price;
        if value < per_holding {
            if p.price == 0 {
                proof {
                    lemma_even_error_persists(positions@, per_holding as int, i as int + 1);
                }
                return Err(SaturnFundError::DivisionByZero);
            }
            out.push(Delta { mint: p.mint, direction: Direction::Buy, amount: (per_holding - value) / p.price });
        }
        i = i + 1;
    }
    assert(positions@.subrange(0, n as int) =~= positions@);
    Ok(out)
}

/// A market of the venue: the two assets that it trades, and its order book.
#[derive(Clone, Copy, Debug, PartialEq, Eq, Structural)]
pub struct Market {
    pub base_mint: Pubkey,
    pub quote_mint: Pubkey,
    pub orderbook: Pubkey,
}

/// The first market that trades `mint`, as its base or as its quote.
pub open spec fn market_for(markets: Seq<Market>, mint: Pubkey) -> Option<Market>
    decreases markets.len(),
{
    if markets.len() == 0 {
        None
    } else if markets[0].base_mint == mint || markets[0].quote_mint == mint {
        Some(markets[0])
    } else {
        market_for(markets.drop_first(), mint)
    }
}

/// The order book on which `mint` trades: that of the first market that
/// trades it, where the fund holds that account.
pub open spec fn orderbook_for(markets: Seq<Market>, accounts: Seq<Pubkey>, mint: Pubkey) -> Option<Pubkey> {
    match market_for(markets, mint) {
        Some(m) => if accounts.contains(m.orderbook) {
            Some(m.orderbook)
        } else {
            None
        },
        None => None,
    }
}

/// Finds the order book on which `mint` trades: the order book of the first
/// market that has `mint` as its base or quote asset, if it is among the
/// accounts that the fund holds.
pub fn find_orderbook_account(markets: &Vec<Market>, accounts: &Vec<Pubkey>, mint: &Pubkey) -> (r: Option<Pubkey>)
    ensures
        r == orderbook_for(markets@, accounts@, *mint),
{
    let n: usize = markets.len();
    let mut i: usize = 0;
    assert(markets@.subrange(0, n as int) =~= markets@);
    while i < n
        invariant
            n == markets@.len(),
            i <= n,
            market_for(markets@, *mint) == market_for(markets@.subrange(i as int, n as int), *mint),
        decreases n - i,
    {
        let m: Market = markets[i];
        if m.base_mint == *mint || m.quote_mint == *mint {
            let held: usize = accounts.len();
            let mut j: usize = 0;
            while j < held
                invariant
                    held == accounts@.len(),
                    j <= held,
                    market_for(markets@, *mint) == Some(m),
                    forall|k: int| 0 <= k < j ==> accounts@[k] != m.orderbook,
                decreases held - j,
            {
                if accounts[j] == m.orderbook {
                    assert(accounts@[j as int] == m.orderbook);
                    return Some(m.orderbook);
                }
                j = j + 1;
            }
            return None;
        }
        assert(markets@.subrange(i as int, n as int).drop_first() =~= markets@.subrange(
            i as int + 1,
            n as int,
        ));
        i = i + 1;
    }
    None
}

/// The order that sells `amount` units of `mint`.
pub open spec fn sell_order(ledger: LedgerView, mint: Pubkey, amount: u64) -> Result<Delta, SaturnFundError> {
    match find_position(ledger.positions, mint) {
        None => Err(SaturnFundError::AccountNotFound),
        Some(p) => if amount > p.amount {
            Err(SaturnFundError::InsufficientFunds)
        } else {
            Ok(Delta { mint, direction: Direction::Sell, amount })
        },
    }
}

/// The order that buys `amount` units of `mint`.
pub open spec fn buy_order(ledger: LedgerView, mint: Pubkey, amount: u64) -> Result<Delta, SaturnFundError> {
    match find_position(ledger.positions, mint) {
        None => Err(SaturnFundError::AccountNotFound),
        Some(p) => if amount * p.price > ledger.reserve {
            Err(SaturnFundError::InsufficientFunds)
        } else {
            Ok(Delta { mint, direction: Direction::Buy, amount })
        },
    }
}

/// Decides whether `amount` units of `mint` can be sold: the fund must hold
/// the asset (`AccountNotFound` otherwise) and at least that many units of
/// it (`InsufficientFunds` otherwise), so that no balance goes below zero.
pub fn sell_tokens(ctx: &ManageHoldings, mint: &Pubkey, amount: u64) -> (r: Result<Delta, SaturnFundError>)
    ensures
        r == sell_order(ctx.ledger@, *mint, amount),
{
    match ctx.ledger.find(mint) {
        None => Err(SaturnFundError::AccountNotFound),
        Some(p) => if amount > p.amount {
            Err(SaturnFundError::InsufficientFunds)
        } else {
            Ok(Delta { mint: *mint, direction: Direction::Sell, amount })
        },
    }
}

/// Decides whether `amount` units of `mint` can be bought: the fund must
/// hold a priced position in the asset (`AccountNotFound` otherwise), and the
/// reserve must cover the cost at that price (`InsufficientFunds`
/// otherwise).
pub fn buy_tokens(ctx: &ManageHoldings, mint: &Pubkey, amount: u64) -> (r: Result<Delta, SaturnFundError>)
    ensures
        r == buy_order(ctx.ledger@, *mint, amount),
{
    match ctx.ledger.find(mint) {
        None => Err(SaturnFundError::AccountNotFound),
        Some(p) => {
            let reserve: u64 = ctx.ledger.reserve();
            let affordable: bool = match amount.checked_mul(p.price) {
                Some(cost) => cost <= reserve,
                None => false,
            };
            if affordable {
                Ok(Delta { mint: *mint, direction: Direction::Buy, amount })
            } else {
                Err(SaturnFundError::InsufficientFunds)
            }
        },
    }
}

/// The least that a trade expected to return `expected` may return, for a
/// tolerance of `tolerance_percentage` percent.
pub open spec fn minimum_received(expected: u64, tolerance_percentage: u8) -> int {
    expected - percent_of(expected as int, tolerance_percentage as int)
}

/// What the slippage check answers.
pub open spec fn slippage_verdict(expected: u64, received: u64, tolerance_percentage: u8) -> Result<
    (),
    SaturnFundError,
> {
    if tolerance_percentage > 100 {
        Err(SaturnFundError::InvalidPercentage)
    } else if received < minimum_received(expected, tolerance_percentage) {
        Err(SaturnFundError::SlippageExceeded)
    } else {
        Ok(())
    }
}

/// Holds what the venue returned against what the trade was expected to
/// return. A return under `expected` less `tolerance_percentage` percent of
/// it is refused with `SlippageExceeded`, so that it is reported and not
/// absorbed; a tolerance above 100 with `InvalidPercentage`.
pub fn check_slippage(expected: u64, received: u64, tolerance_percentage: u8) -> (r: Result<(), SaturnFundError>)
    ensures
        r == slippage_verdict(expected, received, tolerance_percentage),
{
    if tolerance_percentage > 100 {
        return Err(SaturnFundError::InvalidPercentage);
    }
    let allowance: u64 = percentage_of_amount(expected, tolerance_percentage);
    if received < expected - allowance {
        Err(SaturnFundError::SlippageExceeded)
    } else {
        Ok(())
    }
}

/// What the venue answered to a trade that was sent to it.
#[derive(Clone, Copy, Debug, PartialEq, Eq, Structural)]
pub enum VenueOutcome {
    Filled,
    Failed,
}

/// Where the execution of a plan stands.
#[derive(Clone, Copy, Debug, PartialEq, Eq, Structural)]
pub enum ExecutionStep {
    /// Send this trade to the venue next.
    Dispatch { step_index: usize, delta: Delta },
    /// Every trade of the plan has been carried out.
    Finished,
}

/// A trade that the venue refused, with what is needed to take the plan up
/// again at that trade. Trades before it stay carried out.
#[derive(Clone, Copy, Debug, PartialEq, Eq, Structural)]
pub struct ExecutionFailure {
    pub error: SaturnFundError,
    pub mint: Pubkey,
    pub direction: Direction,
    pub amount: u64,
    pub step_index: usize,
}

/// The step at which a plan stands when `step_index` trades are done.
pub open spec fn step_at(deltas: Seq<Delta>, step_index: usize) -> ExecutionStep {
    if step_index < deltas.len() {
        ExecutionStep::Dispatch { step_index, delta: deltas[step_index as int] }
    } else {
        ExecutionStep::Finished
    }
}

/// The step that follows the venue's answer to the trade at `step_index`.
pub open spec fn step_after(deltas: Seq<Delta>, step_index: usize, outcome: VenueOutcome) -> Result<
    ExecutionStep,
    ExecutionFailure,
> {
    if step_index >= deltas.len() {
        Ok(ExecutionStep::Finished)
    } else {
        match outcome {
            VenueOutcome::Failed => Err(
                ExecutionFailure {
                    error: SaturnFundError::VenueCallFailed,
                    mint: deltas[step_index as int].mint,
                    direction: deltas[step_index as int].direction,
                    amount: deltas[step_index as int].amount,
                    step_index,
                },
            ),
            VenueOutcome::Filled => Ok(step_at(deltas, (step_index + 1) as usize)),
        }
    }
}

/// Starts or takes up the execution of a plan: the trade to send to the
/// venue when the first `step_index` trades are done, or `Finished`.
pub fn execute(deltas: &Vec<Delta>, step_index: usize) -> (r: ExecutionStep)
    ensures
        r == step_at(deltas@, step_index),
{
    if step_index < deltas.len() {
        ExecutionStep::Dispatch { step_index, delta: deltas[step_index] }
    } else {
        ExecutionStep::Finished
    }
}

/// Takes the venue's answer to the trade at `step_index`. A trade that was
/// filled leads to the next one. A trade that failed ends the execution with
/// `VenueCallFailed` and the asset, amount and index of that trade; what was
/// carried out before it is not undone.
pub fn settle_step(deltas: &Vec<Delta>, step_index: usize, outcome: VenueOutcome) -> (r: Result<
    ExecutionStep,
    ExecutionFailure,
>)
    ensures
        r == step_after(deltas@, step_index, outcome),
{
    if step_index >= deltas.len() {
        return Ok(ExecutionStep::Finished);
    }
    let delta: Delta = deltas[step_index];
    match outcome {
        VenueOutcome::Failed => Err(
            ExecutionFailure {
                error: SaturnFundError::VenueCallFailed,
                mint: delta.mint,
                direction: delta.direction,
                amount: delta.amount,
                step_index,
            },
        ),
        VenueOutcome::Filled => Ok(execute(deltas, step_index + 1)),
    }
}

/// The most orders that one new order may match.
pub const ORDER_MATCH_LIMIT: u16 = 65535;

/// Whether `ix` is an instruction for the venue `dex_program_id` that trades
/// between `source` and `destination` on `orderbook` and carries `data`: it
/// names the venue read-only, the source as a writable signer, the order
/// book and the destination as writable, and then the token program, the
/// rent sysvar and the clock sysvar, read-only.
pub open spec fn is_order_instruction(
    ix: Instruction,
    dex_program_id: Pubkey,
    source: Pubkey,
    destination: Pubkey,
    orderbook: Pubkey,
    data: Seq<u8>,
) -> bool {
    &&& dex_program_id.spells(ix.program_id@)
    &&& ix.accounts@.len() == 7
    &&& ix.accounts@[0].names(dex_program_id, false, false)
    &&& ix.accounts@[1].names(source, true, true)
    &&& ix.accounts@[2].names(orderbook, false, true)
    &&& ix.accounts@[3].names(destination, false, true)
    &&& ix.accounts@[4].names(spec_token_program_id(), false, false)
    &&& ix.accounts@[5].names(spec_rent_sysvar_id(), false, false)
    &&& ix.accounts@[6].names(spec_clock_sysvar_id(), false, false)
    &&& ix.data@ == data
}

/// The order that buys or sells at the venue: a limit order with the given
/// price and quantities, no client id, and the widest match limit.
pub open spec fn venue_order(
    side: Side,
    limit_price: u64,
    max_coin_qty: u64,
    max_native_pc_qty_including_fees: u64,
    self_trade_behavior: SelfTradeBehavior,
) -> NewOrder {
    NewOrder {
        side,
        limit_price,
        max_coin_qty,
        max_native_pc_qty_including_fees,
        self_trade_behavior,
        order_type: OrderType::Limit,
        client_order_id: 0,
        limit: ORDER_MATCH_LIMIT,
    }
}

/// Puts packed order data into the instruction for the venue
/// `dex_program_id`, with the accounts that the venue's order needs.
pub fn order_instruction(
    dex_program_id: &Pubkey,
    source: &Pubkey,
    destination: &Pubkey,
    orderbook: &Pubkey,
    data: Vec<u8>,
) -> (ix: Instruction)
    ensures
        is_order_instruction(ix, *dex_program_id, *source, *destination, *orderbook, data@),
{
    let accounts: Vec<AccountMeta> = vec![
        AccountMeta::new(dex_program_id, false, false),
        AccountMeta::new(source, true, true),
        AccountMeta::new(orderbook, false, true),
        AccountMeta::new(destination, false, true),
        AccountMeta::new(&token_program_id(), false, false),
        AccountMeta::new(&rent_sysvar_id(), false, false),
        AccountMeta::new(&clock_sysvar_id(), false, false),
    ];
    Instruction { program_id: dex_program_id.to_bytes(), accounts, data }
}

/// Builds the venue instruction for an order on the given side. An order
/// whose price or one of whose quantities is zero has no encoding and is
/// refused with `InvalidInstructionData`.
fn construct_order_instruction(
    dex_program_id: &Pubkey,
    source: &Pubkey,
    destination: &Pubkey,
    orderbook: &Pubkey,
    side: Side,
    limit_price: u64,
    max_coin_qty: u64,
    max_native_pc_qty_including_fees: u64,
    self_trade_behavior: SelfTradeBehavior,
) -> (r: Result<Instruction, SaturnFundError>)
    ensures
        r is Ok <==> limit_price != 0 && max_coin_qty != 0 && max_native_pc_qty_including_fees != 0,
        r matches Ok(ix) ==> is_order_instruction(
            ix,
            *dex_program_id,
            *source,
            *destination,
            *orderbook,
            new_order_data(
                venue_order(side, limit_price, max_coin_qty, max_native_pc_qty_including_fees, self_trade_behavior),
            ),
        ),
        r matches Err(e) ==> e == SaturnFundError::InvalidInstructionData,
{
    if limit_price == 0 || max_coin_qty == 0 || max_native_pc_qty_including_fees == 0 {
        return Err(SaturnFundError::InvalidInstructionData);
    }
    let order: NewOrder = NewOrder {
        side,
        limit_price,
        max_coin_qty,
        max_native_pc_qty_including_fees,
        self_trade_behavior,
        order_type: OrderType::Limit,
        client_order_id: 0,
        limit: ORDER_MATCH_LIMIT,
    };
    let data: Vec<u8> = pack_new_order(&order);
    Ok(order_instruction(dex_program_id, source, destination, orderbook, data))
}

/// Builds the venue instruction that bids for up to `max_coin_qty` of an
/// asset at `limit_price`, paying from `source` and receiving into
/// `destination`. A price or a quantity of zero is refused with
/// `InvalidInstructionData`.
pub fn construct_buy_order_instruction(
    dex_program_id: &Pubkey,
    source: &Pubkey,
    destination: &Pubkey,
    orderbook: &Pubkey,
    limit_price: u64,
    max_coin_qty: u64,
    max_native_pc_qty_including_fees: u64,
    self_trade_behavior: SelfTradeBehavior,
) -> (r: Result<Instruction, SaturnFundError>)
    ensures
        r is Ok <==> limit_price != 0 && max_coin_qty != 0 && max_native_pc_qty_including_fees != 0,
        r matches Ok(ix) ==> is_order_instruction(
            ix,
            *dex_program_id,
            *source,
            *destination,
            *orderbook,
            new_order_data(
                venue_order(
                    Side::Bid,
                    limit_price,
                    max_coin_qty,
                    max_native_pc_qty_including_fees,
                    self_trade_behavior,
                ),
            ),
        ),
        r matches Err(e) ==> e == SaturnFundError::InvalidInstructionData,
{
    construct_order_instruction(
        dex_program_id,
        source,
        destination,
        orderbook,
        Side::Bid,
        limit_price,
        max_coin_qty,
        max_native_pc_qty_including_fees,
        self_trade_behavior,
    )
}

/// Builds the venue instruction that asks `limit_price` for up to
/// `max_coin_qty` of an asset, selling from `source` and receiving into
/// `destination`. A price or a quantity of zero is refused with
/// `InvalidInstructionData`.
pub fn construct_sell_order_instruction(
    dex_program_id: &Pubkey,
    source: &Pubkey,
    destination: &Pubkey,
    orderbook: &Pubkey,
    limit_price: u64,
    max_coin_qty: u64,
    max_native_pc_qty_including_fees: u64,
    self_trade_behavior: SelfTradeBehavior,
) -> (r: Result<Instruction, SaturnFundError>)
    ensures
        r is Ok <==> limit_price != 0 && max_coin_qty != 0 && max_native_pc_qty_including_fees != 0,
        r matches Ok(ix) ==> is_order_instruction(
            ix,
            *dex_program_id,
            *source,
            *destination,
            *orderbook,
            new_order_data(
                venue_order(
                    Side::Ask,
                    limit_price,
                    max_coin_qty,
                    max_native_pc_qty_including_fees,
                    self_trade_behavior,
                ),
            ),
        ),
        r matches Err(e) ==> e == SaturnFundError::InvalidInstructionData,
{
    construct_order_instruction(
        dex_program_id,
        source,
        destination,
        orderbook,
        Side::Ask,
        limit_price,
        max_coin_qty,
        max_native_pc_qty_including_fees,
        self_trade_behavior,
    )
}

/// The venue order that carries out a trade of a plan: a bid at the
/// holding's price that may spend the trade's cost, or an ask at that price.
/// A trade of size zero moves nothing and has no order. A purchase that the
/// reserve does not cover, and a sale of more than is held, are refused with
/// `InsufficientFunds`; a sale whose proceeds do not fit in 64 bits, with
/// `Overflow`; a trade at a price of zero has no encoding and is refused
/// with `InvalidInstructionData`.
pub open spec fn delta_order(ledger: LedgerView, delta: Delta, self_trade_behavior: SelfTradeBehavior) -> Result<
    Option<NewOrder>,
    SaturnFundError,
> {
    match find_position(ledger.positions, delta.mint) {
        None => Err(SaturnFundError::AccountNotFound),
        Some(p) => {
            let cost = delta.amount * p.price;
            let refused = match delta.direction {
                Direction::Buy => cost > ledger.reserve,
                Direction::Sell => delta.amount > p.amount,
            };
            if delta.amount == 0 {
                Ok(None)
            } else if refused {
                Err(SaturnFundError::InsufficientFunds)
            } else if cost > u64::MAX {
                Err(SaturnFundError::Overflow)
            } else if p.price == 0 {
                Err(SaturnFundError::InvalidInstructionData)
            } else {
                Ok(
                    Some(
                        venue_order(
                            match delta.direction {
                                Direction::Buy => Side::Bid,
                                Direction::Sell => Side::Ask,
                            },
                            p.price,
                            delta.amount,
                            cost as u64,
                            self_trade_behavior,
                        ),
                    ),
                )
            }
        },
    }
}

/// Builds the venue instruction that carries out one trade of a plan, or
/// none for a trade of size zero, which is carried out by doing nothing. A
/// purchase pays from the fund's reserve account into the holding's token
/// account; a sale goes the other way.
pub fn delta_order_instruction(
    ctx: &ManageHoldings,
    delta: &Delta,
    dex_program_id: &Pubkey,
    fund_account: &Pubkey,
    token_account: &Pubkey,
    orderbook: &Pubkey,
    self_trade_behavior: SelfTradeBehavior,
) -> (r: Result<Option<Instruction>, SaturnFundError>)
    ensures
        match delta_order(ctx.ledger@, *delta, self_trade_behavior) {
            Err(e) => r == Err::<Option<Instruction>, SaturnFundError>(e),
            Ok(None) => r matches Ok(None),
            Ok(Some(order)) => r matches Ok(Some(ix)) && is_order_instruction(
                ix,
                *dex_program_id,
                match delta.direction {
                    Direction::Buy => *fund_account,
                    Direction::Sell => *token_account,
                },
                match delta.direction {
                    Direction::Buy => *token_account,
                    Direction::Sell => *fund_account,
                },
                *orderbook,
                new_order_data(order),
            ),
        },
{
    let position: Position = match ctx.ledger.find(&delta.mint) {
        Some(p) => p,
        None => {
            return Err(SaturnFundError::AccountNotFound);
        },
    };
    if delta.amount == 0 {
        return Ok(None);
    }
    let reserve: u64 = ctx.ledger.reserve();
    let (side, source, destination): (Side, &Pubkey, &Pubkey) = match delta.direction {
        Direction::Buy => (Side::Bid, fund_account, token_account),
        Direction::Sell => (Side::Ask, token_account, fund_account),
    };
    let cost: u64 = match delta.direction {
        Direction::Buy => {
            match delta.amount.checked_mul(position.price) {
                Some(c) => if c > reserve {
                    return Err(SaturnFundError::InsufficientFunds);
                } else {
                    c
                },
                None => {
                    return Err(SaturnFundError::InsufficientFunds);
                },
            }
        },
        Direction::Sell => {
            if delta.amount > position.amount {
                return Err(SaturnFundError::InsufficientFunds);
            }
            match delta.amount.checked_mul(position.price) {
                Some(c) => c,
                None => {
                    return Err(SaturnFundError::Overflow);
                },
            }
        },
    };
    if position.price == 0 {
        return Err(SaturnFundError::InvalidInstructionData);
    }
    assert(cost != 0) by (nonlinear_arith)
        requires
            cost == delta.amount * position.price,
            delta.amount != 0,
            position.price != 0,
    ;
    match construct_order_instruction(
        dex_program_id,
        source,
        destination,
        orderbook,
        side,
        position.price,
        delta.amount,
        cost,
        self_trade_behavior,
    ) {
        Ok(ix) => Ok(Some(ix)),
        Err(e) => Err(e),
    }
}

} // verus!
