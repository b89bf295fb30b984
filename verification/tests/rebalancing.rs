use saturn_fund::error::SaturnFundError;
use saturn_fund::instructions::fund_management::{adjust_fund_holdings, ensure_solana_balance, FundManagement};
use saturn_fund::instructions::manage_holdings::{
    buy_tokens, check_slippage, distribute_holdings_evenly, execute, find_orderbook_account,
    rebalance_holdings, sell_tokens, settle_step, Delta, Direction, ExecutionFailure, ExecutionStep,
    ManageHoldings, Market, VenueOutcome,
};
use saturn_fund::instructions::manage_transaction_account::{
    adjust_balances, dynamic_transaction_account_management, enforce_baseline_amount,
    settle_against_baseline, BalanceAdjustment, ManageTransactionAccount,
};
use saturn_fund::state::accounts::{HoldingsLedger, Position, Pubkey};
use saturn_fund::state::allocation::{Allocation, BaselineEnforcement, SettlementRules, TokenAllocation};

fn key(n: u128) -> Pubkey {
    Pubkey::new(0, n)
}

fn position(n: u128, amount: u64, price: u64) -> Position {
    Position { mint: key(n), amount, decimals: 6, price }
}

fn weight(n: u128, percentage: u8) -> TokenAllocation {
    TokenAllocation { token_mint: key(n), percentage }
}

fn rules(enforcement: BaselineEnforcement) -> SettlementRules {
    SettlementRules { shortfall_sale_percentage: 50, transfer_fee_percentage: 0, baseline_enforcement: enforcement }
}

fn policy(weights: Vec<TokenAllocation>, target: u8, baseline: u8) -> Allocation {
    Allocation::new(weights, target, baseline, 20, key(99), rules(BaselineEnforcement::Block)).unwrap()
}

fn holdings(reserve: u64, positions: Vec<Position>, weights: Vec<TokenAllocation>) -> ManageHoldings {
    ManageHoldings {
        ledger: HoldingsLedger::new(reserve, positions).unwrap(),
        allocation: Some(policy(weights, 50, 20)),
    }
}

fn sell(n: u128, amount: u64) -> Delta {
    Delta { mint: key(n), direction: Direction::Sell, amount }
}

fn buy(n: u128, amount: u64) -> Delta {
    Delta { mint: key(n), direction: Direction::Buy, amount }
}

#[test]
fn holding_on_target_has_no_delta() {
    let ctx = holdings(1500, vec![position(1, 250, 2)], vec![weight(1, 25)]);
    assert_eq!(ctx.ledger.total_value(), Ok(2000));
    assert_eq!(rebalance_holdings(&ctx), Ok(vec![]));
}

#[test]
fn holding_over_target_is_sold_down() {
    let ctx = holdings(1000, vec![position(1, 500, 2)], vec![weight(1, 25)]);
    assert_eq!(ctx.ledger.total_value(), Ok(2000));
    assert_eq!(rebalance_holdings(&ctx), Ok(vec![sell(1, 250)]));
}

#[test]
fn price_rise_gives_sell_delta() {
    let ctx = holdings(1000, vec![position(1, 500, 4)], vec![weight(1, 25)]);
    assert_eq!(ctx.ledger.total_value(), Ok(3000));
    assert_eq!(rebalance_holdings(&ctx), Ok(vec![sell(1, 312)]));
}

#[test]
fn holding_under_target_is_bought_up() {
    let ctx = holdings(1800, vec![position(1, 100, 2)], vec![weight(1, 25)]);
    assert_eq!(rebalance_holdings(&ctx), Ok(vec![buy(1, 150)]));
}

#[test]
fn deltas_come_in_ascending_order_of_asset() {
    let ctx = holdings(
        400,
        vec![position(1, 100, 1), position(2, 50, 4), position(3, 100, 3)],
        vec![weight(1, 20), weight(2, 20), weight(3, 10)],
    );
    assert_eq!(ctx.ledger.total_value(), Ok(1000));
    assert_eq!(rebalance_holdings(&ctx), Ok(vec![buy(1, 100), sell(3, 66)]));
}

#[test]
fn deltas_order_by_high_half_of_key_first() {
    let low = Pubkey::new(0, u128::MAX);
    let high = Pubkey::new(1, 0);
    let ledger = HoldingsLedger::new(
        0,
        vec![
            Position { mint: low, amount: 100, decimals: 0, price: 1 },
            Position { mint: high, amount: 100, decimals: 0, price: 1 },
        ],
    )
    .unwrap();
    let allocation = policy(
        vec![
            TokenAllocation { token_mint: low, percentage: 10 },
            TokenAllocation { token_mint: high, percentage: 60 },
        ],
        20,
        10,
    );
    let ctx = ManageHoldings { ledger, allocation: Some(allocation) };
    assert_eq!(
        rebalance_holdings(&ctx),
        Ok(vec![
            Delta { mint: low, direction: Direction::Sell, amount: 80 },
            Delta { mint: high, direction: Direction::Buy, amount: 20 },
        ])
    );
}

#[test]
fn rebalancing_is_deterministic() {
    let ctx = holdings(
        400,
        vec![position(1, 100, 1), position(2, 50, 4), position(3, 100, 3)],
        vec![weight(1, 20), weight(2, 20), weight(3, 10)],
    );
    let first = rebalance_holdings(&ctx);
    let second = rebalance_holdings(&ctx);
    assert_eq!(first, second);
    let same = holdings(
        400,
        vec![position(1, 100, 1), position(2, 50, 4), position(3, 100, 3)],
        vec![weight(1, 20), weight(2, 20), weight(3, 10)],
    );
    assert_eq!(rebalance_holdings(&same), first);
}

#[test]
fn rebalancing_without_policy_is_refused() {
    let ctx = ManageHoldings { ledger: HoldingsLedger::new(10, vec![]).unwrap(), allocation: None };
    assert_eq!(rebalance_holdings(&ctx), Err(SaturnFundError::PolicyUnset));
}

#[test]
fn rebalancing_under_invalid_weights_is_refused() {
    let ctx = holdings(10, vec![position(1, 1, 1), position(2, 1, 1)], vec![weight(1, 60), weight(2, 41)]);
    assert_eq!(rebalance_holdings(&ctx), Err(SaturnFundError::InvalidPercentage));
}

#[test]
fn rebalancing_fails_on_value_overflow() {
    let ctx = holdings(0, vec![position(1, u64::MAX, 2)], vec![weight(1, 10)]);
    assert_eq!(rebalance_holdings(&ctx), Err(SaturnFundError::ValueOverflow));
}

#[test]
fn weight_without_holding_fails_the_plan() {
    let ctx = holdings(1000, vec![position(1, 500, 2)], vec![weight(1, 25), weight(9, 10)]);
    assert_eq!(rebalance_holdings(&ctx), Err(SaturnFundError::AccountNotFound));
}

#[test]
fn purchase_at_price_zero_fails_the_plan() {
    let ctx = holdings(1000, vec![position(1, 0, 0)], vec![weight(1, 10)]);
    assert_eq!(rebalance_holdings(&ctx), Err(SaturnFundError::DivisionByZero));
}

#[test]
fn unpriced_holding_with_weight_zero_is_left_alone() {
    let ctx = holdings(1000, vec![position(1, 0, 0)], vec![weight(1, 0)]);
    assert_eq!(rebalance_holdings(&ctx), Ok(vec![]));
}

#[test]
fn first_failing_weight_decides_the_error() {
    let ctx = holdings(1000, vec![position(1, 0, 0)], vec![weight(1, 10), weight(9, 10)]);
    assert_eq!(rebalance_holdings(&ctx), Err(SaturnFundError::DivisionByZero));
    let other = holdings(1000, vec![position(5, 0, 0)], vec![weight(1, 10), weight(5, 10)]);
    assert_eq!(rebalance_holdings(&other), Err(SaturnFundError::AccountNotFound));
}

#[test]
fn truncated_delta_is_still_emitted() {
    let ctx = holdings(1999, vec![position(1, 0, 3)], vec![weight(1, 0)]);
    assert_eq!(rebalance_holdings(&ctx), Ok(vec![]));
    let small = holdings(99, vec![position(1, 1, 1)], vec![weight(1, 2)]);
    assert_eq!(small.ledger.total_value(), Ok(100));
    assert_eq!(rebalance_holdings(&small), Ok(vec![buy(1, 1)]));
    let tiny = holdings(98, vec![position(1, 1, 2)], vec![weight(1, 3)]);
    assert_eq!(tiny.ledger.total_value(), Ok(100));
    assert_eq!(rebalance_holdings(&tiny), Ok(vec![buy(1, 0)]));
}

#[test]
fn explicit_weights_give_the_same_plan() {
    let ctx = FundManagement {
        ledger: HoldingsLedger::new(1000, vec![position(1, 500, 4)]).unwrap(),
        allocation: None,
    };
    assert_eq!(adjust_fund_holdings(&ctx, &vec![weight(1, 25)]), Ok(vec![sell(1, 312)]));
}

#[test]
fn explicit_weights_must_be_ascending() {
    let ctx = FundManagement {
        ledger: HoldingsLedger::new(1000, vec![position(1, 1, 1), position(2, 1, 1)]).unwrap(),
        allocation: None,
    };
    assert_eq!(
        adjust_fund_holdings(&ctx, &vec![weight(2, 10), weight(1, 10)]),
        Err(SaturnFundError::InvalidAccountData)
    );
    assert_eq!(
        adjust_fund_holdings(&ctx, &vec![weight(1, 10), weight(1, 10)]),
        Err(SaturnFundError::InvalidAccountData)
    );
}

#[test]
fn explicit_weights_must_fit_the_whole() {
    let ctx = FundManagement {
        ledger: HoldingsLedger::new(1000, vec![position(1, 1, 1), position(2, 1, 1)]).unwrap(),
        allocation: None,
    };
    assert_eq!(
        adjust_fund_holdings(&ctx, &vec![weight(1, 50), weight(2, 51)]),
        Err(SaturnFundError::InvalidPercentage)
    );
    assert!(adjust_fund_holdings(&ctx, &vec![weight(1, 50), weight(2, 50)]).is_ok());
}

#[test]
fn even_distribution_buys_up_small_holdings() {
    let ctx = holdings(400, vec![position(1, 100, 1), position(2, 50, 4), position(3, 100, 3)], vec![]);
    assert_eq!(distribute_holdings_evenly(&ctx), Ok(vec![buy(1, 66)]));
}

#[test]
fn even_distribution_of_nothing_is_empty() {
    let ctx = holdings(400, vec![], vec![]);
    assert_eq!(distribute_holdings_evenly(&ctx), Ok(vec![]));
}

#[test]
fn even_distribution_fails_at_price_zero() {
    let ctx = holdings(400, vec![position(1, 100, 1), position(2, 5, 0)], vec![]);
    assert_eq!(distribute_holdings_evenly(&ctx), Err(SaturnFundError::DivisionByZero));
}

#[test]
fn even_distribution_without_policy_is_refused() {
    let ctx = ManageHoldings { ledger: HoldingsLedger::new(10, vec![]).unwrap(), allocation: None };
    assert_eq!(distribute_holdings_evenly(&ctx), Err(SaturnFundError::PolicyUnset));
}

#[test]
fn sale_needs_the_holding_and_the_units() {
    let ctx = holdings(1000, vec![position(1, 500, 2)], vec![]);
    assert_eq!(sell_tokens(&ctx, &key(1), 500), Ok(sell(1, 500)));
    assert_eq!(sell_tokens(&ctx, &key(1), 501), Err(SaturnFundError::InsufficientFunds));
    assert_eq!(sell_tokens(&ctx, &key(2), 1), Err(SaturnFundError::AccountNotFound));
}

#[test]
fn purchase_needs_the_holding_and_the_reserve() {
    let ctx = holdings(1000, vec![position(1, 500, 2)], vec![]);
    assert_eq!(buy_tokens(&ctx, &key(1), 500), Ok(buy(1, 500)));
    assert_eq!(buy_tokens(&ctx, &key(1), 501), Err(SaturnFundError::InsufficientFunds));
    assert_eq!(buy_tokens(&ctx, &key(1), u64::MAX), Err(SaturnFundError::InsufficientFunds));
    assert_eq!(buy_tokens(&ctx, &key(2), 1), Err(SaturnFundError::AccountNotFound));
}

#[test]
fn execution_walks_the_plan() {
    let plan = vec![buy(1, 100), sell(3, 66)];
    assert_eq!(execute(&plan, 0), ExecutionStep::Dispatch { step_index: 0, delta: buy(1, 100) });
    assert_eq!(
        settle_step(&plan, 0, VenueOutcome::Filled),
        Ok(ExecutionStep::Dispatch { step_index: 1, delta: sell(3, 66) })
    );
    assert_eq!(settle_step(&plan, 1, VenueOutcome::Filled), Ok(ExecutionStep::Finished));
    assert_eq!(execute(&plan, 2), ExecutionStep::Finished);
    assert_eq!(execute(&vec![], 0), ExecutionStep::Finished);
}

#[test]
fn venue_failure_is_reported_with_its_step() {
    let plan = vec![buy(1, 100), sell(3, 66)];
    assert_eq!(
        settle_step(&plan, 1, VenueOutcome::Failed),
        Err(ExecutionFailure {
            error: SaturnFundError::VenueCallFailed,
            mint: key(3),
            direction: Direction::Sell,
            amount: 66,
            step_index: 1,
        })
    );
    assert_eq!(execute(&plan, 1), ExecutionStep::Dispatch { step_index: 1, delta: sell(3, 66) });
    assert_eq!(settle_step(&plan, 2, VenueOutcome::Failed), Ok(ExecutionStep::Finished));
    assert_eq!(settle_step(&plan, usize::MAX, VenueOutcome::Filled), Ok(ExecutionStep::Finished));
}

#[test]
fn rerun_after_partial_failure_converges() {
    let before = holdings(
        400,
        vec![position(1, 100, 1), position(2, 50, 4), position(3, 100, 3)],
        vec![weight(1, 20), weight(2, 20), weight(3, 10)],
    );
    assert_eq!(rebalance_holdings(&before), Ok(vec![buy(1, 100), sell(3, 66)]));
    let after_first = holdings(
        300,
        vec![position(1, 200, 1), position(2, 50, 4), position(3, 100, 3)],
        vec![weight(1, 20), weight(2, 20), weight(3, 10)],
    );
    assert_eq!(rebalance_holdings(&after_first), Ok(vec![sell(3, 66)]));
}

#[test]
fn slippage_beyond_tolerance_is_reported() {
    assert_eq!(check_slippage(1000, 990, 1), Ok(()));
    assert_eq!(check_slippage(1000, 989, 1), Err(SaturnFundError::SlippageExceeded));
    assert_eq!(check_slippage(1000, 1000, 0), Ok(()));
    assert_eq!(check_slippage(1000, 999, 0), Err(SaturnFundError::SlippageExceeded));
    assert_eq!(check_slippage(1000, 0, 100), Ok(()));
    assert_eq!(check_slippage(1000, 2000, 1), Ok(()));
    assert_eq!(check_slippage(1000, 1000, 101), Err(SaturnFundError::InvalidPercentage));
}

#[test]
fn reserve_is_steered_to_target() {
    let ctx = |reserve: u64, held: u64| FundManagement {
        ledger: HoldingsLedger::new(reserve, vec![position(1, held, 1)]).unwrap(),
        allocation: Some(policy(vec![], 50, 20)),
    };
    assert_eq!(ensure_solana_balance(&ctx(100, 900)), Ok(BalanceAdjustment::Fill(400)));
    assert_eq!(ensure_solana_balance(&ctx(700, 300)), Ok(BalanceAdjustment::Release(200)));
    assert_eq!(ensure_solana_balance(&ctx(500, 500)), Ok(BalanceAdjustment::Keep));
    let unset = FundManagement { ledger: HoldingsLedger::new(1, vec![]).unwrap(), allocation: None };
    assert_eq!(ensure_solana_balance(&unset), Err(SaturnFundError::PolicyUnset));
}

#[test]
fn reserve_is_kept_between_baseline_and_target() {
    let ctx = |reserve: u64, held: u64| ManageTransactionAccount {
        transaction_mint: key(7),
        reserve_mint: key(7),
        ledger: HoldingsLedger::new(reserve, vec![position(1, held, 1)]).unwrap(),
        allocation: Some(policy(vec![], 50, 20)),
    };
    assert_eq!(dynamic_transaction_account_management(&ctx(100, 900)), Ok(BalanceAdjustment::Fill(100)));
    assert_eq!(dynamic_transaction_account_management(&ctx(700, 300)), Ok(BalanceAdjustment::Release(200)));
    assert_eq!(dynamic_transaction_account_management(&ctx(300, 700)), Ok(BalanceAdjustment::Keep));
    assert_eq!(dynamic_transaction_account_management(&ctx(200, 800)), Ok(BalanceAdjustment::Keep));
    assert_eq!(dynamic_transaction_account_management(&ctx(500, 500)), Ok(BalanceAdjustment::Keep));
}

#[test]
fn reserve_account_must_hold_the_reserve_asset() {
    let ctx = ManageTransactionAccount {
        transaction_mint: key(8),
        reserve_mint: key(7),
        ledger: HoldingsLedger::new(100, vec![]).unwrap(),
        allocation: Some(policy(vec![], 50, 20)),
    };
    assert_eq!(dynamic_transaction_account_management(&ctx), Err(SaturnFundError::InvalidAccountData));
}

#[test]
fn baseline_amount_is_the_missing_difference() {
    let ctx = |reserve: u64, held: u64| ManageTransactionAccount {
        transaction_mint: key(7),
        reserve_mint: key(7),
        ledger: HoldingsLedger::new(reserve, vec![position(1, held, 1)]).unwrap(),
        allocation: Some(policy(vec![], 50, 20)),
    };
    assert_eq!(enforce_baseline_amount(&ctx(100, 900)), Ok(100));
    assert_eq!(enforce_baseline_amount(&ctx(200, 800)), Ok(0));
    assert_eq!(enforce_baseline_amount(&ctx(900, 100)), Ok(0));
}

#[test]
fn balances_adjust_by_rule() {
    assert_eq!(adjust_balances(10, 50, 20), BalanceAdjustment::Fill(10));
    assert_eq!(adjust_balances(60, 50, 20), BalanceAdjustment::Release(10));
    assert_eq!(adjust_balances(20, 50, 20), BalanceAdjustment::Keep);
    assert_eq!(adjust_balances(50, 50, 20), BalanceAdjustment::Keep);
    assert_eq!(adjust_balances(30, 10, 40), BalanceAdjustment::Fill(10));
}

#[test]
fn baseline_settlement_follows_the_policy() {
    let block = Allocation::new(vec![], 50, 20, 20, key(99), rules(BaselineEnforcement::Block)).unwrap();
    let top_up = Allocation::new(vec![], 50, 20, 20, key(99), rules(BaselineEnforcement::TopUp)).unwrap();
    assert_eq!(settle_against_baseline(200, 1000, &block), Ok(0));
    assert_eq!(settle_against_baseline(199, 1000, &block), Err(SaturnFundError::BelowBaseline));
    assert_eq!(settle_against_baseline(199, 1000, &top_up), Ok(1));
    assert_eq!(settle_against_baseline(0, 1000, &top_up), Ok(200));
    let unchecked = Allocation::new(vec![], 0, 200, 20, key(99), rules(BaselineEnforcement::TopUp)).unwrap();
    assert_eq!(settle_against_baseline(0, 1000, &unchecked), Err(SaturnFundError::InvalidPercentage));
}

#[test]
fn orderbook_is_that_of_the_first_market_for_the_asset() {
    let markets = vec![
        Market { base_mint: key(1), quote_mint: key(2), orderbook: key(51) },
        Market { base_mint: key(3), quote_mint: key(1), orderbook: key(52) },
        Market { base_mint: key(4), quote_mint: key(5), orderbook: key(53) },
    ];
    let held = vec![key(50), key(51), key(52)];
    assert_eq!(find_orderbook_account(&markets, &held, &key(1)), Some(key(51)));
    assert_eq!(find_orderbook_account(&markets, &held, &key(2)), Some(key(51)));
    assert_eq!(find_orderbook_account(&markets, &held, &key(3)), Some(key(52)));
    assert_eq!(find_orderbook_account(&markets, &held, &key(5)), None);
    assert_eq!(find_orderbook_account(&markets, &held, &key(9)), None);
    assert_eq!(find_orderbook_account(&markets, &vec![], &key(1)), None);
    assert_eq!(find_orderbook_account(&vec![], &held, &key(1)), None);
    let shadowed = vec![
        Market { base_mint: key(1), quote_mint: key(2), orderbook: key(99) },
        Market { base_mint: key(1), quote_mint: key(2), orderbook: key(51) },
    ];
    assert_eq!(find_orderbook_account(&shadowed, &held, &key(1)), None);
}
