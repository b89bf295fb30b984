use saturn_fund::error::SaturnFundError;
use saturn_fund::instructions::update_allocation_pda::{
    calculate_new_baseline_percentage, calculate_new_reward_percentage, calculate_new_target_percentage,
    handler as update_policy, update_allocation_based_on_market, MarketData, UpdateAllocationPda,
};
use saturn_fund::instructions::validation::validate_allocation_percentages;
use saturn_fund::state::accounts::Pubkey;
use saturn_fund::state::allocation::{
    is_ascending, sums_within_whole, Allocation, BaselineEnforcement, SettlementRules, TokenAllocation,
};

fn key(n: u128) -> Pubkey {
    Pubkey::new(0, n)
}

fn weight(n: u128, percentage: u8) -> TokenAllocation {
    TokenAllocation { token_mint: key(n), percentage }
}

fn rules() -> SettlementRules {
    SettlementRules {
        shortfall_sale_percentage: 50,
        transfer_fee_percentage: 1,
        baseline_enforcement: BaselineEnforcement::Block,
    }
}

fn candidate(weights: Vec<TokenAllocation>, target: u8, baseline: u8) -> Allocation {
    Allocation::new(weights, target, baseline, 20, key(99), rules()).unwrap()
}

fn market(price_change: i64, volatility: u64, stability: u64, performance: u64) -> MarketData {
    MarketData {
        price_change_percentage: price_change,
        volatility_index: volatility,
        economic_stability_index: stability,
        performance_index: performance,
    }
}

#[test]
fn validate_accepts_target_and_baseline_up_to_whole() {
    assert_eq!(validate_allocation_percentages(&candidate(vec![], 50, 50)), Ok(()));
    assert_eq!(validate_allocation_percentages(&candidate(vec![], 100, 0)), Ok(()));
    assert_eq!(validate_allocation_percentages(&candidate(vec![], 0, 100)), Ok(()));
    assert_eq!(validate_allocation_percentages(&candidate(vec![], 0, 0)), Ok(()));
}

#[test]
fn validate_rejects_target_and_baseline_over_whole() {
    assert_eq!(
        validate_allocation_percentages(&candidate(vec![], 51, 50)),
        Err(SaturnFundError::InvalidPercentage)
    );
    assert_eq!(
        validate_allocation_percentages(&candidate(vec![], 101, 0)),
        Err(SaturnFundError::InvalidPercentage)
    );
    assert_eq!(
        validate_allocation_percentages(&candidate(vec![], 255, 255)),
        Err(SaturnFundError::InvalidPercentage)
    );
    assert_eq!(
        validate_allocation_percentages(&candidate(vec![], 200, 57)),
        Err(SaturnFundError::InvalidPercentage)
    );
}

#[test]
fn validate_holds_weights_to_the_whole() {
    assert_eq!(validate_allocation_percentages(&candidate(vec![weight(1, 60), weight(2, 40)], 50, 20)), Ok(()));
    assert_eq!(
        validate_allocation_percentages(&candidate(vec![weight(1, 60), weight(2, 41)], 50, 20)),
        Err(SaturnFundError::InvalidPercentage)
    );
    assert_eq!(
        validate_allocation_percentages(&candidate(vec![weight(1, 255), weight(2, 255), weight(3, 255)], 50, 20)),
        Err(SaturnFundError::InvalidPercentage)
    );
}

#[test]
fn candidate_weights_must_be_ascending() {
    let unordered = Allocation::new(vec![weight(2, 10), weight(1, 10)], 50, 20, 20, key(99), rules());
    assert_eq!(unordered.err(), Some(SaturnFundError::InvalidAccountData));
    let twice = Allocation::new(vec![weight(1, 10), weight(1, 10)], 50, 20, 20, key(99), rules());
    assert_eq!(twice.err(), Some(SaturnFundError::InvalidAccountData));
    assert!(Allocation::new(vec![weight(1, 10), weight(2, 10)], 50, 20, 20, key(99), rules()).is_ok());
    assert!(is_ascending(&vec![]));
    assert!(is_ascending(&vec![weight(5, 1)]));
    assert!(is_ascending(&vec![weight(1, 1), weight(2, 1), weight(3, 1)]));
    assert!(!is_ascending(&vec![weight(1, 1), weight(3, 1), weight(2, 1)]));
}

#[test]
fn candidate_percentages_must_be_percentages() {
    let reward = Allocation::new(vec![], 50, 20, 101, key(99), rules());
    assert_eq!(reward.err(), Some(SaturnFundError::InvalidPercentage));
    let fee = Allocation::new(
        vec![],
        50,
        20,
        20,
        key(99),
        SettlementRules { transfer_fee_percentage: 101, ..rules() },
    );
    assert_eq!(fee.err(), Some(SaturnFundError::InvalidPercentage));
    let sale = Allocation::new(
        vec![],
        50,
        20,
        20,
        key(99),
        SettlementRules { shortfall_sale_percentage: 101, ..rules() },
    );
    assert_eq!(sale.err(), Some(SaturnFundError::InvalidPercentage));
    let both = Allocation::new(vec![weight(2, 1), weight(1, 1)], 50, 20, 101, key(99), rules());
    assert_eq!(both.err(), Some(SaturnFundError::InvalidAccountData));
}

#[test]
fn candidate_keeps_its_parts() {
    let a = candidate(vec![weight(1, 25), weight(4, 30)], 50, 20);
    assert_eq!(a.holding_tokens(), &vec![weight(1, 25), weight(4, 30)]);
    assert_eq!(a.target_amount_percentage(), 50);
    assert_eq!(a.baseline_amount_percentage(), 20);
    assert_eq!(a.liquidity_pool_reward_percentage(), 20);
    assert_eq!(a.liquidity_pool_reward_destination(), key(99));
    assert_eq!(a.rules(), rules());
    assert_eq!(a.weight_of(&key(1)), Some(25));
    assert_eq!(a.weight_of(&key(4)), Some(30));
    assert_eq!(a.weight_of(&key(2)), None);
    assert!(a.weights_within_whole());
    assert!(sums_within_whole(&vec![weight(1, 100)]));
    assert!(!sums_within_whole(&vec![weight(1, 100), weight(2, 1)]));
}

#[test]
fn owner_replaces_the_policy() {
    let mut ctx = UpdateAllocationPda { allocation_pda: None, owner: key(7) };
    assert_eq!(update_policy(&mut ctx, &key(7), candidate(vec![weight(1, 25)], 40, 30)), Ok(()));
    let stored = ctx.allocation_pda.as_ref().unwrap();
    assert_eq!(stored.target_amount_percentage(), 40);
    assert_eq!(stored.baseline_amount_percentage(), 30);
    assert_eq!(stored.holding_tokens(), &vec![weight(1, 25)]);
    assert_eq!(update_policy(&mut ctx, &key(7), candidate(vec![], 10, 5)), Ok(()));
    let replaced = ctx.allocation_pda.as_ref().unwrap();
    assert_eq!(replaced.target_amount_percentage(), 10);
    assert_eq!(replaced.holding_tokens(), &vec![]);
    assert_eq!(ctx.owner, key(7));
}

#[test]
fn stranger_cannot_replace_the_policy() {
    let mut ctx = UpdateAllocationPda { allocation_pda: Some(candidate(vec![], 40, 30)), owner: key(7) };
    assert_eq!(
        update_policy(&mut ctx, &key(8), candidate(vec![], 10, 5)),
        Err(SaturnFundError::Unauthorized)
    );
    assert_eq!(ctx.allocation_pda.as_ref().unwrap().target_amount_percentage(), 40);
    assert_eq!(
        update_policy(&mut ctx, &key(8), candidate(vec![], 90, 90)),
        Err(SaturnFundError::Unauthorized)
    );
}

#[test]
fn invalid_candidate_changes_nothing() {
    let mut ctx = UpdateAllocationPda { allocation_pda: Some(candidate(vec![weight(1, 5)], 40, 30)), owner: key(7) };
    assert_eq!(
        update_policy(&mut ctx, &key(7), candidate(vec![], 60, 41)),
        Err(SaturnFundError::InvalidPercentage)
    );
    let kept = ctx.allocation_pda.as_ref().unwrap();
    assert_eq!(kept.target_amount_percentage(), 40);
    assert_eq!(kept.baseline_amount_percentage(), 30);
    assert_eq!(kept.holding_tokens(), &vec![weight(1, 5)]);
}

#[test]
fn market_moves_the_target() {
    assert_eq!(calculate_new_target_percentage(&market(0, 0, 50, 60)), 50);
    assert_eq!(calculate_new_target_percentage(&market(501, 0, 50, 60)), 45);
    assert_eq!(calculate_new_target_percentage(&market(500, 0, 50, 60)), 50);
    assert_eq!(calculate_new_target_percentage(&market(-501, 0, 50, 60)), 55);
    assert_eq!(calculate_new_target_percentage(&market(-500, 0, 50, 60)), 50);
    assert_eq!(calculate_new_target_percentage(&market(600, 5001, 50, 60)), 40);
    assert_eq!(calculate_new_target_percentage(&market(0, 5000, 50, 60)), 50);
    assert_eq!(calculate_new_target_percentage(&market(-600, 6000, 50, 60)), 50);
    assert_eq!(calculate_new_target_percentage(&market(i64::MIN, u64::MAX, 50, 60)), 50);
    assert_eq!(calculate_new_target_percentage(&market(i64::MAX, 0, 50, 60)), 45);
}

#[test]
fn market_moves_the_baseline() {
    assert_eq!(calculate_new_baseline_percentage(&market(0, 0, 71, 60)), 40);
    assert_eq!(calculate_new_baseline_percentage(&market(0, 0, 70, 60)), 30);
    assert_eq!(calculate_new_baseline_percentage(&market(0, 0, 30, 60)), 30);
    assert_eq!(calculate_new_baseline_percentage(&market(0, 0, 29, 60)), 20);
}

#[test]
fn market_moves_the_reward_share() {
    assert_eq!(calculate_new_reward_percentage(&market(0, 0, 50, 81)), 25);
    assert_eq!(calculate_new_reward_percentage(&market(0, 0, 50, 80)), 20);
    assert_eq!(calculate_new_reward_percentage(&market(0, 0, 50, 50)), 20);
    assert_eq!(calculate_new_reward_percentage(&market(0, 0, 50, 49)), 15);
}

#[test]
fn market_update_keeps_the_policy_valid() {
    let mut ctx = UpdateAllocationPda { allocation_pda: Some(candidate(vec![weight(1, 25)], 10, 5)), owner: key(7) };
    assert_eq!(update_allocation_based_on_market(&mut ctx, &key(7), market(600, 6000, 80, 90)), Ok(()));
    let stored = ctx.allocation_pda.as_ref().unwrap();
    assert_eq!(stored.target_amount_percentage(), 40);
    assert_eq!(stored.baseline_amount_percentage(), 40);
    assert_eq!(stored.liquidity_pool_reward_percentage(), 25);
    assert_eq!(stored.holding_tokens(), &vec![weight(1, 25)]);
    assert_eq!(stored.liquidity_pool_reward_destination(), key(99));
    assert_eq!(validate_allocation_percentages(stored), Ok(()));
}

#[test]
fn market_update_needs_owner_and_policy() {
    let mut ctx = UpdateAllocationPda { allocation_pda: Some(candidate(vec![], 10, 5)), owner: key(7) };
    assert_eq!(
        update_allocation_based_on_market(&mut ctx, &key(6), market(0, 0, 50, 60)),
        Err(SaturnFundError::Unauthorized)
    );
    assert_eq!(ctx.allocation_pda.as_ref().unwrap().target_amount_percentage(), 10);
    let mut unset = UpdateAllocationPda { allocation_pda: None, owner: key(7) };
    assert_eq!(
        update_allocation_based_on_market(&mut unset, &key(7), market(0, 0, 50, 60)),
        Err(SaturnFundError::PolicyUnset)
    );
    assert!(unset.allocation_pda.is_none());
}

#[test]
fn market_update_leaves_overweight_policy_alone() {
    let mut ctx = UpdateAllocationPda {
        allocation_pda: Some(candidate(vec![weight(1, 60), weight(2, 60)], 10, 5)),
        owner: key(7),
    };
    assert_eq!(
        update_allocation_based_on_market(&mut ctx, &key(7), market(0, 0, 50, 60)),
        Err(SaturnFundError::InvalidPercentage)
    );
    let kept = ctx.allocation_pda.as_ref().unwrap();
    assert_eq!(kept.target_amount_percentage(), 10);
    assert_eq!(kept.baseline_amount_percentage(), 5);
    assert_eq!(kept.liquidity_pool_reward_percentage(), 20);
}

#[test]
fn set_percentages_refuses_reward_over_whole() {
    let mut a = candidate(vec![], 10, 5);
    assert_eq!(a.set_percentages(1, 2, 101), Err(SaturnFundError::InvalidPercentage));
    assert_eq!(a.target_amount_percentage(), 10);
    assert_eq!(a.set_percentages(1, 2, 100), Ok(()));
    assert_eq!(a.target_amount_percentage(), 1);
    assert_eq!(a.baseline_amount_percentage(), 2);
    assert_eq!(a.liquidity_pool_reward_percentage(), 100);
}
