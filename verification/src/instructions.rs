//! The fund's operations, each as a decision on plain values.

pub mod burn_token;
pub mod calculate_price_of_fund;
pub mod collect_liquidity_pool_rewards;
pub mod fee_handling;
pub mod fund_management;
pub mod fund_operation;
pub mod manage_holdings;
pub mod manage_transaction_account;
pub mod mint_management;
pub mod mint_token;
pub mod program_calls;
pub mod raydium_integration;
pub mod transfer_with_fee;
pub mod update_allocation_pda;
pub mod validation;
