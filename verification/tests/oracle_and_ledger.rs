use saturn_fund::error::SaturnFundError;
use saturn_fund::instructions::manage_transaction_account::{get_fund_value, get_price_from_oracle, price_holdings};
use saturn_fund::instructions::raydium_integration::{
    decode_price_data, ensure_liquidity_representation, get_current_market_price_from_raydium,
    plan_liquidity_deposit, LiquidityOrder, PriceData,
};
use saturn_fund::services::price_stream_service::{decode_price_from_data, read_u64_le};
use saturn_fund::instructions::mint_token::get_balance;
use saturn_fund::state::accounts::{AssetValue, FundValuation, HoldingsLedger, Position, Pubkey, TokenAccount};
use saturn_fund::{process_instruction, FundInstruction};

fn key(n: u128) -> Pubkey {
    Pubkey::new(0, n)
}

fn position(n: u128, amount: u64, price: u64) -> Position {
    Position { mint: key(n), amount, decimals: 6, price }
}

fn record(price: u64, timestamp: u64) -> Vec<u8> {
    let mut bytes = price.to_le_bytes().to_vec();
    bytes.extend_from_slice(&timestamp.to_le_bytes());
    bytes
}

#[test]
fn price_is_first_eight_bytes_of_the_record() {
    assert_eq!(decode_price_from_data(&record(513, 0)), Ok(513));
    assert_eq!(decode_price_from_data(&record(1 << 56, 7)), Ok(1 << 56));
    assert_eq!(decode_price_from_data(&record(u64::MAX, u64::MAX)), Ok(u64::MAX));
    assert_eq!(decode_price_from_data(&[0; 16]), Ok(0));
    assert_eq!(
        decode_price_from_data(&[0x08, 0x07, 0x06, 0x05, 0x04, 0x03, 0x02, 0x01, 9, 9, 9, 9, 9, 9, 9, 9]),
        Ok(0x0102_0304_0506_0708)
    );
    assert_eq!(decode_price_from_data(&record(1_234_567_890_123, 1_700_000_000)), Ok(1_234_567_890_123));
}

#[test]
fn price_ignores_what_follows_the_record() {
    let mut data = record(513, 1000);
    data.extend_from_slice(&[9, 9, 9]);
    assert_eq!(decode_price_from_data(&data), Ok(513));
}

#[test]
fn short_price_data_is_malformed() {
    assert_eq!(decode_price_from_data(&[1, 2, 3, 4, 5, 6, 7]), Err(SaturnFundError::StaleOrMalformedFeed));
    assert_eq!(decode_price_from_data(&[]), Err(SaturnFundError::StaleOrMalformedFeed));
}

#[test]
fn price_without_its_timestamp_is_malformed() {
    assert_eq!(decode_price_from_data(&[1, 2, 0, 0, 0, 0, 0, 0]), Err(SaturnFundError::StaleOrMalformedFeed));
    assert_eq!(decode_price_from_data(&[1, 2, 0, 0, 0, 0, 0, 0, 9]), Err(SaturnFundError::StaleOrMalformedFeed));
    let full = record(513, 1000);
    for len in 8..16 {
        assert_eq!(decode_price_from_data(&full[..len]), Err(SaturnFundError::StaleOrMalformedFeed));
    }
    assert_eq!(decode_price_from_data(&full[..16]), Ok(513));
}

#[test]
fn number_is_read_at_offset() {
    let data = record(77, 1_700_000_000);
    assert_eq!(read_u64_le(&data, 0), Some(77));
    assert_eq!(read_u64_le(&data, 8), Some(1_700_000_000));
    assert_eq!(read_u64_le(&data, 9), None);
    assert_eq!(read_u64_le(&data, usize::MAX), None);
    assert_eq!(read_u64_le(&[1, 0, 0, 0, 0, 0, 0, 0, 2], 1), Some(2 << 56));
}

#[test]
fn price_record_holds_price_then_timestamp() {
    assert_eq!(decode_price_data(&record(513, 1000)), Ok(PriceData { price: 513, timestamp: 1000 }));
    assert_eq!(
        decode_price_data(&record(u64::MAX, u64::MAX)),
        Ok(PriceData { price: u64::MAX, timestamp: u64::MAX })
    );
    let mut longer = record(5, 6);
    longer.push(0xaa);
    assert_eq!(decode_price_data(&longer), Ok(PriceData { price: 5, timestamp: 6 }));
}

#[test]
fn short_price_record_is_malformed() {
    let full = record(513, 1000);
    assert_eq!(decode_price_data(&full[..15]), Err(SaturnFundError::StaleOrMalformedFeed));
    assert_eq!(decode_price_data(&full[..8]), Err(SaturnFundError::StaleOrMalformedFeed));
    assert_eq!(decode_price_data(&[]), Err(SaturnFundError::StaleOrMalformedFeed));
}

#[test]
fn fresh_feed_gives_its_price() {
    let feed = record(42, 1000);
    assert_eq!(
        get_current_market_price_from_raydium(&feed, 1000, 60),
        Ok(PriceData { price: 42, timestamp: 1000 })
    );
    assert_eq!(
        get_current_market_price_from_raydium(&feed, 1060, 60),
        Ok(PriceData { price: 42, timestamp: 1000 })
    );
    assert_eq!(
        get_current_market_price_from_raydium(&feed, 900, 60),
        Ok(PriceData { price: 42, timestamp: 1000 })
    );
    assert_eq!(
        get_current_market_price_from_raydium(&record(42, u64::MAX), u64::MAX, u64::MAX),
        Ok(PriceData { price: 42, timestamp: u64::MAX })
    );
}

#[test]
fn stale_feed_is_refused() {
    let feed = record(42, 1000);
    assert_eq!(get_current_market_price_from_raydium(&feed, 1061, 60), Err(SaturnFundError::StaleOrMalformedFeed));
    assert_eq!(get_current_market_price_from_raydium(&feed, 1001, 0), Err(SaturnFundError::StaleOrMalformedFeed));
    assert_eq!(
        get_current_market_price_from_raydium(&feed[..15], 1000, 60),
        Err(SaturnFundError::StaleOrMalformedFeed)
    );
}

#[test]
fn holdings_are_priced_by_their_feeds() {
    let accounts = vec![
        TokenAccount { mint: key(1), amount: 500, decimals: 6 },
        TokenAccount { mint: key(2), amount: 10, decimals: 9 },
    ];
    let feeds = vec![record(2, 1000), record(30, 990)];
    assert_eq!(
        price_holdings(&accounts, &feeds, 1000, 60),
        Ok(vec![
            Position { mint: key(1), amount: 500, decimals: 6, price: 2 },
            Position { mint: key(2), amount: 10, decimals: 9, price: 30 },
        ])
    );
    assert_eq!(get_fund_value(1000, &accounts, &feeds, 1000, 60), Ok(2300));
    assert_eq!(get_price_from_oracle(&feeds[1], 1000, 60), Ok(30));
}

#[test]
fn one_bad_feed_fails_the_valuation() {
    let accounts = vec![
        TokenAccount { mint: key(1), amount: 500, decimals: 6 },
        TokenAccount { mint: key(2), amount: 10, decimals: 9 },
    ];
    let stale = vec![record(2, 1000), record(30, 900)];
    assert_eq!(price_holdings(&accounts, &stale, 1000, 60), Err(SaturnFundError::StaleOrMalformedFeed));
    assert_eq!(get_fund_value(1000, &accounts, &stale, 1000, 60), Err(SaturnFundError::StaleOrMalformedFeed));
    let short = vec![vec![1, 2, 3], record(30, 1000)];
    assert_eq!(get_fund_value(1000, &accounts, &short, 1000, 60), Err(SaturnFundError::StaleOrMalformedFeed));
    assert_eq!(get_price_from_oracle(&short[0], 1000, 60), Err(SaturnFundError::StaleOrMalformedFeed));
}

#[test]
fn feeds_must_match_the_holdings() {
    let accounts = vec![TokenAccount { mint: key(1), amount: 500, decimals: 6 }];
    assert_eq!(price_holdings(&accounts, &vec![], 1000, 60), Err(SaturnFundError::InvalidAccountData));
    assert_eq!(
        get_fund_value(0, &accounts, &vec![record(1, 1000), record(1, 1000)], 1000, 60),
        Err(SaturnFundError::InvalidAccountData)
    );
    assert_eq!(get_fund_value(7, &vec![], &vec![], 1000, 60), Ok(7));
}

#[test]
fn valuation_needs_ordered_holdings() {
    let accounts = vec![
        TokenAccount { mint: key(2), amount: 500, decimals: 6 },
        TokenAccount { mint: key(1), amount: 10, decimals: 9 },
    ];
    let feeds = vec![record(2, 1000), record(30, 1000)];
    assert_eq!(get_fund_value(0, &accounts, &feeds, 1000, 60), Err(SaturnFundError::InvalidAccountData));
}

#[test]
fn valuation_fails_on_overflow() {
    let accounts = vec![TokenAccount { mint: key(1), amount: u64::MAX, decimals: 6 }];
    assert_eq!(
        get_fund_value(1, &accounts, &vec![record(1, 1000)], 1000, 60),
        Err(SaturnFundError::ValueOverflow)
    );
}

#[test]
fn ledger_takes_ascending_positions() {
    assert!(HoldingsLedger::new(5, vec![]).is_ok());
    assert!(HoldingsLedger::new(5, vec![position(3, 1, 1)]).is_ok());
    assert!(HoldingsLedger::new(5, vec![position(1, 1, 1), position(2, 1, 1), position(9, 1, 1)]).is_ok());
    let l = HoldingsLedger::new(5, vec![position(1, 7, 3), position(2, 1, 1)]).unwrap();
    assert_eq!(l.reserve(), 5);
    assert_eq!(l.liquid_value(), 5);
    assert_eq!(l.positions(), &vec![position(1, 7, 3), position(2, 1, 1)]);
}

#[test]
fn ledger_refuses_unordered_or_repeated_positions() {
    assert_eq!(
        HoldingsLedger::new(5, vec![position(2, 1, 1), position(1, 1, 1)]).err(),
        Some(SaturnFundError::InvalidAccountData)
    );
    assert_eq!(
        HoldingsLedger::new(5, vec![position(1, 1, 1), position(1, 2, 2)]).err(),
        Some(SaturnFundError::InvalidAccountData)
    );
    assert_eq!(
        HoldingsLedger::new(5, vec![position(1, 1, 1), position(3, 1, 1), position(2, 1, 1)]).err(),
        Some(SaturnFundError::InvalidAccountData)
    );
}

#[test]
fn keys_order_as_their_bytes() {
    assert!(Pubkey::new(0, 1).precedes(&Pubkey::new(0, 2)));
    assert!(!Pubkey::new(0, 2).precedes(&Pubkey::new(0, 2)));
    assert!(!Pubkey::new(0, 3).precedes(&Pubkey::new(0, 2)));
    assert!(Pubkey::new(0, u128::MAX).precedes(&Pubkey::new(1, 0)));
    assert!(!Pubkey::new(1, 0).precedes(&Pubkey::new(0, u128::MAX)));
    assert!(Pubkey::new(1, 5).precedes(&Pubkey::new(1, 6)));
    assert!(Pubkey::new(u128::MAX, u128::MAX - 1).precedes(&Pubkey::new(u128::MAX, u128::MAX)));
    assert_eq!(Pubkey::new(3, 4), Pubkey { hi: 3, lo: 4 });
}

#[test]
fn total_value_sums_reserve_and_positions() {
    assert_eq!(HoldingsLedger::new(1000, vec![position(1, 500, 2)]).unwrap().total_value(), Ok(2000));
    assert_eq!(HoldingsLedger::new(1000, vec![position(1, 500, 4)]).unwrap().total_value(), Ok(3000));
    assert_eq!(HoldingsLedger::new(0, vec![]).unwrap().total_value(), Ok(0));
    assert_eq!(
        HoldingsLedger::new(7, vec![position(1, 2, 3), position(2, 4, 5), position(3, 0, 9), position(4, 9, 0)])
            .unwrap()
            .total_value(),
        Ok(33)
    );
    assert_eq!(
        HoldingsLedger::new(0, vec![position(1, u64::MAX, 1)]).unwrap().total_value(),
        Ok(u64::MAX)
    );
}

#[test]
fn total_value_fails_rather_than_wraps() {
    assert_eq!(
        HoldingsLedger::new(0, vec![position(1, u64::MAX, 2)]).unwrap().total_value(),
        Err(SaturnFundError::ValueOverflow)
    );
    assert_eq!(
        HoldingsLedger::new(1, vec![position(1, u64::MAX, 1)]).unwrap().total_value(),
        Err(SaturnFundError::ValueOverflow)
    );
    assert_eq!(
        HoldingsLedger::new(0, vec![position(1, 1 << 63, 1), position(2, 1 << 63, 1)]).unwrap().total_value(),
        Err(SaturnFundError::ValueOverflow)
    );
    assert_eq!(
        HoldingsLedger::new(0, vec![position(1, 1 << 32, 1 << 32), position(2, 0, 0)]).unwrap().total_value(),
        Err(SaturnFundError::ValueOverflow)
    );
}

#[test]
fn share_of_value_is_a_fixed_point_ratio() {
    let l = HoldingsLedger::new(1000, vec![position(1, 500, 2), position(2, 0, 5)]).unwrap();
    assert_eq!(l.percentage_of(&key(1)), Ok(500_000));
    assert_eq!(l.percentage_of(&key(2)), Ok(0));
    let whole = HoldingsLedger::new(0, vec![position(1, 3, 1)]).unwrap();
    assert_eq!(whole.percentage_of(&key(1)), Ok(1_000_000));
    let third = HoldingsLedger::new(2, vec![position(1, 1, 1)]).unwrap();
    assert_eq!(third.percentage_of(&key(1)), Ok(333_333));
    let big = HoldingsLedger::new(0, vec![position(1, u64::MAX, 1)]).unwrap();
    assert_eq!(big.percentage_of(&key(1)), Ok(1_000_000));
}

#[test]
fn share_of_value_fails_distinctly() {
    let l = HoldingsLedger::new(1000, vec![position(1, 500, 2)]).unwrap();
    assert_eq!(l.percentage_of(&key(3)), Err(SaturnFundError::AccountNotFound));
    let empty = HoldingsLedger::new(0, vec![position(1, 0, 2)]).unwrap();
    assert_eq!(empty.percentage_of(&key(1)), Err(SaturnFundError::DivisionByZero));
    let over = HoldingsLedger::new(1, vec![position(1, u64::MAX, 1)]).unwrap();
    assert_eq!(over.percentage_of(&key(1)), Err(SaturnFundError::ValueOverflow));
}

#[test]
fn position_is_found_by_mint() {
    let l = HoldingsLedger::new(1000, vec![position(1, 500, 2), position(4, 7, 9)]).unwrap();
    assert_eq!(l.find(&key(4)), Some(position(4, 7, 9)));
    assert_eq!(l.find(&key(1)), Some(position(1, 500, 2)));
    assert_eq!(l.find(&key(2)), None);
    assert_eq!(l.find(&Pubkey::new(1, 1)), None);
}

#[test]
fn liquidity_is_topped_up_to_its_share() {
    let l = HoldingsLedger::new(1000, vec![position(1, 500, 2)]).unwrap();
    assert_eq!(ensure_liquidity_representation(&l, &key(1), 60), Ok(200));
    assert_eq!(ensure_liquidity_representation(&l, &key(1), 50), Ok(0));
    assert_eq!(ensure_liquidity_representation(&l, &key(1), 10), Ok(0));
    assert_eq!(ensure_liquidity_representation(&l, &key(1), 100), Ok(1000));
    assert_eq!(ensure_liquidity_representation(&l, &key(1), 101), Err(SaturnFundError::InvalidPercentage));
    assert_eq!(ensure_liquidity_representation(&l, &key(2), 10), Err(SaturnFundError::AccountNotFound));
    let over = HoldingsLedger::new(1, vec![position(1, u64::MAX, 1)]).unwrap();
    assert_eq!(ensure_liquidity_representation(&over, &key(1), 10), Err(SaturnFundError::ValueOverflow));
}

#[test]
fn instruction_is_named_by_first_byte() {
    let with_amount = |tag: u8, amount: u64| {
        let mut data = vec![tag];
        data.extend_from_slice(&amount.to_le_bytes());
        data
    };
    assert_eq!(process_instruction(&with_amount(0, 100)), Ok(FundInstruction::MintToken { amount: 100 }));
    assert_eq!(process_instruction(&with_amount(1, u64::MAX)), Ok(FundInstruction::BurnToken { shares: u64::MAX }));
    assert_eq!(process_instruction(&[2]), Ok(FundInstruction::EnsureSolanaBalance));
    assert_eq!(process_instruction(&with_amount(3, 312)), Ok(FundInstruction::SellTokens { amount: 312 }));
    assert_eq!(process_instruction(&[4]), Ok(FundInstruction::CalculatePriceOfFund));
    assert_eq!(process_instruction(&[5]), Ok(FundInstruction::RebalanceHoldings));
    assert_eq!(process_instruction(&[6, 1, 2, 3]), Ok(FundInstruction::UpdateAllocation));
    assert_eq!(process_instruction(&[7]), Ok(FundInstruction::UpdateAllocationBasedOnMarket));
    assert_eq!(
        process_instruction(&with_amount(8, 1000)),
        Ok(FundInstruction::CollectLiquidityPoolRewards { rewards: 1000 })
    );
    assert_eq!(process_instruction(&with_amount(9, 0)), Ok(FundInstruction::TransferWithFee { amount: 0 }));
    assert_eq!(process_instruction(&[10]), Ok(FundInstruction::ManageTransactionAccount));
    assert_eq!(
        process_instruction(&with_amount(11, 30)),
        Ok(FundInstruction::EnsureLiquidityRepresentation { target_percentage: 30 })
    );
    assert_eq!(process_instruction(&[12]), Ok(FundInstruction::CreateMint));
    assert_eq!(process_instruction(&[0, 1, 1, 0, 0, 0, 0, 0, 0, 9, 9]), Ok(FundInstruction::MintToken { amount: 257 }));
}

#[test]
fn unknown_instruction_is_refused() {
    assert_eq!(process_instruction(&[13]), Err(SaturnFundError::InvalidInstructionData));
    assert_eq!(process_instruction(&[13, 0, 0, 0, 0, 0, 0, 0, 0]), Err(SaturnFundError::InvalidInstructionData));
    assert_eq!(process_instruction(&[255, 0]), Err(SaturnFundError::InvalidInstructionData));
    assert_eq!(process_instruction(&[]), Err(SaturnFundError::InvalidInstructionData));
}

#[test]
fn instruction_with_amount_cut_short_is_refused() {
    for tag in [0u8, 1, 3, 8, 9, 11] {
        assert_eq!(process_instruction(&[tag]), Err(SaturnFundError::InvalidInstructionData));
        assert_eq!(
            process_instruction(&[tag, 1, 2, 3, 4, 5, 6, 7]),
            Err(SaturnFundError::InvalidInstructionData)
        );
        assert!(process_instruction(&[tag, 1, 2, 3, 4, 5, 6, 7, 8]).is_ok());
    }
}

#[test]
fn valuation_is_derived_from_the_ledger() {
    let l = HoldingsLedger::new(1000, vec![position(1, 500, 2), position(2, 0, 5), position(3, 7, 3)]).unwrap();
    assert_eq!(
        l.valuation(),
        Ok(FundValuation {
            total_value: 2021,
            liquid_value: 1000,
            per_asset_value: vec![
                AssetValue { mint: key(1), value: 1000 },
                AssetValue { mint: key(2), value: 0 },
                AssetValue { mint: key(3), value: 21 },
            ],
        })
    );
    let empty = HoldingsLedger::new(0, vec![]).unwrap();
    assert_eq!(empty.valuation(), Ok(FundValuation { total_value: 0, liquid_value: 0, per_asset_value: vec![] }));
}

#[test]
fn valuation_fails_rather_than_wraps() {
    let over = HoldingsLedger::new(1, vec![position(1, u64::MAX, 1)]).unwrap();
    assert_eq!(over.valuation(), Err(SaturnFundError::ValueOverflow));
    let product = HoldingsLedger::new(0, vec![position(1, 1 << 40, 1 << 40)]).unwrap();
    assert_eq!(product.valuation(), Err(SaturnFundError::ValueOverflow));
}

#[test]
fn balance_is_first_eight_bytes_little_endian() {
    assert_eq!(get_balance(&[0x10, 0x27, 0, 0, 0, 0, 0, 0, 0xff]), Ok(10_000));
    assert_eq!(get_balance(&u64::MAX.to_le_bytes()), Ok(u64::MAX));
    assert_eq!(get_balance(&[1, 2, 3]), Err(SaturnFundError::InvalidAccountData));
    assert_eq!(get_balance(&[]), Err(SaturnFundError::InvalidAccountData));
}

#[test]
fn liquidity_deposit_is_sized_by_the_pool_price() {
    let l = HoldingsLedger::new(1000, vec![position(1, 500, 2), position(2, 0, 0)]).unwrap();
    assert_eq!(
        plan_liquidity_deposit(&l, &key(1), 60),
        Ok(Some(LiquidityOrder { liquidity_amount: 100, maximum_token_a_amount: 200, maximum_token_b_amount: 200 }))
    );
    assert_eq!(plan_liquidity_deposit(&l, &key(1), 50), Ok(None));
    assert_eq!(plan_liquidity_deposit(&l, &key(2), 0), Ok(None));
    assert_eq!(plan_liquidity_deposit(&l, &key(2), 10), Err(SaturnFundError::DivisionByZero));
    assert_eq!(plan_liquidity_deposit(&l, &key(3), 10), Err(SaturnFundError::AccountNotFound));
    assert_eq!(plan_liquidity_deposit(&l, &key(1), 101), Err(SaturnFundError::InvalidPercentage));
}
