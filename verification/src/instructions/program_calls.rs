//! The instructions that the token program, the system program and the
//! order-book venue define, built by the crates that define them.

use vstd::prelude::*;
use serum_dex::instruction as venue;
use serum_dex::matching;
use crate::services::price_stream_service::le_u64;
use crate::state::accounts::Pubkey;
use crate::state::instruction::{AccountMeta, Instruction};

verus! {

/// The error of the token program's instruction builders.
#[verifier::external_type_specification]
#[verifier::external_body]
pub struct ExProgramError(spl_token::solana_program::program_error::ProgramError);

/// The error of the swap program's instruction builders.
#[verifier::external_type_specification]
#[verifier::external_body]
pub struct ExSwapProgramError(spl_token_swap::solana_program::program_error::ProgramError);

/// The side of an order.
#[derive(Clone, Copy, Debug, PartialEq, Eq, Structural)]
pub enum Side {
    Bid,
    Ask,
}

/// What happens when an order would trade against an order of the same owner.
#[derive(Clone, Copy, Debug, PartialEq, Eq, Structural)]
pub enum SelfTradeBehavior {
    DecrementTake,
    CancelProvide,
    AbortTransaction,
}

/// How long an order lives.
#[derive(Clone, Copy, Debug, PartialEq, Eq, Structural)]
pub enum OrderType {
    Limit,
    ImmediateOrCancel,
    PostOnly,
}

/// A new order for the order-book venue.
#[derive(Clone, Copy, Debug, PartialEq, Eq, Structural)]
pub struct NewOrder {
    pub side: Side,
    pub limit_price: u64,
    pub max_coin_qty: u64,
    pub max_native_pc_qty_including_fees: u64,
    pub self_trade_behavior: SelfTradeBehavior,
    pub order_type: OrderType,
    pub client_order_id: u64,
    pub limit: u16,
}

impl NewOrder {
    /// The venue takes only orders whose price and quantities are not zero.
    pub open spec fn sized(self) -> bool {
        self.limit_price != 0 && self.max_coin_qty != 0 && self.max_native_pc_qty_including_fees != 0
    }
}

/// The key of the token program.
pub open spec fn spec_token_program_id() -> Pubkey {
    Pubkey { hi: 0x06dd_f6e1_d765_a193_d9cb_e146_ceeb_79ac, lo: 0x1cb4_85ed_5f5b_3791_3a8c_f585_7eff_00a9 }
}

/// The key of the system program: 32 zero bytes.
pub open spec fn spec_system_program_id() -> Pubkey {
    Pubkey { hi: 0, lo: 0 }
}

/// The key of the rent sysvar.
pub open spec fn spec_rent_sysvar_id() -> Pubkey {
    Pubkey { hi: 0x06a7_d517_192c_5c51_218c_c94c_3d4a_f17f, lo: 0x58da_ee08_9ba1_fd44_e3db_d98a_0000_0000 }
}

/// The key of the clock sysvar.
pub open spec fn spec_clock_sysvar_id() -> Pubkey {
    Pubkey { hi: 0x06a7_d517_18c7_74c9_2856_6398_691d_5eb6, lo: 0x8b5e_b8a3_9b4b_6d5c_7355_5b21_0000_0000 }
}

/// The key of the token program.
pub fn token_program_id() -> (k: Pubkey)
    ensures
        k == spec_token_program_id(),
{
    Pubkey { hi: 0x06dd_f6e1_d765_a193_d9cb_e146_ceeb_79ac, lo: 0x1cb4_85ed_5f5b_3791_3a8c_f585_7eff_00a9 }
}

/// The key of the system program.
pub fn system_program_id() -> (k: Pubkey)
    ensures
        k == spec_system_program_id(),
{
    Pubkey { hi: 0, lo: 0 }
}

/// The key of the rent sysvar.
pub fn rent_sysvar_id() -> (k: Pubkey)
    ensures
        k == spec_rent_sysvar_id(),
{
    Pubkey { hi: 0x06a7_d517_192c_5c51_218c_c94c_3d4a_f17f, lo: 0x58da_ee08_9ba1_fd44_e3db_d98a_0000_0000 }
}

/// The key of the clock sysvar.
pub fn clock_sysvar_id() -> (k: Pubkey)
    ensures
        k == spec_clock_sysvar_id(),
{
    Pubkey { hi: 0x06a7_d517_18c7_74c9_2856_6398_691d_5eb6, lo: 0x8b5e_b8a3_9b4b_6d5c_7355_5b21_0000_0000 }
}

/// The data of the system program's transfer of `lamports`, as
/// `solana_program::system_instruction::transfer` encodes it.
pub uninterp spec fn system_transfer_data(lamports: u64) -> Seq<u8>;

/// The data of the venue's new-order instruction for `order`, as
/// `serum_dex::instruction::MarketInstruction::pack` encodes it.
pub uninterp spec fn new_order_data(order: NewOrder) -> Seq<u8>;

/// Calls `spl_token::instruction::transfer` with `authority` as the one
/// signer. The builder refuses any program but the token program. Its
/// instruction names the source and the destination as writable, then the
/// authority twice, read-only: first as the owner, who does not sign where
/// signers are listed, then as the signer. The data is the tag 3 and the
/// amount in eight little-endian bytes.
#[verifier::external_body]
pub(crate) fn token_transfer(
    program: &[u8; 32],
    source: &[u8; 32],
    destination: &[u8; 32],
    authority: &[u8; 32],
    amount: u64,
) -> (r: Result<Instruction, spl_token::solana_program::program_error::ProgramError>)
    ensures
        r is Ok <==> spec_token_program_id().spells(program@),
        r matches Ok(ix) ==> {
            &&& ix.program_id@ == program@
            &&& ix.accounts@.len() == 4
            &&& ix.accounts@[0] == (AccountMeta { pubkey: *source, is_signer: false, is_writable: true })
            &&& ix.accounts@[1] == (AccountMeta { pubkey: *destination, is_signer: false, is_writable: true })
            &&& ix.accounts@[2] == (AccountMeta { pubkey: *authority, is_signer: false, is_writable: false })
            &&& ix.accounts@[3] == (AccountMeta { pubkey: *authority, is_signer: true, is_writable: false })
            &&& ix.data@.len() == 9
            &&& ix.data@[0] == 3
            &&& le_u64(ix.data@, 1) == amount
        },
{
    let key = |b: &[u8; 32]| spl_token::solana_program::pubkey::Pubkey::new_from_array(*b);
    let owner = key(authority);
    let ix = spl_token::instruction::transfer(&key(program), &key(source), &key(destination), &owner, &[&owner], amount)?;
    let meta = |m: &spl_token::solana_program::instruction::AccountMeta| AccountMeta {
        pubkey: m.pubkey.to_bytes(),
        is_signer: m.is_signer,
        is_writable: m.is_writable,
    };
    Ok(Instruction { program_id: ix.program_id.to_bytes(), accounts: ix.accounts.iter().map(meta).collect(), data: ix.data })
}

/// Calls `spl_token::instruction::mint_to` without further signers, so that
/// the mint's authority signs. The builder refuses any program but the token
/// program. Its instruction names the mint and the receiving account as
/// writable, then the authority as a read-only signer. The data is the tag 7
/// and the amount in eight little-endian bytes.
#[verifier::external_body]
pub(crate) fn token_mint_to(
    program: &[u8; 32],
    mint: &[u8; 32],
    account: &[u8; 32],
    authority: &[u8; 32],
    amount: u64,
) -> (r: Result<Instruction, spl_token::solana_program::program_error::ProgramError>)
    ensures
        r is Ok <==> spec_token_program_id().spells(program@),
        r matches Ok(ix) ==> {
            &&& ix.program_id@ == program@
            &&& ix.accounts@.len() == 3
            &&& ix.accounts@[0] == (AccountMeta { pubkey: *mint, is_signer: false, is_writable: true })
            &&& ix.accounts@[1] == (AccountMeta { pubkey: *account, is_signer: false, is_writable: true })
            &&& ix.accounts@[2] == (AccountMeta { pubkey: *authority, is_signer: true, is_writable: false })
            &&& ix.data@.len() == 9
            &&& ix.data@[0] == 7
            &&& le_u64(ix.data@, 1) == amount
        },
{
    let key = |b: &[u8; 32]| spl_token::solana_program::pubkey::Pubkey::new_from_array(*b);
    let ix = spl_token::instruction::mint_to(&key(program), &key(mint), &key(account), &key(authority), &[], amount)?;
    let meta = |m: &spl_token::solana_program::instruction::AccountMeta| AccountMeta {
        pubkey: m.pubkey.to_bytes(),
        is_signer: m.is_signer,
        is_writable: m.is_writable,
    };
    Ok(Instruction { program_id: ix.program_id.to_bytes(), accounts: ix.accounts.iter().map(meta).collect(), data: ix.data })
}

/// Calls `spl_token::instruction::burn` without further signers, so that the
/// account's authority signs. The builder refuses any program but the token
/// program. Its instruction names the account that is burnt from and the
/// mint as writable, then the authority as a read-only signer. The data is
/// the tag 8 and the amount in eight little-endian bytes.
#[verifier::external_body]
pub(crate) fn token_burn(
    program: &[u8; 32],
    account: &[u8; 32],
    mint: &[u8; 32],
    authority: &[u8; 32],
    amount: u64,
) -> (r: Result<Instruction, spl_token::solana_program::program_error::ProgramError>)
    ensures
        r is Ok <==> spec_token_program_id().spells(program@),
        r matches Ok(ix) ==> {
            &&& ix.program_id@ == program@
            &&& ix.accounts@.len() == 3
            &&& ix.accounts@[0] == (AccountMeta { pubkey: *account, is_signer: false, is_writable: true })
            &&& ix.accounts@[1] == (AccountMeta { pubkey: *mint, is_signer: false, is_writable: true })
            &&& ix.accounts@[2] == (AccountMeta { pubkey: *authority, is_signer: true, is_writable: false })
            &&& ix.data@.len() == 9
            &&& ix.data@[0] == 8
            &&& le_u64(ix.data@, 1) == amount
        },
{
    let key = |b: &[u8; 32]| spl_token::solana_program::pubkey::Pubkey::new_from_array(*b);
    let ix = spl_token::instruction::burn(&key(program), &key(account), &key(mint), &key(authority), &[], amount)?;
    let meta = |m: &spl_token::solana_program::instruction::AccountMeta| AccountMeta {
        pubkey: m.pubkey.to_bytes(),
        is_signer: m.is_signer,
        is_writable: m.is_writable,
    };
    Ok(Instruction { program_id: ix.program_id.to_bytes(), accounts: ix.accounts.iter().map(meta).collect(), data: ix.data })
}

/// Calls `spl_token::instruction::initialize_mint` without a freeze
/// authority. The builder refuses any program but the token program. Its
/// instruction names the mint as writable and the rent sysvar read-only. The
/// data is the tag 0, the decimals, the 32 bytes of the mint authority, and a
/// 0 for the freeze authority that is not there.
#[verifier::external_body]
pub(crate) fn token_initialize_mint(program: &[u8; 32], mint: &[u8; 32], mint_authority: &[u8; 32], decimals: u8) -> (r:
    Result<Instruction, spl_token::solana_program::program_error::ProgramError>)
    ensures
        r is Ok <==> spec_token_program_id().spells(program@),
        r matches Ok(ix) ==> {
            &&& ix.program_id@ == program@
            &&& ix.accounts@.len() == 2
            &&& ix.accounts@[0] == (AccountMeta { pubkey: *mint, is_signer: false, is_writable: true })
            &&& spec_rent_sysvar_id().spells(ix.accounts@[1].pubkey@)
            &&& !ix.accounts@[1].is_signer
            &&& !ix.accounts@[1].is_writable
            &&& ix.data@.len() == 35
            &&& ix.data@[0] == 0
            &&& ix.data@[1] == decimals
            &&& ix.data@.subrange(2, 34) == mint_authority@
            &&& ix.data@[34] == 0
        },
{
    let key = |b: &[u8; 32]| spl_token::solana_program::pubkey::Pubkey::new_from_array(*b);
    let ix = spl_token::instruction::initialize_mint(&key(program), &key(mint), &key(mint_authority), None, decimals)?;
    let meta = |m: &spl_token::solana_program::instruction::AccountMeta| AccountMeta {
        pubkey: m.pubkey.to_bytes(),
        is_signer: m.is_signer,
        is_writable: m.is_writable,
    };
    Ok(Instruction { program_id: ix.program_id.to_bytes(), accounts: ix.accounts.iter().map(meta).collect(), data: ix.data })
}

/// Calls `solana_program::system_instruction::transfer`. Its instruction is
/// for the system program, and names the paying account as a writable signer
/// and the receiving account as writable.
#[verifier::external_body]
pub(crate) fn system_transfer(from: &[u8; 32], to: &[u8; 32], lamports: u64) -> (ix: Instruction)
    ensures
        spec_system_program_id().spells(ix.program_id@),
        ix.accounts@.len() == 2,
        ix.accounts@[0] == (AccountMeta { pubkey: *from, is_signer: true, is_writable: true }),
        ix.accounts@[1] == (AccountMeta { pubkey: *to, is_signer: false, is_writable: true }),
        ix.data@ == system_transfer_data(lamports),
{
    let key = |b: &[u8; 32]| solana_program::pubkey::Pubkey::new_from_array(*b);
    let ix = solana_program::system_instruction::transfer(&key(from), &key(to), lamports);
    let meta = |m: &solana_program::instruction::AccountMeta| AccountMeta {
        pubkey: m.pubkey.to_bytes(),
        is_signer: m.is_signer,
        is_writable: m.is_writable,
    };
    Instruction { program_id: ix.program_id.to_bytes(), accounts: ix.accounts.iter().map(meta).collect(), data: ix.data }
}

/// Calls `spl_token_swap::instruction::swap` without a host fee account.
/// `keys` holds, in this order: the swap program, the token program, the
/// pool, the pool's authority, the user's transfer authority, the user's
/// source account, the pool's source and destination accounts, the user's
/// destination account, the pool's mint and the pool's fee account. The
/// instruction is for the swap program and names the pool and its authority
/// read-only, the transfer authority as a read-only signer, the six token
/// accounts after it as writable, and the token program read-only. The data
/// is the tag 1, then the amount to swap and the least amount to receive,
/// each in eight little-endian bytes. The builder has no failing path.
#[verifier::external_body]
pub(crate) fn token_swap(keys: &[[u8; 32]; 11], amount_in: u64, minimum_amount_out: u64) -> (r: Result<
    Instruction,
    spl_token_swap::solana_program::program_error::ProgramError,
>)
    ensures
        r is Ok,
        r matches Ok(ix) ==> {
            &&& ix.program_id == keys[0]
            &&& ix.accounts@.len() == 10
            &&& ix.accounts@[0] == (AccountMeta { pubkey: keys[2], is_signer: false, is_writable: false })
            &&& ix.accounts@[1] == (AccountMeta { pubkey: keys[3], is_signer: false, is_writable: false })
            &&& ix.accounts@[2] == (AccountMeta { pubkey: keys[4], is_signer: true, is_writable: false })
            &&& ix.accounts@[3] == (AccountMeta { pubkey: keys[5], is_signer: false, is_writable: true })
            &&& ix.accounts@[4] == (AccountMeta { pubkey: keys[6], is_signer: false, is_writable: true })
            &&& ix.accounts@[5] == (AccountMeta { pubkey: keys[7], is_signer: false, is_writable: true })
            &&& ix.accounts@[6] == (AccountMeta { pubkey: keys[8], is_signer: false, is_writable: true })
            &&& ix.accounts@[7] == (AccountMeta { pubkey: keys[9], is_signer: false, is_writable: true })
            &&& ix.accounts@[8] == (AccountMeta { pubkey: keys[10], is_signer: false, is_writable: true })
            &&& ix.accounts@[9] == (AccountMeta { pubkey: keys[1], is_signer: false, is_writable: false })
            &&& ix.data@.len() == 17
            &&& ix.data@[0] == 1
            &&& le_u64(ix.data@, 1) == amount_in
            &&& le_u64(ix.data@, 9) == minimum_amount_out
        },
{
    let k = |i: usize| spl_token_swap::solana_program::pubkey::Pubkey::new_from_array(keys[i]);
    let ix = spl_token_swap::instruction::swap(
        &k(0), &k(1), &k(2), &k(3), &k(4), &k(5), &k(6), &k(7), &k(8), &k(9), &k(10), None,
        spl_token_swap::instruction::Swap { amount_in, minimum_amount_out },
    )?;
    let meta = |m: &spl_token_swap::solana_program::instruction::AccountMeta| AccountMeta {
        pubkey: m.pubkey.to_bytes(),
        is_signer: m.is_signer,
        is_writable: m.is_writable,
    };
    Ok(Instruction { program_id: ix.program_id.to_bytes(), accounts: ix.accounts.iter().map(meta).collect(), data: ix.data })
}

/// Calls `spl_token_swap::instruction::deposit_all_token_types`. `keys`
/// holds, in this order: the swap program, the token program, the pool, the
/// pool's authority, the user's transfer authority, the user's accounts for
/// the two assets, the pool's accounts for the two assets, the pool's mint
/// and the account that receives the pool's tokens. The instruction is for
/// the swap program and names the pool and its authority read-only, the
/// transfer authority as a read-only signer, the six token accounts after it
/// as writable, and the token program read-only. The data is the tag 2, then
/// the pool tokens to receive and the most to deposit of either asset, each
/// in eight little-endian bytes. The builder has no failing path.
#[verifier::external_body]
pub(crate) fn pool_deposit(
    keys: &[[u8; 32]; 11],
    pool_token_amount: u64,
    maximum_token_a_amount: u64,
    maximum_token_b_amount: u64,
) -> (r: Result<Instruction, spl_token_swap::solana_program::program_error::ProgramError>)
    ensures
        r is Ok,
        r matches Ok(ix) ==> {
            &&& ix.program_id == keys[0]
            &&& ix.accounts@.len() == 10
            &&& ix.accounts@[0] == (AccountMeta { pubkey: keys[2], is_signer: false, is_writable: false })
            &&& ix.accounts@[1] == (AccountMeta { pubkey: keys[3], is_signer: false, is_writable: false })
            &&& ix.accounts@[2] == (AccountMeta { pubkey: keys[4], is_signer: true, is_writable: false })
            &&& ix.accounts@[3] == (AccountMeta { pubkey: keys[5], is_signer: false, is_writable: true })
            &&& ix.accounts@[4] == (AccountMeta { pubkey: keys[6], is_signer: false, is_writable: true })
            &&& ix.accounts@[5] == (AccountMeta { pubkey: keys[7], is_signer: false, is_writable: true })
            &&& ix.accounts@[6] == (AccountMeta { pubkey: keys[8], is_signer: false, is_writable: true })
            &&& ix.accounts@[7] == (AccountMeta { pubkey: keys[9], is_signer: false, is_writable: true })
            &&& ix.accounts@[8] == (AccountMeta { pubkey: keys[10], is_signer: false, is_writable: true })
            &&& ix.accounts@[9] == (AccountMeta { pubkey: keys[1], is_signer: false, is_writable: false })
            &&& ix.data@.len() == 25
            &&& ix.data@[0] == 2
            &&& le_u64(ix.data@, 1) == pool_token_amount
            &&& le_u64(ix.data@, 9) == maximum_token_a_amount
            &&& le_u64(ix.data@, 17) == maximum_token_b_amount
        },
{
    let k = |i: usize| spl_token_swap::solana_program::pubkey::Pubkey::new_from_array(keys[i]);
    let ix = spl_token_swap::instruction::deposit_all_token_types(
        &k(0), &k(1), &k(2), &k(3), &k(4), &k(5), &k(6), &k(7), &k(8), &k(9), &k(10),
        spl_token_swap::instruction::DepositAllTokenTypes { pool_token_amount, maximum_token_a_amount, maximum_token_b_amount },
    )?;
    let meta = |m: &spl_token_swap::solana_program::instruction::AccountMeta| AccountMeta {
        pubkey: m.pubkey.to_bytes(),
        is_signer: m.is_signer,
        is_writable: m.is_writable,
    };
    Ok(Instruction { program_id: ix.program_id.to_bytes(), accounts: ix.accounts.iter().map(meta).collect(), data: ix.data })
}

/// Calls `serum_dex::instruction::MarketInstruction::pack` on a new order
/// of version 3. The venue's order type holds its price and quantities as
/// numbers that are not zero, so an order with a zero among them cannot be
/// packed.
#[verifier::external_body]
pub(crate) fn pack_new_order(order: &NewOrder) -> (data: Vec<u8>)
    requires
        order.sized(),
    ensures
        data@ == new_order_data(*order),
{
    venue::MarketInstruction::NewOrderV3(venue::NewOrderInstructionV3 {
        side: match order.side { Side::Bid => matching::Side::Bid, Side::Ask => matching::Side::Ask },
        limit_price: order.limit_price.try_into().unwrap(),
        max_coin_qty: order.max_coin_qty.try_into().unwrap(),
        max_native_pc_qty_including_fees: order.max_native_pc_qty_including_fees.try_into().unwrap(),
        client_order_id: order.client_order_id,
        limit: order.limit,
        self_trade_behavior: match order.self_trade_behavior {
            SelfTradeBehavior::DecrementTake => venue::SelfTradeBehavior::DecrementTake,
            SelfTradeBehavior::CancelProvide => venue::SelfTradeBehavior::CancelProvide,
            SelfTradeBehavior::AbortTransaction => venue::SelfTradeBehavior::AbortTransaction,
        },
        order_type: match order.order_type { OrderType::Limit => matching::OrderType::Limit, OrderType::ImmediateOrCancel => matching::OrderType::ImmediateOrCancel, OrderType::PostOnly => matching::OrderType::PostOnly },
    }).pack()
}

} // verus!
