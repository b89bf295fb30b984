//! The share mint.

use vstd::prelude::*;
use crate::error::SaturnFundError;
use crate::instructions::program_calls::{spec_rent_sysvar_id, spec_token_program_id, token_initialize_mint};
use crate::state::accounts::Pubkey;
use crate::state::instruction::Instruction;

verus! {

/// The decimals of a share.
pub const SHARE_DECIMALS: u8 = 9;

/// The share mint to create, and the authority that may mint from it.
#[derive(Clone, Copy, Debug, PartialEq, Eq, Structural)]
pub struct CreateMintAccount {
    pub mint: Pubkey,
    pub mint_authority: Pubkey,
}

/// Whether `ix` initializes `mint` at the token program with `decimals`
/// decimals, `mint_authority` as its authority and no freeze authority.
pub open spec fn is_initialize_mint(
    ix: Instruction,
    program: Pubkey,
    mint: Pubkey,
    mint_authority: Pubkey,
    decimals: u8,
) -> bool {
    &&& program.spells(ix.program_id@)
    &&& ix.accounts@.len() == 2
    &&& ix.accounts@[0].names(mint, false, true)
    &&& ix.accounts@[1].names(spec_rent_sysvar_id(), false, false)
    &&& ix.data@.len() == 35
    &&& ix.data@[0] == 0
    &&& ix.data@[1] == decimals
    &&& mint_authority.spells(ix.data@.subrange(2, 34))
    &&& ix.data@[34] == 0
}

/// Builds the instruction that initializes the share mint, with nine
/// decimals and the given authority. Any program but the token program is
/// refused with `IncorrectProgramId`.
pub fn create_mint(token_program: &Pubkey, ctx: &CreateMintAccount) -> (r: Result<Instruction, SaturnFundError>)
    ensures
        r is Ok <==> *token_program == spec_token_program_id(),
        r matches Ok(ix) ==> is_initialize_mint(ix, *token_program, ctx.mint, ctx.mint_authority, SHARE_DECIMALS),
        r matches Err(e) ==> e == SaturnFundError::IncorrectProgramId,
{
    match token_initialize_mint(
        &token_program.to_bytes(),
        &ctx.mint.to_bytes(),
        &ctx.mint_authority.to_bytes(),
        SHARE_DECIMALS,
    ) {
        Ok(ix) => Ok(ix),
        Err(_) => Err(SaturnFundError::IncorrectProgramId),
    }
}

} // verus!
