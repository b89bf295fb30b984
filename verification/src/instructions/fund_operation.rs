//! The fund account itself: who owns it, and how liquid it is meant to be.

use vstd::prelude::*;
use crate::error::SaturnFundError;
use crate::state::accounts::Pubkey;

verus! {

/// How the fund account's address came about.
#[derive(Clone, Copy, Debug, PartialEq, Eq, Structural)]
pub enum AccountKind {
    /// The address is derived from the program, which signs for it.
    ProgramDerived,
    /// The address is an ordinary key of its own.
    Plain,
}

/// The fund account as its operations see it.
#[derive(Clone, Copy, Debug, PartialEq, Eq, Structural)]
pub struct FundAccountOperations {
    pub owner: Pubkey,
    pub kind: AccountKind,
    pub liquidity_ratio: u8,
}

/// The parameters of a change of liquidity.
#[derive(Clone, Copy, Debug, PartialEq, Eq, Structural)]
pub struct LiquidityParams {
    pub liquidity_ratio: u8,
}

/// Records `owner` as the outside owner of a fund account whose address is
/// derived from the program.
pub fn create_fund_account(ctx: &mut FundAccountOperations, owner: Pubkey)
    ensures
        *final(ctx) == (FundAccountOperations { owner, kind: AccountKind::ProgramDerived, ..*old(ctx) }),
{
    ctx.owner = owner;
    ctx.kind = AccountKind::ProgramDerived;
}

/// Records `owner` as the outside owner of a fund account with an ordinary
/// address.
pub fn create_non_pda_fund_account(ctx: &mut FundAccountOperations, owner: Pubkey)
    ensures
        *final(ctx) == (FundAccountOperations { owner, kind: AccountKind::Plain, ..*old(ctx) }),
{
    ctx.owner = owner;
    ctx.kind = AccountKind::Plain;
}

/// Sets the fund's liquidity ratio, a percentage. Only the owner may set it
/// (`Unauthorized` otherwise), and a ratio above 100 is refused with
/// `InvalidPercentage`; the account is then unchanged.
pub fn manage_liquidity(ctx: &mut FundAccountOperations, signer: &Pubkey, params: LiquidityParams) -> (r: Result<
    (),
    SaturnFundError,
>)
    ensures
        r is Ok <==> *signer == old(ctx).owner && params.liquidity_ratio <= 100,
        r is Ok ==> *final(ctx) == (FundAccountOperations {
            liquidity_ratio: params.liquidity_ratio,
            ..*old(ctx)
        }),
        r matches Err(e) ==> *final(ctx) == *old(ctx) && e == (if *signer != old(ctx).owner {
            SaturnFundError::Unauthorized
        } else {
            SaturnFundError::InvalidPercentage
        }),
{
    if *signer != ctx.owner {
        return Err(SaturnFundError::Unauthorized);
    }
    if params.liquidity_ratio > 100 {
        return Err(SaturnFundError::InvalidPercentage);
    }
    ctx.liquidity_ratio = params.liquidity_ratio;
    Ok(())
}

/// Lets a transfer out of the fund account pass only when the program itself
/// is its owner; any other owner is refused with `Unauthorized`.
pub fn enforce_transfer_restrictions(ctx: &FundAccountOperations, program_id: &Pubkey, amount: u64) -> (r: Result<
    (),
    SaturnFundError,
>)
    ensures
        r is Ok <==> ctx.owner == *program_id,
        r matches Err(e) ==> e == SaturnFundError::Unauthorized,
{
    if ctx.owner == *program_id {
        Ok(())
    } else {
        Err(SaturnFundError::Unauthorized)
    }
}

} // verus!
