//! Pooled-value custody engine: net asset value, allocation enforcement and
//! the economics of minting and redeeming fund shares.
//!
//! Every function here works on plain values. Moving tokens, calling a trading
//! venue and reading accounts are left to the caller, which hands in balances,
//! prices and policies and carries out the plans that come back.

use vstd::prelude::*;

pub mod error;
pub mod instructions;
pub mod ratio;
pub mod services;
pub mod state;

use crate::error::SaturnFundError;
use crate::services::price_stream_service::{le_u64, read_u64_le};

verus! {

/// The operations that instruction bytes can name, with the amount that
/// follows the first byte where the operation takes one.
#[derive(Clone, Copy, Debug, PartialEq, Eq, Structural)]
pub enum FundInstruction {
    MintToken { amount: u64 },
    BurnToken { shares: u64 },
    EnsureSolanaBalance,
    SellTokens { amount: u64 },
    CalculatePriceOfFund,
    RebalanceHoldings,
    UpdateAllocation,
    UpdateAllocationBasedOnMarket,
    CollectLiquidityPoolRewards { rewards: u64 },
    TransferWithFee { amount: u64 },
    ManageTransactionAccount,
    EnsureLiquidityRepresentation { target_percentage: u64 },
    CreateMint,
}

/// Whether the operation with this first byte takes an amount.
pub open spec fn takes_amount(tag: u8) -> bool {
    tag == 0 || tag == 1 || tag == 3 || tag == 8 || tag == 9 || tag == 11
}

/// The operation that `data` names: its first byte says which, and where the
/// operation takes an amount, the eight bytes after it hold the amount,
/// little-endian.
pub open spec fn instruction_for(data: Seq<u8>) -> Result<FundInstruction, SaturnFundError> {
    if data.len() == 0 || data[0] > 12 || (takes_amount(data[0]) && data.len() < 9) {
        Err(SaturnFundError::InvalidInstructionData)
    } else if data[0] == 0 {
        Ok(FundInstruction::MintToken { amount: le_u64(data, 1) as u64 })
    } else if data[0] == 1 {
        Ok(FundInstruction::BurnToken { shares: le_u64(data, 1) as u64 })
    } else if data[0] == 2 {
        Ok(FundInstruction::EnsureSolanaBalance)
    } else if data[0] == 3 {
        Ok(FundInstruction::SellTokens { amount: le_u64(data, 1) as u64 })
    } else if data[0] == 4 {
        Ok(FundInstruction::CalculatePriceOfFund)
    } else if data[0] == 5 {
        Ok(FundInstruction::RebalanceHoldings)
    } else if data[0] == 6 {
        Ok(FundInstruction::UpdateAllocation)
    } else if data[0] == 7 {
        Ok(FundInstruction::UpdateAllocationBasedOnMarket)
    } else if data[0] == 8 {
        Ok(FundInstruction::CollectLiquidityPoolRewards { rewards: le_u64(data, 1) as u64 })
    } else if data[0] == 9 {
        Ok(FundInstruction::TransferWithFee { amount: le_u64(data, 1) as u64 })
    } else if data[0] == 10 {
        Ok(FundInstruction::ManageTransactionAccount)
    } else if data[0] == 11 {
        Ok(FundInstruction::EnsureLiquidityRepresentation { target_percentage: le_u64(data, 1) as u64 })
    } else {
        Ok(FundInstruction::CreateMint)
    }
}

/// Decides which operation an instruction asks for. Empty data, an unknown
/// first byte, and an amount that is cut short are refused with
/// `InvalidInstructionData`.
pub fn process_instruction(instruction_data: &[u8]) -> (r: Result<FundInstruction, SaturnFundError>)
    ensures
        r == instruction_for(instruction_data@),
{
    if instruction_data.len() == 0 {
        return Err(SaturnFundError::InvalidInstructionData);
    }
    let tag: u8 = instruction_data[0];
    if tag > 12 {
        return Err(SaturnFundError::InvalidInstructionData);
    }
    if tag == 2 {
        return Ok(FundInstruction::EnsureSolanaBalance);
    } else if tag == 4 {
        return Ok(FundInstruction::CalculatePriceOfFund);
    } else if tag == 5 {
        return Ok(FundInstruction::RebalanceHoldings);
    } else if tag == 6 {
        return Ok(FundInstruction::UpdateAllocation);
    } else if tag == 7 {
        return Ok(FundInstruction::UpdateAllocationBasedOnMarket);
    } else if tag == 10 {
        return Ok(FundInstruction::ManageTransactionAccount);
    } else if tag == 12 {
        return Ok(FundInstruction::CreateMint);
    }
    let amount: u64 = match read_u64_le(instruction_data, 1) {
        Some(v) => v,
        None => {
            return Err(SaturnFundError::InvalidInstructionData);
        },
    };
    if tag == 0 {
        Ok(FundInstruction::MintToken { amount })
    } else if tag == 1 {
        Ok(FundInstruction::BurnToken { shares: amount })
    } else if tag == 3 {
        Ok(FundInstruction::SellTokens { amount })
    } else if tag == 8 {
        Ok(FundInstruction::CollectLiquidityPoolRewards { rewards: amount })
    } else if tag == 9 {
        Ok(FundInstruction::TransferWithFee { amount })
    } else {
        Ok(FundInstruction::EnsureLiquidityRepresentation { target_percentage: amount })
    }
}

} // verus!
