//! The fund's data: keys, holdings, the ledger that values them, the
//! allocation policy, and the instructions that the fund hands to other
//! programs.

pub mod accounts;
pub mod allocation;
pub mod instruction;
