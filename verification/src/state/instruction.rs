//! Instructions for other programs, as the values that go over the wire.

use vstd::prelude::*;
use crate::state::accounts::Pubkey;

verus! {

/// One account that an instruction touches, by the 32 bytes of its key.
#[derive(Clone, Copy, Debug, PartialEq, Eq)]
pub struct AccountMeta {
    pub pubkey: [u8; 32],
    pub is_signer: bool,
    pub is_writable: bool,
}

impl AccountMeta {
    /// Whether this entry names `key` with the given flags.
    pub open spec fn names(self, key: Pubkey, is_signer: bool, is_writable: bool) -> bool {
        &&& key.spells(self.pubkey@)
        &&& self.is_signer == is_signer
        &&& self.is_writable == is_writable
    }

    /// The entry for `key` with the given flags.
    pub fn new(key: &Pubkey, is_signer: bool, is_writable: bool) -> (m: AccountMeta)
        ensures
            m.names(*key, is_signer, is_writable),
    {
        AccountMeta { pubkey: key.to_bytes(), is_signer, is_writable }
    }
}

/// An instruction for another program: the program's key, the accounts it
/// touches in order, and the instruction's data.
#[derive(Debug, PartialEq, Eq)]
pub struct Instruction {
    pub program_id: [u8; 32],
    pub accounts: Vec<AccountMeta>,
    pub data: Vec<u8>,
}

} // verus!
