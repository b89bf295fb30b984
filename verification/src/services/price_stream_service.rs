//! Decoding of the price that a price account publishes.

use vstd::prelude::*;
use crate::error::SaturnFundError;

verus! {

/// The number that eight bytes spell in little-endian order, starting at
/// `at`.
pub open spec fn le_u64(s: Seq<u8>, at: int) -> int
    recommends
        0 <= at,
        at + 8 <= s.len(),
{
    s[at] + s[at + 1] * 0x100 + s[at + 2] * 0x1_0000 + s[at + 3] * 0x100_0000 + s[at + 4]
        * 0x1_0000_0000 + s[at + 5] * 0x100_0000_0000 + s[at + 6] * 0x1_0000_0000_0000 + s[at + 7]
        * 0x100_0000_0000_0000
}

/// Reads the little-endian 64-bit number that starts at byte `at`; `None`
/// where fewer than eight bytes follow.
pub fn read_u64_le(data: &[u8], at: usize) -> (r: Option<u64>)
    ensures
        r == (if at + 8 <= data@.len() {
            Some(le_u64(data@, at as int) as u64)
        } else {
            None
        }),
        r matches Some(v) ==> v == le_u64(data@, at as int),
{
    if data.len() < 8 || at > data.len() - 8 {
        return None;
    }
    let b0: u64 = data[at] as u64;
    let b1: u64 = data[at + 1] as u64;
    let b2: u64 = data[at + 2] as u64;
    let b3: u64 = data[at + 3] as u64;
    let b4: u64 = data[at + 4] as u64;
    let b5: u64 = data[at + 5] as u64;
    let b6: u64 = data[at + 6] as u64;
    let b7: u64 = data[at + 7] as u64;
    Some(
        b0 + b1 * 0x100 + b2 * 0x1_0000 + b3 * 0x100_0000 + b4 * 0x1_0000_0000 + b5
            * 0x100_0000_0000 + b6 * 0x1_0000_0000_0000 + b7 * 0x100_0000_0000_0000,
    )
}

/// The length of a price record: eight bytes of price, then eight bytes of
/// timestamp, both little-endian.
pub const PRICE_RECORD_LEN: usize = 16;

/// Decodes the price of a price account's record: the first eight bytes of
/// the record, little-endian. Data that is shorter than a whole record is a
/// malformed feed, also where the bytes of the price are all there.
pub fn decode_price_from_data(data: &[u8]) -> (r: Result<u64, SaturnFundError>)
    ensures
        data@.len() >= PRICE_RECORD_LEN <==> r is Ok,
        r matches Ok(price) ==> price == le_u64(data@, 0),
        r matches Err(e) ==> e == SaturnFundError::StaleOrMalformedFeed,
{
    if data.len() < PRICE_RECORD_LEN {
        return Err(SaturnFundError::StaleOrMalformedFeed);
    }
    match read_u64_le(data, 0) {
        Some(price) => Ok(price),
        None => Err(SaturnFundError::StaleOrMalformedFeed),
    }
}

} // verus!
