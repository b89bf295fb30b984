//! Keys, holdings and the holdings ledger.

use vstd::prelude::*;
use crate::error::SaturnFundError;
use crate::ratio::{mul_div, RATIO_SCALE};

verus! {

/// The number that sixteen bytes spell in big-endian order, starting at
/// `at`.
#[verifier::opaque]
pub open spec fn be_u128(s: Seq<u8>, at: int) -> int
    recommends
        0 <= at,
        at + 16 <= s.len(),
{
    s[at] * 0x100_0000_0000_0000_0000_0000_0000_0000
        + s[at + 1] * 0x1_0000_0000_0000_0000_0000_0000_0000
        + s[at + 2] * 0x100_0000_0000_0000_0000_0000_0000
        + s[at + 3] * 0x1_0000_0000_0000_0000_0000_0000
        + s[at + 4] * 0x100_0000_0000_0000_0000_0000
        + s[at + 5] * 0x1_0000_0000_0000_0000_0000
        + s[at + 6] * 0x100_0000_0000_0000_0000
        + s[at + 7] * 0x1_0000_0000_0000_0000
        + s[at + 8] * 0x100_0000_0000_0000
        + s[at + 9] * 0x1_0000_0000_0000
        + s[at + 10] * 0x100_0000_0000
        + s[at + 11] * 0x1_0000_0000
        + s[at + 12] * 0x100_0000
        + s[at + 13] * 0x1_0000
        + s[at + 14] * 0x100
        + s[at + 15]
}

/// Spells a number as its sixteen bytes in big-endian order.
fn split_be(x: u128) -> (b: [u8; 16])
    ensures
        be_u128(b@, 0) == x,
{
    reveal(be_u128);
    let r0: u128 = x;
    let b15: u8 = (r0 % 256) as u8;
    let r1: u128 = r0 / 256;
    let b14: u8 = (r1 % 256) as u8;
    let r2: u128 = r1 / 256;
    let b13: u8 = (r2 % 256) as u8;
    let r3: u128 = r2 / 256;
    let b12: u8 = (r3 % 256) as u8;
    let r4: u128 = r3 / 256;
    let b11: u8 = (r4 % 256) as u8;
    let r5: u128 = r4 / 256;
    let b10: u8 = (r5 % 256) as u8;
    let r6: u128 = r5 / 256;
    let b9: u8 = (r6 % 256) as u8;
    let r7: u128 = r6 / 256;
    let b8: u8 = (r7 % 256) as u8;
    let r8: u128 = r7 / 256;
    let b7: u8 = (r8 % 256) as u8;
    let r9: u128 = r8 / 256;
    let b6: u8 = (r9 % 256) as u8;
    let r10: u128 = r9 / 256;
    let b5: u8 = (r10 % 256) as u8;
    let r11: u128 = r10 / 256;
    let b4: u8 = (r11 % 256) as u8;
    let r12: u128 = r11 / 256;
    let b3: u8 = (r12 % 256) as u8;
    let r13: u128 = r12 / 256;
    let b2: u8 = (r13 % 256) as u8;
    let r14: u128 = r13 / 256;
    let b1: u8 = (r14 % 256) as u8;
    let r15: u128 = r14 / 256;
    let b0: u8 = (r15 % 256) as u8;
    [b0, b1, b2, b3, b4, b5, b6, b7, b8, b9, b10, b11, b12, b13, b14, b15]
}

/// Reads the number that the sixteen bytes from `at` on spell in big-endian
/// order.
fn join_be(bytes: &[u8; 32], at: usize) -> (x: u128)
    requires
        at <= 16,
    ensures
        x == be_u128(bytes@, at as int),
{
    reveal(be_u128);
    (bytes[at] as u128) * 0x100_0000_0000_0000_0000_0000_0000_0000
        + (bytes[at + 1] as u128) * 0x1_0000_0000_0000_0000_0000_0000_0000
        + (bytes[at + 2] as u128) * 0x100_0000_0000_0000_0000_0000_0000
        + (bytes[at + 3] as u128) * 0x1_0000_0000_0000_0000_0000_0000
        + (bytes[at + 4] as u128) * 0x100_0000_0000_0000_0000_0000
        + (bytes[at + 5] as u128) * 0x1_0000_0000_0000_0000_0000
        + (bytes[at + 6] as u128) * 0x100_0000_0000_0000_0000
        + (bytes[at + 7] as u128) * 0x1_0000_0000_0000_0000
        + (bytes[at + 8] as u128) * 0x100_0000_0000_0000
        + (bytes[at + 9] as u128) * 0x1_0000_0000_0000
        + (bytes[at + 10] as u128) * 0x100_0000_0000
        + (bytes[at + 11] as u128) * 0x1_0000_0000
        + (bytes[at + 12] as u128) * 0x100_0000
        + (bytes[at + 13] as u128) * 0x1_0000
        + (bytes[at + 14] as u128) * 0x100
        + (bytes[at + 15] as u128)
}

/// A 32-byte key that names an asset or a principal, held as its two
/// big-endian halves. Keys are ordered as their bytes are.
#[derive(Clone, Copy, Debug, PartialEq, Eq, Structural)]
pub struct Pubkey {
    pub hi: u128,
    pub lo: u128,
}

impl Pubkey {
    /// The key read as one 256-bit number.
    pub open spec fn rank(self) -> int {
        self.hi * 0x1_0000_0000_0000_0000_0000_0000_0000_0000 + self.lo
    }

    /// The key with the given halves.
    pub fn new(hi: u128, lo: u128) -> (k: Pubkey)
        ensures
            k.hi == hi,
            k.lo == lo,
    {
        Pubkey { hi, lo }
    }

    /// Whether this key comes strictly before `other`.
    pub fn precedes(&self, other: &Pubkey) -> (b: bool)
        ensures
            b == (self.rank() < other.rank()),
    {
        self.hi < other.hi || (self.hi == other.hi && self.lo < other.lo)
    }

    /// The key's 32 bytes: those of the high half, then those of the low
    /// half, each in big-endian order.
    pub open spec fn spells(self, bytes: Seq<u8>) -> bool {
        &&& bytes.len() == 32
        &&& be_u128(bytes, 0) == self.hi
        &&& be_u128(bytes, 16) == self.lo
    }

    /// The key as its 32 bytes.
    pub fn to_bytes(&self) -> (bytes: [u8; 32])
        ensures
            self.spells(bytes@),
    {
        reveal(be_u128);
        let h: [u8; 16] = split_be(self.hi);
        let l: [u8; 16] = split_be(self.lo);
        [
            h[0], h[1], h[2], h[3], h[4], h[5], h[6], h[7], h[8], h[9], h[10], h[11], h[12], h[13], h[14], h[15],
            l[0], l[1], l[2], l[3], l[4], l[5], l[6], l[7], l[8], l[9], l[10], l[11], l[12], l[13], l[14], l[15],
        ]
    }

    /// The key that 32 bytes spell.
    pub fn from_bytes(bytes: &[u8; 32]) -> (k: Pubkey)
        ensures
            k.spells(bytes@),
    {
        Pubkey { hi: join_be(bytes, 0), lo: join_be(bytes, 16) }
    }

    /// A key is the one that its own bytes spell: turning a key into bytes
    /// and back gives the key again.
    pub proof fn lemma_bytes_round_trip(a: Pubkey, b: Pubkey, bytes: Seq<u8>)
        requires
            a.spells(bytes),
            b.spells(bytes),
        ensures
            a == b,
    {
    }

    /// Keys with the same rank are the same key.
    pub proof fn lemma_rank_injective(a: Pubkey, b: Pubkey)
        ensures
            (a.rank() == b.rank()) <==> (a == b),
    {
    }
}

/// One asset holding of the fund as its token account records it.
#[derive(Clone, Copy, Debug, PartialEq, Eq, Structural)]
pub struct TokenAccount {
    pub mint: Pubkey,
    pub amount: u64,
    pub decimals: u8,
}

/// One asset held by the fund: its balance, and the market price of one unit
/// in units of the reserve asset.
#[derive(Clone, Copy, Debug, PartialEq, Eq, Structural)]
pub struct Position {
    pub mint: Pubkey,
    pub amount: u64,
    pub decimals: u8,
    pub price: u64,
}

impl Position {
    /// What the position is worth, in units of the reserve asset.
    pub open spec fn value(self) -> nat {
        (self.amount * self.price) as nat
    }
}

/// Whether the positions are ordered by strictly ascending key, so that no
/// asset occurs twice.
pub open spec fn ascending(s: Seq<Position>) -> bool {
    forall|i: int, j: int| 0 <= i < j < s.len() ==> s[i].mint.rank() < s[j].mint.rank()
}

/// The summed worth of the positions.
pub open spec fn positions_value(s: Seq<Position>) -> nat
    decreases s.len(),
{
    if s.len() == 0 {
        0
    } else {
        positions_value(s.drop_last()) + s.last().value()
    }
}

/// The position recorded for `mint`, if there is one.
pub open spec fn find_position(s: Seq<Position>, mint: Pubkey) -> Option<Position>
    decreases s.len(),
{
    if s.len() == 0 {
        None
    } else if s[0].mint == mint {
        Some(s[0])
    } else {
        find_position(s.drop_first(), mint)
    }
}

/// The value of a prefix grows by the worth of the position that extends it.
pub proof fn lemma_value_step(s: Seq<Position>, i: int)
    requires
        0 <= i < s.len(),
    ensures
        positions_value(s.subrange(0, i + 1)) == positions_value(s.subrange(0, i)) + s[i].value(),
{
    assert(s.subrange(0, i + 1).drop_last() =~= s.subrange(0, i));
}

/// No prefix is worth more than the whole.
pub proof fn lemma_prefix_value_le(s: Seq<Position>, i: int)
    requires
        0 <= i <= s.len(),
    ensures
        positions_value(s.subrange(0, i)) <= positions_value(s),
    decreases s.len(),
{
    if i == s.len() {
        assert(s.subrange(0, i) =~= s);
    } else {
        assert(s.drop_last().subrange(0, i) =~= s.subrange(0, i));
        lemma_prefix_value_le(s.drop_last(), i);
    }
}

/// A position that is found is one of the positions, under the key asked for,
/// and is worth no more than all of them together.
pub proof fn lemma_found_position(s: Seq<Position>, mint: Pubkey)
    ensures
        match find_position(s, mint) {
            Some(p) => p.mint == mint && s.contains(p) && p.value() <= positions_value(s),
            None => forall|i: int| 0 <= i < s.len() ==> s[i].mint != mint,
        },
    decreases s.len(),
{
    if s.len() == 0 {
    } else {
        let rest = s.drop_first();
        lemma_found_position(rest, mint);
        lemma_value_splits_first(s);
        if s[0].mint == mint {
            assert(s.contains(s[0]));
        } else {
            match find_position(rest, mint) {
                Some(p) => {
                    let k = choose|k: int| 0 <= k < rest.len() && rest[k] == p;
                    assert(s[k + 1] == p);
                },
                None => {
                    assert forall|i: int| 0 <= i < s.len() implies s[i].mint != mint by {
                        if i > 0 {
                            assert(rest[i - 1] == s[i]);
                        }
                    }
                },
            }
        }
    }
}

/// The worth of the positions is that of the first plus that of the rest.
pub proof fn lemma_value_splits_first(s: Seq<Position>)
    requires
        s.len() > 0,
    ensures
        positions_value(s) == s[0].value() + positions_value(s.drop_first()),
    decreases s.len(),
{
    if s.len() == 1 {
        assert(s.drop_last() =~= Seq::<Position>::empty());
        assert(s.drop_first() =~= Seq::<Position>::empty());
    } else {
        lemma_value_splits_first(s.drop_last());
        assert(s.drop_last().drop_first() =~= s.drop_first().drop_last());
        assert(s.drop_first().last() == s.last());
    }
}

/// What one holding is worth.
#[derive(Clone, Copy, Debug, PartialEq, Eq, Structural)]
pub struct AssetValue {
    pub mint: Pubkey,
    pub value: u64,
}

/// A valuation of the fund: derived from the ledger when it is asked for,
/// and never stored.
#[derive(Debug, PartialEq, Eq)]
pub struct FundValuation {
    pub total_value: u64,
    pub liquid_value: u64,
    pub per_asset_value: Vec<AssetValue>,
}

/// What each of the positions is worth, in their order.
pub open spec fn asset_values(positions: Seq<Position>) -> Seq<AssetValue> {
    Seq::new(
        positions.len(),
        |i: int| AssetValue { mint: positions[i].mint, value: positions[i].value() as u64 },
    )
}

/// No single position is worth more than all of them together.
pub proof fn lemma_position_value_le(s: Seq<Position>, i: int)
    requires
        0 <= i < s.len(),
    ensures
        s[i].value() <= positions_value(s),
{
    lemma_value_step(s, i);
    lemma_prefix_value_le(s, i + 1);
}

/// What a holdings ledger holds: the balance of the reserve asset, which is
/// the unit of account, and the priced positions in the other assets.
pub struct LedgerView {
    pub reserve: nat,
    pub positions: Seq<Position>,
}

impl LedgerView {
    /// The value that can be paid out without a venue trade.
    pub open spec fn liquid_value(self) -> nat {
        self.reserve
    }

    /// The value of everything that the fund holds.
    pub open spec fn total_value(self) -> nat {
        self.reserve + positions_value(self.positions)
    }

    /// What the holding in `mint` is worth; `None` where the fund records no
    /// such holding.
    pub open spec fn value_of(self, mint: Pubkey) -> Option<nat> {
        match find_position(self.positions, mint) {
            Some(p) => Some(p.value()),
            None => None,
        }
    }

    /// The share of the total value held in `mint`, as a fixed-point ratio of
    /// scale `RATIO_SCALE`.
    pub open spec fn ratio_of(self, mint: Pubkey) -> Result<u64, SaturnFundError> {
        if self.total_value() > u64::MAX {
            Err(SaturnFundError::ValueOverflow)
        } else {
            match find_position(self.positions, mint) {
                None => Err(SaturnFundError::AccountNotFound),
                Some(p) => if self.total_value() == 0 {
                    Err(SaturnFundError::DivisionByZero)
                } else {
                    Ok(mul_div(p.value() as int, RATIO_SCALE as int, self.total_value() as int) as u64)
                },
            }
        }
    }

    /// A ledger is well formed when each asset occurs once, in ascending
    /// order of its key.
    pub open spec fn wf(self) -> bool {
        ascending(self.positions) && self.reserve <= u64::MAX
    }
}

/// The fund's balances with the market prices matched to them. The reserve
/// asset is the unit of account: prices are quoted in it, and its balance is
/// the fund's liquid value.
#[derive(Debug)]
pub struct HoldingsLedger {
    reserve: u64,
    positions: Vec<Position>,
}

impl View for HoldingsLedger {
    type V = LedgerView;

    closed spec fn view(&self) -> LedgerView {
        LedgerView { reserve: self.reserve as nat, positions: self.positions@ }
    }
}

impl HoldingsLedger {
    #[verifier::type_invariant]
    closed spec fn inv(self) -> bool {
        ascending(self.positions@)
    }

    /// Builds a ledger, once the positions are seen to name each asset once
    /// and in ascending order of key. Anything else is refused with
    /// `InvalidAccountData`.
    pub fn new(reserve: u64, positions: Vec<Position>) -> (r: Result<HoldingsLedger, SaturnFundError>)
        ensures
            ascending(positions@) <==> r is Ok,
            r matches Ok(l) ==> l@ == (LedgerView { reserve: reserve as nat, positions: positions@ }),
            r matches Err(e) ==> e == SaturnFundError::InvalidAccountData,
    {
        let n: usize = positions.len();
        let mut i: usize = 1;
        while i < n
            invariant
                n == positions@.len(),
                1 <= i,
                forall|a: int, b: int| 0 <= a < b < i && b < n ==> positions@[a].mint.rank() < positions@[b].mint.rank(),
            decreases n - i,
        {
            if !positions[i - 1].mint.precedes(&positions[i].mint) {
                return Err(SaturnFundError::InvalidAccountData);
            }
            assert forall|a: int, b: int| 0 <= a < b < i + 1 && b < n implies positions@[a].mint.rank() < positions@[b].mint.rank() by {
                if b == i && a < i - 1 {
                    assert(positions@[a].mint.rank() < positions@[i - 1].mint.rank());
                }
            }
            i = i + 1;
        }
        Ok(HoldingsLedger { reserve, positions })
    }

    /// The balance of the reserve asset.
    pub fn reserve(&self) -> (r: u64)
        ensures
            r == self@.reserve,
    {
        self.reserve
    }

    /// The priced positions, in ascending order of key.
    pub fn positions(&self) -> (r: &Vec<Position>)
        ensures
            r@ == self@.positions,
            ascending(r@),
            self@.wf(),
    {
        proof {
            use_type_invariant(self);
        }
        &self.positions
    }

    /// The value that can be paid out without a venue trade: the balance of
    /// the reserve asset.
    pub fn liquid_value(&self) -> (r: u64)
        ensures
            r == self@.liquid_value(),
    {
        self.reserve
    }

    /// The value of everything that the fund holds: the reserve plus, for
    /// each position, balance times price. Fails with `ValueOverflow` exactly
    /// when that sum does not fit in 64 bits.
    pub fn total_value(&self) -> (r: Result<u64, SaturnFundError>)
        ensures
            self@.total_value() <= u64::MAX <==> r is Ok,
            r matches Ok(v) ==> v == self@.total_value(),
            r matches Err(e) ==> e == SaturnFundError::ValueOverflow,
    {
        let n: usize = self.positions.len();
        let mut total: u64 = self.reserve;
        let mut i: usize = 0;
        assert(self.positions@.subrange(0, 0) =~= Seq::<Position>::empty());
        while i < n
            invariant
                n == self.positions@.len(),
                i <= n,
                total == self.reserve + positions_value(self.positions@.subrange(0, i as int)),
            decreases n - i,
        {
            let p: Position = self.positions[i];
            proof {
                lemma_value_step(self.positions@, i as int);
                lemma_prefix_value_le(self.positions@, i as int + 1);
            }
            match p.amount.checked_mul(p.price) {
                None => {
                    return Err(SaturnFundError::ValueOverflow);
                },
                Some(worth) => match total.checked_add(worth) {
                    None => {
                        return Err(SaturnFundError::ValueOverflow);
                    },
                    Some(sum) => {
                        total = sum;
                    },
                },
            }
            i = i + 1;
        }
        assert(self.positions@.subrange(0, n as int) =~= self.positions@);
        Ok(total)
    }

    /// Values the fund afresh: its total value, its liquid value, and what
    /// each holding is worth. Fails with `ValueOverflow` exactly when the
    /// total does not fit in 64 bits.
    pub fn valuation(&self) -> (r: Result<FundValuation, SaturnFundError>)
        ensures
            self@.total_value() <= u64::MAX <==> r is Ok,
            r matches Ok(v) ==> {
                &&& v.total_value == self@.total_value()
                &&& v.liquid_value == self@.liquid_value()
                &&& v.per_asset_value@ == asset_values(self@.positions)
            },
            r matches Err(e) ==> e == SaturnFundError::ValueOverflow,
    {
        let total: u64 = match self.total_value() {
            Ok(v) => v,
            Err(e) => {
                return Err(e);
            },
        };
        let n: usize = self.positions.len();
        let mut values: Vec<AssetValue> = Vec::new();
        let mut i: usize = 0;
        while i < n
            invariant
                n == self.positions@.len(),
                i <= n,
                positions_value(self.positions@) <= u64::MAX,
                values@.len() == i,
                forall|k: int| 0 <= k < i ==> #[trigger] values@[k] == asset_values(self.positions@)[k],
            decreases n - i,
        {
            let p: Position = self.positions[i];
            proof {
                lemma_position_value_le(self.positions@, i as int);
            }
            values.push(AssetValue { mint: p.mint, value: p.amount * p.price });
            i = i + 1;
        }
        assert(values@ =~= asset_values(self.positions@));
        Ok(FundValuation { total_value: total, liquid_value: self.reserve, per_asset_value: values })
    }

    /// The position recorded for `mint`, if there is one.
    pub fn find(&self, mint: &Pubkey) -> (r: Option<Position>)
        ensures
            r == find_position(self@.positions, *mint),
    {
        let n: usize = self.positions.len();
        let mut i: usize = 0;
        assert(self.positions@.subrange(0, n as int) =~= self.positions@);
        while i < n
            invariant
                n == self.positions@.len(),
                i <= n,
                find_position(self.positions@, *mint) == find_position(
                    self.positions@.subrange(i as int, n as int),
                    *mint,
                ),
            decreases n - i,
        {
            let p: Position = self.positions[i];
            if p.mint == *mint {
                return Some(p);
            }
            assert(self.positions@.subrange(i as int, n as int).drop_first()
                =~= self.positions@.subrange(i as int + 1, n as int));
            i = i + 1;
        }
        None
    }

    /// The share of the fund's total value that is held in `mint`, as a
    /// fixed-point ratio: `RATIO_SCALE` stands for the whole fund.
    pub fn percentage_of(&self, mint: &Pubkey) -> (r: Result<u64, SaturnFundError>)
        ensures
            r == self@.ratio_of(*mint),
            r matches Ok(ratio) ==> ratio <= RATIO_SCALE,
    {
        let total: u64 = match self.total_value() {
            Ok(v) => v,
            Err(e) => {
                return Err(e);
            },
        };
        match self.find(mint) {
            None => Err(SaturnFundError::AccountNotFound),
            Some(p) => {
                if total == 0 {
                    return Err(SaturnFundError::DivisionByZero);
                }
                proof {
                    lemma_found_position(self@.positions, *mint);
                }
                let worth: u64 = p.amount * p.price;
                proof {
                    lemma_ratio_bound(worth as int, total as int);
                }
                let wide: u128 = (worth as u128) * (RATIO_SCALE as u128);
                Ok((wide / (total as u128)) as u64)
            },
        }
    }
}

/// A part of a whole, scaled, is at most the scale.
pub proof fn lemma_ratio_bound(part: int, whole: int)
    requires
        0 <= part <= whole,
        0 < whole <= u64::MAX,
    ensures
        0 <= mul_div(part, RATIO_SCALE as int, whole) <= RATIO_SCALE,
        0 <= part * RATIO_SCALE <= u128::MAX,
{
    assert(0 <= (part * 1_000_000) / whole <= 1_000_000 && 0 <= part * 1_000_000 <= 0xffff_ffff_ffff_ffff
        * 1_000_000) by (nonlinear_arith)
        requires
            0 <= part <= whole,
            0 < whole <= 0xffff_ffff_ffff_ffff,
    ;
}

} // verus!
