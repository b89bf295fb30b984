//! Integer ratio arithmetic: every quotient is a floor, computed without
//! intermediate overflow.

use vstd::prelude::*;

verus! {

/// One hundred percent.
pub const PERCENT: u64 = 100;

/// The scale of a fixed-point ratio: `RATIO_SCALE` stands for one whole.
pub const RATIO_SCALE: u64 = 1_000_000;

/// `floor(a * b / d)`, for `d > 0`.
pub open spec fn mul_div(a: int, b: int, d: int) -> int {
    (a * b) / d
}

/// `floor(amount * percentage / 100)`.
pub open spec fn percent_of(amount: int, percentage: int) -> int {
    (amount * percentage) / 100
}

/// A product of two 64-bit values fits in 128 bits.
pub proof fn lemma_product_fits(a: u64, b: u64)
    ensures
        0 <= a * b <= u128::MAX,
        a * b <= 0xffff_ffff_ffff_ffff * 0xffff_ffff_ffff_ffff,
{
    assert(0 <= a * b <= 0xffff_ffff_ffff_ffff * 0xffff_ffff_ffff_ffff) by (nonlinear_arith)
        requires
            0 <= a <= 0xffff_ffff_ffff_ffff,
            0 <= b <= 0xffff_ffff_ffff_ffff,
    ;
}

/// A floor quotient `q = floor(n / d)` is the one integer with
/// `q * d <= n < q * d + d`.
pub proof fn lemma_floor_bounds(n: int, d: int)
    requires
        0 <= n,
        0 < d,
    ensures
        0 <= n / d,
        (n / d) * d <= n,
        n < (n / d) * d + d,
        n - (n / d) * d == n % d,
{
    assert(0 <= n / d && (n / d) * d <= n && n < (n / d) * d + d && n - (n / d) * d == n % d)
        by (nonlinear_arith)
        requires
            0 <= n,
            0 < d,
    ;
}

/// Taking a share `b / d` of `a` with `b <= d` never gives more than `a`.
pub proof fn lemma_mul_div_le(a: int, b: int, d: int)
    requires
        0 <= a,
        0 <= b <= d,
        0 < d,
    ensures
        0 <= mul_div(a, b, d) <= a,
{
    assert(0 <= (a * b) / d <= a) by (nonlinear_arith)
        requires
            0 <= a,
            0 <= b <= d,
            0 < d,
    ;
}

/// Computes `floor(a * b / d)`; `None` when the quotient does not fit in
/// 64 bits.
pub(crate) fn checked_mul_div(a: u64, b: u64, d: u64) -> (r: Option<u64>)
    requires
        d > 0,
    ensures
        r == (if mul_div(a as int, b as int, d as int) > u64::MAX {
            None
        } else {
            Some(mul_div(a as int, b as int, d as int) as u64)
        }),
{
    proof {
        lemma_product_fits(a, b);
    }
    let wide: u128 = (a as u128) * (b as u128);
    let q: u128 = wide / (d as u128);
    if q > u64::MAX as u128 {
        None
    } else {
        Some(q as u64)
    }
}

/// Computes `floor(a * b / d)` where `b <= d`, which always fits.
pub(crate) fn share_of(a: u64, b: u64, d: u64) -> (r: u64)
    requires
        d > 0,
        b <= d,
    ensures
        r == mul_div(a as int, b as int, d as int),
        r <= a,
{
    proof {
        lemma_product_fits(a, b);
        lemma_mul_div_le(a as int, b as int, d as int);
    }
    let wide: u128 = (a as u128) * (b as u128);
    let q: u128 = wide / (d as u128);
    q as u64
}

/// Computes `floor(amount * percentage / 100)` for a percentage of at most
/// 100.
pub(crate) fn percentage_of_amount(amount: u64, percentage: u8) -> (r: u64)
    requires
        percentage <= 100,
    ensures
        r == percent_of(amount as int, percentage as int),
        r <= amount,
{
    share_of(amount, percentage as u64, PERCENT)
}

} // verus!
