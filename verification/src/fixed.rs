//! Fixed-point scalars.
//!
//! Every coordinate of the crate is an `i64` that counts billionths: the
//! value `ONE` stands for 1.0.  An operation computes its exact result,
//! truncates it toward zero to the grid and saturates it to the range of
//! `i64`.
use vstd::prelude::*;

verus! {

/// Number of fixed-point units in one whole.
pub const ONE: i64 = 1_000_000_000;

/// The integer `v` brought into the range of `i64`.
pub open spec fn clamp64(v: int) -> int {
    if v < i64::MIN {
        i64::MIN as int
    } else if v > i64::MAX {
        i64::MAX as int
    } else {
        v
    }
}

/// Quotient of `a` by a positive `b`, truncated toward zero.
pub open spec fn tdiv(a: int, b: int) -> int
    recommends
        b > 0,
{
    if a >= 0 {
        a / b
    } else {
        -((-a) / b)
    }
}

/// Quotient of `a` by `b` of either sign, truncated toward zero.
pub open spec fn tdiv_signed(a: int, b: int) -> int
    recommends
        b != 0,
{
    if b > 0 {
        tdiv(a, b)
    } else {
        tdiv(-a, -b)
    }
}

/// `a * num / den`, truncated toward zero and saturated.
pub open spec fn spec_scale(a: int, num: int, den: int) -> int
    recommends
        den > 0,
{
    clamp64(tdiv(a * num, den))
}

/// Product of two fixed-point numbers.
pub open spec fn spec_times(a: int, b: int) -> int {
    clamp64(tdiv(a * b, ONE as int))
}

/// The fixed-point number that stands for the whole number `v`.
pub open spec fn spec_from_int(v: int) -> int {
    clamp64(v * ONE)
}

/// The truncated quotient differs from the exact one by less than one, on
/// the side of zero.
pub proof fn lemma_tdiv_bounds(a: int, b: int)
    requires
        b > 0,
    ensures
        a >= 0 ==> tdiv(a, b) * b <= a < tdiv(a, b) * b + b,
        a <= 0 ==> tdiv(a, b) * b - b < a <= tdiv(a, b) * b,
        a >= 0 ==> tdiv(a, b) >= 0,
        a <= 0 ==> tdiv(a, b) <= 0,
{
    if a >= 0 {
        assert(a / b * b <= a < a / b * b + b && a / b >= 0) by (nonlinear_arith)
            requires
                a >= 0,
                b > 0,
        ;
    } else {
        let n = -a;
        assert(n / b * b <= n < n / b * b + b && n / b >= 0) by (nonlinear_arith)
            requires
                n >= 0,
                b > 0,
        ;
        assert((-(n / b)) * b == -(n / b * b)) by (nonlinear_arith);
    }
}

/// Truncated division is odd: negating the dividend negates the quotient.
pub proof fn lemma_tdiv_neg(a: int, b: int)
    requires
        b > 0,
    ensures
        tdiv(-a, b) == -tdiv(a, b),
{
    if a == 0 {
        assert(0int / b == 0) by (nonlinear_arith)
            requires
                b > 0,
        ;
    }
}

/// Truncated division keeps the order of its dividends.
pub proof fn lemma_tdiv_monotonic(a1: int, a2: int, b: int)
    requires
        b > 0,
        a1 <= a2,
    ensures
        tdiv(a1, b) <= tdiv(a2, b),
{
    lemma_tdiv_bounds(a1, b);
    lemma_tdiv_bounds(a2, b);
    let q1 = tdiv(a1, b);
    let q2 = tdiv(a2, b);
    if q1 > q2 {
        assert(q1 * b >= q2 * b + b) by (nonlinear_arith)
            requires
                q1 >= q2 + 1,
                b > 0,
        ;
    }
}

/// A multiple of the divisor is divided without remainder.
pub proof fn lemma_tdiv_multiple(k: int, b: int)
    requires
        b > 0,
    ensures
        tdiv(k * b, b) == k,
{
    lemma_tdiv_bounds(k * b, b);
    let q = tdiv(k * b, b);
    if q > k {
        assert(q * b >= k * b + b) by (nonlinear_arith)
            requires
                q >= k + 1,
                b > 0,
        ;
    }
    if q < k {
        assert(q * b + b <= k * b) by (nonlinear_arith)
            requires
                q + 1 <= k,
                b > 0,
        ;
    }
}

/// The quotient is no larger in magnitude than the dividend.
pub proof fn lemma_tdiv_magnitude(a: int, b: int)
    requires
        b > 0,
    ensures
        a >= 0 ==> 0 <= tdiv(a, b) <= a,
        a <= 0 ==> a <= tdiv(a, b) <= 0,
{
    lemma_tdiv_bounds(a, b);
    let q = tdiv(a, b);
    if a >= 0 {
        assert(q <= q * b) by (nonlinear_arith)
            requires
                q >= 0,
                b >= 1,
        ;
    } else {
        assert(q * b <= q) by (nonlinear_arith)
            requires
                q <= 0,
                b >= 1,
        ;
    }
}

/// Brings a wide integer into the range of `i64`.
pub fn clamp_wide(v: i128) -> (r: i64)
    ensures
        r == clamp64(v as int),
{
    if v < i64::MIN as i128 {
        i64::MIN
    } else if v > i64::MAX as i128 {
        i64::MAX
    } else {
        v as i64
    }
}

/// Sum of two fixed-point numbers, saturated.
pub fn sat_add(a: i64, b: i64) -> (r: i64)
    ensures
        r == clamp64(a + b),
{
    clamp_wide(a as i128 + b as i128)
}

/// Difference of two fixed-point numbers, saturated.
pub fn sat_sub(a: i64, b: i64) -> (r: i64)
    ensures
        r == clamp64(a - b),
{
    clamp_wide(a as i128 - b as i128)
}

/// Distance from `lo` up to `hi`; zero where `hi` is below `lo`.
pub open spec fn spec_span(lo: int, hi: int) -> int {
    if lo <= hi {
        hi - lo
    } else {
        0
    }
}

/// Distance from `lo` up to `hi`; zero where `hi` is below `lo`.
pub fn span(lo: i64, hi: i64) -> (r: u64)
    ensures
        r == spec_span(lo as int, hi as int),
{
    if lo <= hi {
        (hi as i128 - lo as i128) as u64
    } else {
        0
    }
}

/// `a * num / den`, truncated toward zero and saturated.
pub fn scale(a: i64, num: u64, den: u64) -> (r: i64)
    requires
        den > 0,
    ensures
        r == spec_scale(a as int, num as int, den as int),
{
    let wide: i128 = widen_product(a, num);
    let q: i128 = wide / (den as i128);
    clamp_wide(q)
}

/// Exact product of a signed and an unsigned 64-bit number.
pub fn widen_product(a: i64, num: u64) -> (r: i128)
    ensures
        r == a * num,
        -0x8000_0000_0000_0000 * 0xffff_ffff_ffff_ffff <= r <= 0x7fff_ffff_ffff_ffff
            * 0xffff_ffff_ffff_ffff,
{
    let x: i128 = a as i128;
    let y: i128 = num as i128;
    assert(-0x8000_0000_0000_0000 * 0xffff_ffff_ffff_ffff <= x * y <= 0x7fff_ffff_ffff_ffff
        * 0xffff_ffff_ffff_ffff) by (nonlinear_arith)
        requires
            -0x8000_0000_0000_0000 <= x <= 0x7fff_ffff_ffff_ffff,
            0 <= y <= 0xffff_ffff_ffff_ffff,
    ;
    x * y
}

/// Product of two fixed-point numbers, truncated and saturated.
pub fn times(a: i64, b: i64) -> (r: i64)
    ensures
        r == spec_times(a as int, b as int),
{
    let x: i128 = a as i128;
    let y: i128 = b as i128;
    assert(-0x8000_0000_0000_0000 * 0x8000_0000_0000_0000 <= x * y <= 0x8000_0000_0000_0000
        * 0x8000_0000_0000_0000) by (nonlinear_arith)
        requires
            -0x8000_0000_0000_0000 <= x <= 0x7fff_ffff_ffff_ffff,
            -0x8000_0000_0000_0000 <= y <= 0x7fff_ffff_ffff_ffff,
    ;
    clamp_wide((x * y) / (ONE as i128))
}

/// The fixed-point number that stands for the whole number `v`.
pub fn from_int(v: i64) -> (r: i64)
    ensures
        r == spec_from_int(v as int),
{
    let w: i128 = v as i128;
    clamp_wide(w * 1_000_000_000)
}

} // verus!
