//! Spacing of grid lines: 1, 2 or 5 times a power of ten.
use crate::geometry::spec_abs;
use vstd::prelude::*;

verus! {

/// Ten to the power `k`.
pub open spec fn pow10(k: nat) -> int
    decreases k,
{
    if k == 0 {
        1
    } else {
        10 * pow10((k - 1) as nat)
    }
}

/// The power of ten at or below a tenth of the range `r`, in units: the
/// largest one with `10 * m <= r`.  A range under ten units has the
/// magnitude of one unit, the finest there is.
pub open spec fn tick_magnitude(r: int) -> int
    decreases r,
{
    if r < 100 {
        1
    } else {
        10 * tick_magnitude(r / 10)
    }
}

/// Whether `t` is 1, 2 or 5 times a power of ten.
pub open spec fn is_nice(t: int) -> bool {
    exists|k: nat| t == pow10(k) || t == 2 * pow10(k) || t == 5 * pow10(k)
}

/// The tick period for a range `r`: of the magnitude and its double and
/// fivefold, the one closest to a tenth of the range, the smaller one where
/// two are equally close.
pub open spec fn spec_nice_tick(r: int) -> int {
    let m = tick_magnitude(r);
    let d1 = spec_abs(10 * m - r);
    let d2 = spec_abs(20 * m - r);
    let d5 = spec_abs(50 * m - r);
    if d1 <= d2 {
        if d1 <= d5 {
            m
        } else {
            5 * m
        }
    } else if d2 <= d5 {
        2 * m
    } else {
        5 * m
    }
}

/// The lower limit of the tick period for a range `r`: a fifteenth of it.
pub open spec fn spec_tick_floor(r: int) -> int {
    r / 15
}

/// The upper limit of the tick period for a range `r`: a million times the
/// range, saturated.
pub open spec fn spec_tick_ceiling(r: int) -> int {
    crate::fixed::clamp64(r * 1_000_000)
}

/// The tick period `t` brought between the two limits for the range `r`.
pub open spec fn spec_clamp_tick(t: int, r: int) -> int {
    if t < spec_tick_floor(r) {
        spec_tick_floor(r)
    } else if t > spec_tick_ceiling(r) {
        spec_tick_ceiling(r)
    } else {
        t
    }
}

/// The magnitude is a power of ten, and from ten units on it lies between a
/// hundredth and a tenth of the range.
pub proof fn lemma_tick_magnitude(r: int)
    requires
        r >= 0,
    ensures
        exists|k: nat| tick_magnitude(r) == pow10(k),
        tick_magnitude(r) >= 1,
        r >= 10 ==> 10 * tick_magnitude(r) <= r < 100 * tick_magnitude(r),
    decreases r,
{
    if r < 100 {
        assert(tick_magnitude(r) == pow10(0));
    } else {
        lemma_tick_magnitude(r / 10);
        let k = choose|k: nat| tick_magnitude(r / 10) == pow10(k);
        assert(tick_magnitude(r) == pow10(k + 1));
    }
}

/// The tick period of every range is 1, 2 or 5 times a power of ten.
pub proof fn lemma_nice_tick_is_nice(r: int)
    requires
        r >= 0,
    ensures
        is_nice(spec_nice_tick(r)),
{
    lemma_tick_magnitude(r);
    let k = choose|k: nat| tick_magnitude(r) == pow10(k);
    let t = spec_nice_tick(r);
    assert(t == pow10(k) || t == 2 * pow10(k) || t == 5 * pow10(k));
}

/// From a range of ten units on, more than 7 and fewer than 20 tick periods
/// fit into the range.
pub proof fn lemma_nice_tick_count(r: int)
    requires
        r >= 10,
    ensures
        7 * spec_nice_tick(r) < r < 20 * spec_nice_tick(r),
{
    lemma_tick_magnitude(r);
}

/// A clamped tick period lies between its two limits: at most fifteen
/// periods, and a unit more, fit into the range, and the period is at most
/// a million times the range.
pub proof fn lemma_clamped_tick_count(t: int, r: int)
    requires
        0 <= r <= u64::MAX,
    ensures
        spec_tick_floor(r) <= spec_clamp_tick(t, r) <= spec_tick_ceiling(r),
        r < 15 * spec_clamp_tick(t, r) + 15,
        spec_clamp_tick(t, r) <= 1_000_000 * r,
{
}

/// The power of ten at or below a tenth of `range`.
pub fn magnitude_of(range: u64) -> (m: u64)
    ensures
        m == tick_magnitude(range as int),
        m >= 1,
        m == 1 || 10 * m <= range,
{
    let mut rest: u64 = range;
    let mut m: u64 = 1;
    while rest >= 100
        invariant
            m >= 1,
            m * rest <= range,
            tick_magnitude(range as int) == m * tick_magnitude(rest as int),
        decreases rest,
    {
        let next: u64 = rest / 10;
        assert(m * 10 * next <= m * rest) by (nonlinear_arith)
            requires
                next * 10 <= rest,
                m >= 1,
        ;
        assert(m * 10 <= m * 10 * next) by (nonlinear_arith)
            requires
                next >= 1,
                m >= 1,
        ;
        assert(m * (10 * tick_magnitude(next as int)) == m * 10 * tick_magnitude(next as int))
            by (nonlinear_arith);
        m = m * 10;
        rest = next;
    }
    assert(m * 100 <= 0xffff_ffff_ffff_ffff * 100 && (rest >= 10 ==> m * 10 <= m * rest))
        by (nonlinear_arith)
        requires
            m <= 0xffff_ffff_ffff_ffff,
            m >= 1,
            rest >= 0,
    ;
    assert(m * 1 == m) by (nonlinear_arith);
    proof {
        lemma_tick_magnitude(range as int);
    }
    m
}

/// The tick period for a range: 1, 2 or 5 times a power of ten, whichever
/// is closest to a tenth of the range.
pub fn nice_tick(range: u64) -> (t: i64)
    ensures
        t == spec_nice_tick(range as int),
        t >= 1,
{
    let m: u64 = magnitude_of(range);
    let wide: i128 = m as i128;
    let r: i128 = range as i128;
    let d1: i128 = gap(10 * wide, r);
    let d2: i128 = gap(20 * wide, r);
    let d5: i128 = gap(50 * wide, r);
    if d1 <= d2 {
        if d1 <= d5 {
            m as i64
        } else {
            (5 * m) as i64
        }
    } else if d2 <= d5 {
        (2 * m) as i64
    } else {
        (5 * m) as i64
    }
}

/// Distance between two numbers.
fn gap(a: i128, b: i128) -> (d: i128)
    requires
        0 <= a <= 0xffff_ffff_ffff_ffff_ffff,
        0 <= b <= 0xffff_ffff_ffff_ffff_ffff,
    ensures
        d == spec_abs(a - b),
{
    if a >= b {
        a - b
    } else {
        b - a
    }
}

/// The tick period `tick` brought between a fifteenth of the range and a
/// million times the range.
pub fn clamp_tick(tick: i64, range: u64) -> (t: i64)
    ensures
        t == spec_clamp_tick(tick as int, range as int),
{
    let floor: i64 = (range / 15) as i64;
    let ceiling: i64 = crate::fixed::clamp_wide((range as i128) * 1_000_000);
    if tick < floor {
        floor
    } else if tick > ceiling {
        ceiling
    } else {
        tick
    }
}

} // verus!
