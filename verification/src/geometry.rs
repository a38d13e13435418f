//! Points, directions and lines of the plane, in fixed-point coordinates.
use crate::fixed::{clamp64, clamp_wide, sat_add, sat_sub, tdiv, tdiv_signed};
use vstd::prelude::*;

verus! {

/// A point or a vector of the plane.
#[derive(Clone, Copy, Debug, PartialEq, Eq, Structural)]
pub struct Point {
    pub x: i64,
    pub y: i64,
}

/// Magnitude of `v`.
pub open spec fn spec_abs(v: int) -> int {
    if v < 0 {
        -v
    } else {
        v
    }
}

/// The larger of the magnitudes of `x` and `y`.
pub open spec fn spec_max_norm(x: int, y: int) -> int {
    if spec_abs(x) >= spec_abs(y) {
        spec_abs(x)
    } else {
        spec_abs(y)
    }
}

/// One component `c` of a vector whose larger magnitude is `norm`, after the
/// vector was rescaled so that its larger magnitude is `precision`.
pub open spec fn spec_rescale(c: int, norm: int, precision: int) -> int {
    if norm == 0 {
        0
    } else {
        tdiv(c * precision, norm)
    }
}

/// Dot product `ax * bx + ay * by`.
pub open spec fn spec_dot(ax: int, ay: int, bx: int, by: int) -> int {
    ax * bx + ay * by
}

impl Point {
    /// The point `(x, y)`.
    pub fn new(x: i64, y: i64) -> (p: Point)
        ensures
            p.x == x,
            p.y == y,
    {
        Point { x, y }
    }

    /// The point with both coordinates equal to `v`.
    pub fn splat(v: i64) -> (p: Point)
        ensures
            p.x == v,
            p.y == v,
    {
        Point { x: v, y: v }
    }

    /// The origin.
    pub fn zero() -> (p: Point)
        ensures
            p.x == 0,
            p.y == 0,
    {
        Point { x: 0, y: 0 }
    }

    /// Sum of two vectors, each coordinate saturated.
    pub open spec fn spec_plus(self, other: Point) -> Point {
        Point {
            x: clamp64(self.x + other.x) as i64,
            y: clamp64(self.y + other.y) as i64,
        }
    }

    /// Difference of two vectors, each coordinate saturated.
    pub open spec fn spec_minus(self, other: Point) -> Point {
        Point {
            x: clamp64(self.x - other.x) as i64,
            y: clamp64(self.y - other.y) as i64,
        }
    }

    /// Sum of two vectors, each coordinate saturated.
    pub fn plus(self, other: Point) -> (p: Point)
        ensures
            p == self.spec_plus(other),
    {
        Point { x: sat_add(self.x, other.x), y: sat_add(self.y, other.y) }
    }

    /// Difference of two vectors, each coordinate saturated.
    pub fn minus(self, other: Point) -> (p: Point)
        ensures
            p == self.spec_minus(other),
    {
        Point { x: sat_sub(self.x, other.x), y: sat_sub(self.y, other.y) }
    }

    /// The larger of the magnitudes of the two coordinates.
    pub open spec fn spec_norm(self) -> int {
        spec_max_norm(self.x as int, self.y as int)
    }

    /// The vector rescaled so that its larger magnitude is `precision`; the
    /// zero vector stays zero.
    pub open spec fn spec_direction(self, precision: int) -> Point {
        Point {
            x: spec_rescale(self.x as int, self.spec_norm(), precision) as i64,
            y: spec_rescale(self.y as int, self.spec_norm(), precision) as i64,
        }
    }

    /// The vector rescaled so that its larger magnitude is `precision`; the
    /// zero vector stays zero.  This keeps the direction of the vector to
    /// one part in `precision` and bounds its coordinates.
    pub fn direction(self, precision: u32) -> (d: Point)
        ensures
            d == self.spec_direction(precision as int),
            -(precision as int) <= d.x <= precision,
            -(precision as int) <= d.y <= precision,
    {
        let ax: u64 = magnitude(self.x as i128);
        let ay: u64 = magnitude(self.y as i128);
        let norm: u64 = if ax >= ay {
            ax
        } else {
            ay
        };
        if norm == 0 {
            return Point { x: 0, y: 0 };
        }
        if precision == 0 {
            assert(self.x * 0 == 0 && self.y * 0 == 0) by (nonlinear_arith);
            assert(0int / (norm as int) == 0) by (nonlinear_arith)
                requires
                    norm > 0,
            ;
            return Point { x: 0, y: 0 };
        }
        let dx: i64 = rescale_wide(self.x as i128, norm, precision);
        let dy: i64 = rescale_wide(self.y as i128, norm, precision);
        Point { x: dx, y: dy }
    }
}

/// A line through two points.
#[derive(Clone, Copy, Debug, PartialEq, Eq, Structural)]
pub struct Line(pub Point, pub Point);

/// Precision to which `Line::intersect` keeps the direction of a line.
pub const LINE_PRECISION: u32 = 1_000_000_000;

impl Line {
    /// Direction of the line: from its first point toward its second,
    /// rescaled to `LINE_PRECISION`.
    pub open spec fn spec_heading(self) -> Point {
        Point {
            x: spec_rescale(
                self.1.x - self.0.x,
                spec_max_norm(self.1.x - self.0.x, self.1.y - self.0.y),
                LINE_PRECISION as int,
            ) as i64,
            y: spec_rescale(
                self.1.y - self.0.y,
                spec_max_norm(self.1.x - self.0.x, self.1.y - self.0.y),
                LINE_PRECISION as int,
            ) as i64,
        }
    }

    /// The line is the set of the points `(x, y)` with
    /// `a * x + b * y == c`; this is `a`: the second coordinate of the
    /// heading.
    pub open spec fn spec_a(self) -> int {
        self.spec_heading().y as int
    }

    /// The coefficient `b` of the equation of the line: the first
    /// coordinate of the heading, negated.
    pub open spec fn spec_b(self) -> int {
        -(self.spec_heading().x as int)
    }

    /// The right-hand side `c` of the equation of the line: what its first
    /// point gives.
    pub open spec fn spec_c(self) -> int {
        self.spec_a() * self.0.x + self.spec_b() * self.0.y
    }

    /// Determinant of the equations of two lines, which is that of their
    /// headings; zero when they are parallel, or when one of them joins a
    /// point to itself.
    pub open spec fn spec_determinant(self, other: Line) -> int {
        self.spec_a() * other.spec_b() - other.spec_a() * self.spec_b()
    }

    /// Numerator of the first coordinate of the meeting point, by Cramer's
    /// rule.
    pub open spec fn spec_numerator_x(self, other: Line) -> int {
        other.spec_b() * self.spec_c() - self.spec_b() * other.spec_c()
    }

    /// Numerator of the second coordinate of the meeting point, by
    /// Cramer's rule.
    pub open spec fn spec_numerator_y(self, other: Line) -> int {
        self.spec_a() * other.spec_c() - other.spec_a() * self.spec_c()
    }

    /// The point where two lines meet, by Cramer's rule on their two
    /// equations, each coordinate truncated toward zero; `None` when the
    /// determinant is zero.  The rule treats both lines alike.
    pub open spec fn spec_intersect(self, other: Line) -> Option<Point> {
        if self.spec_determinant(other) == 0 {
            None
        } else {
            Some(
                Point {
                    x: clamp64(
                        tdiv_signed(self.spec_numerator_x(other), self.spec_determinant(other)),
                    ) as i64,
                    y: clamp64(
                        tdiv_signed(self.spec_numerator_y(other), self.spec_determinant(other)),
                    ) as i64,
                },
            )
        }
    }

    /// Direction of the line: from its first point toward its second,
    /// rescaled to `LINE_PRECISION`.
    pub fn heading(self) -> (d: Point)
        ensures
            d == self.spec_heading(),
            -(LINE_PRECISION as int) <= d.x <= LINE_PRECISION,
            -(LINE_PRECISION as int) <= d.y <= LINE_PRECISION,
    {
        let wx: i128 = self.1.x as i128 - self.0.x as i128;
        let wy: i128 = self.1.y as i128 - self.0.y as i128;
        let ax: u64 = magnitude(wx);
        let ay: u64 = magnitude(wy);
        let norm: u64 = if ax >= ay {
            ax
        } else {
            ay
        };
        if norm == 0 {
            return Point { x: 0, y: 0 };
        }
        let dx: i64 = rescale_wide(wx, norm, LINE_PRECISION);
        let dy: i64 = rescale_wide(wy, norm, LINE_PRECISION);
        Point { x: dx, y: dy }
    }

    /// The vector of length one along the line, from its first point
    /// toward its second; zero for a line that joins a point to itself.
    pub open spec fn spec_unit(self) -> Point {
        Point {
            x: spec_unit_part(
                self.spec_heading().x as int,
                spec_dot(
                    self.spec_heading().x as int,
                    self.spec_heading().y as int,
                    self.spec_heading().x as int,
                    self.spec_heading().y as int,
                ),
            ) as i64,
            y: spec_unit_part(
                self.spec_heading().y as int,
                spec_dot(
                    self.spec_heading().x as int,
                    self.spec_heading().y as int,
                    self.spec_heading().x as int,
                    self.spec_heading().y as int,
                ),
            ) as i64,
        }
    }

    /// The vector of length one along the line, from its first point
    /// toward its second; zero for a line that joins a point to itself.
    pub fn unit(self) -> (u: Point)
        ensures
            u == self.spec_unit(),
            -crate::fixed::ONE <= u.x <= crate::fixed::ONE,
            -crate::fixed::ONE <= u.y <= crate::fixed::ONE,
    {
        let h: Point = self.heading();
        let hx: i128 = h.x as i128;
        let hy: i128 = h.y as i128;
        assert(0 <= hx * hx <= 1_000_000_000_000_000_000) by (nonlinear_arith)
            requires
                -1_000_000_000 <= hx <= 1_000_000_000,
        ;
        assert(0 <= hy * hy <= 1_000_000_000_000_000_000) by (nonlinear_arith)
            requires
                -1_000_000_000 <= hy <= 1_000_000_000,
        ;
        let square: u64 = (hx * hx + hy * hy) as u64;
        let length: u64 = isqrt(square);
        if length == 0 {
            return Point { x: 0, y: 0 };
        }
        let len: i128 = length as i128;
        proof {
            // the length is at least the magnitude of each coordinate
            assert(spec_abs(hx as int) <= len && spec_abs(hy as int) <= len) by (nonlinear_arith)
                requires
                    hx * hx + hy * hy < (len + 1) * (len + 1),
                    len >= 1,
            ;
        }
        let ux: i64 = rescale_wide(hx, length, 1_000_000_000);
        let uy: i64 = rescale_wide(hy, length, 1_000_000_000);
        Point { x: ux, y: uy }
    }

    /// The point where two lines meet, or `None` when their headings are
    /// parallel.  The order of the two lines does not matter.
    pub fn intersect(self, other: Line) -> (r: Option<Point>)
        ensures
            r == self.spec_intersect(other),
            r == other.spec_intersect(self),
    {
        proof {
            // swapping the lines negates the determinant and both numerators
            assert(other.spec_determinant(self) == -self.spec_determinant(other));
            assert(other.spec_numerator_x(self) == -self.spec_numerator_x(other));
            assert(other.spec_numerator_y(self) == -self.spec_numerator_y(other));
        }
        let hs: Point = self.heading();
        let ho: Point = other.heading();
        let cs: i128 = level(hs, self.0);
        let co: i128 = level(ho, other.0);
        let det: i128 = pair(hs.y, -(ho.x as i128), ho.y, -(hs.x as i128));
        if det == 0 {
            return None;
        }
        let nx: i128 = pair_wide(-ho.x, cs, -hs.x, co);
        let ny: i128 = pair_wide(hs.y, co, ho.y, cs);
        Some(Point { x: clamp_wide(quotient(nx, det)), y: clamp_wide(quotient(ny, det)) })
    }
}

/// Whether `r` is the whole part of the square root of `n`.
pub open spec fn is_isqrt(n: int, r: int) -> bool {
    r >= 0 && r * r <= n && n < (r + 1) * (r + 1)
}

/// The whole part of the square root of `n`.
pub open spec fn spec_isqrt(n: int) -> int {
    choose|r: int| is_isqrt(n, r)
}

/// There is one whole number whose square is at most `n` and whose
/// successor's square is above `n`: the whole part of the root.
pub proof fn lemma_isqrt_unique(n: int, r: int)
    requires
        r >= 0,
        r * r <= n,
        n < (r + 1) * (r + 1),
    ensures
        spec_isqrt(n) == r,
{
    let s = spec_isqrt(n);
    assert(is_isqrt(n, r));
    assert(is_isqrt(n, s));
    if s < r {
        assert((s + 1) * (s + 1) <= r * r) by (nonlinear_arith)
            requires
                0 <= s + 1 <= r,
        ;
    }
    if r < s {
        assert((r + 1) * (r + 1) <= s * s) by (nonlinear_arith)
            requires
                0 <= r + 1 <= s,
        ;
    }
}

/// The whole part of the square root of `n`.
pub fn isqrt(n: u64) -> (r: u64)
    ensures
        r == spec_isqrt(n as int),
        r * r <= n,
        n < (r + 1) * (r + 1),
        r <= 0xffff_ffff,
{
    let mut low: u64 = 0;
    let mut high: u64 = 0x1_0000_0000;
    assert(0x1_0000_0000int * 0x1_0000_0000int > n);
    assert(0int * 0int <= n);
    while high - low > 1
        invariant
            0 <= low < high <= 0x1_0000_0000,
            low * low <= n,
            n < high * high,
        decreases high - low,
    {
        let mid: u64 = low + (high - low) / 2;
        assert(0 <= mid * mid <= 0x1_0000_0000 * 0x1_0000_0000) by (nonlinear_arith)
            requires
                0 <= mid <= 0x1_0000_0000,
        ;
        let square: u128 = (mid as u128) * (mid as u128);
        if square <= n as u128 {
            low = mid;
        } else {
            high = mid;
        }
    }
    proof {
        lemma_isqrt_unique(n as int, low as int);
    }
    low
}

/// One coordinate `c` of a heading whose squared length is `square`, after
/// the heading was brought to the length of one.
pub open spec fn spec_unit_part(c: int, square: int) -> int {
    if spec_isqrt(square) == 0 {
        0
    } else {
        tdiv(c * crate::fixed::ONE, spec_isqrt(square))
    }
}

/// Magnitude of the difference of two 64-bit numbers.
fn magnitude(v: i128) -> (r: u64)
    requires
        -0xffff_ffff_ffff_ffff <= v <= 0xffff_ffff_ffff_ffff,
    ensures
        r == spec_abs(v as int),
{
    if v < 0 {
        (-v) as u64
    } else {
        v as u64
    }
}

/// One component of a rescaled vector: `c * precision / norm`.
fn rescale_wide(c: i128, norm: u64, precision: u32) -> (r: i64)
    requires
        norm > 0,
        precision > 0,
        spec_abs(c as int) <= norm,
    ensures
        r == spec_rescale(c as int, norm as int, precision as int),
        -(precision as int) <= r <= precision,
{
    let p: i128 = precision as i128;
    let n: i128 = norm as i128;
    assert(-(p * n) <= c * p <= p * n) by (nonlinear_arith)
        requires
            -n <= c <= n,
            p > 0,
    ;
    assert(p * n <= 0xffff_ffff * 0xffff_ffff_ffff_ffff) by (nonlinear_arith)
        requires
            0 < n <= 0xffff_ffff_ffff_ffff,
            0 < p <= 0xffff_ffff,
    ;
    let q: i128 = (c * p) / n;
    proof {
        assert((-p) * n == -(p * n)) by (nonlinear_arith);
        crate::fixed::lemma_tdiv_monotonic(c * p, p * n, n as int);
        crate::fixed::lemma_tdiv_monotonic((-p) * n, c * p, n as int);
        crate::fixed::lemma_tdiv_multiple(p as int, n as int);
        crate::fixed::lemma_tdiv_multiple(-p, n as int);
    }
    q as i64
}

/// The right-hand side of the equation of the line through `p` with the
/// heading `h`: `h.y * p.x - h.x * p.y`.
fn level(h: Point, p: Point) -> (c: i128)
    requires
        -(LINE_PRECISION as int) <= h.x <= LINE_PRECISION,
        -(LINE_PRECISION as int) <= h.y <= LINE_PRECISION,
    ensures
        c == h.y * p.x + (-(h.x as int)) * p.y,
        -2_000_000_000 * 0x8000_0000_0000_0000 <= c <= 2_000_000_000 * 0x8000_0000_0000_0000,
{
    let hx: i128 = h.x as i128;
    let hy: i128 = h.y as i128;
    let px: i128 = p.x as i128;
    let py: i128 = p.y as i128;
    assert(-1_000_000_000 * 0x8000_0000_0000_0000 <= hy * px <= 1_000_000_000
        * 0x8000_0000_0000_0000) by (nonlinear_arith)
        requires
            -1_000_000_000 <= hy <= 1_000_000_000,
            -0x8000_0000_0000_0000 <= px <= 0x8000_0000_0000_0000,
    ;
    assert(-1_000_000_000 * 0x8000_0000_0000_0000 <= hx * py <= 1_000_000_000
        * 0x8000_0000_0000_0000) by (nonlinear_arith)
        requires
            -1_000_000_000 <= hx <= 1_000_000_000,
            -0x8000_0000_0000_0000 <= py <= 0x8000_0000_0000_0000,
    ;
    assert((-hx) * py == -(hx * py)) by (nonlinear_arith);
    hy * px - hx * py
}

/// `a * b - c * d` for coordinates of headings.
fn pair(a: i64, b: i128, c: i64, d: i128) -> (r: i128)
    requires
        -(LINE_PRECISION as int) <= a <= LINE_PRECISION,
        -(LINE_PRECISION as int) <= b <= LINE_PRECISION,
        -(LINE_PRECISION as int) <= c <= LINE_PRECISION,
        -(LINE_PRECISION as int) <= d <= LINE_PRECISION,
    ensures
        r == a * b - c * d,
        -2_000_000_000_000_000_000 <= r <= 2_000_000_000_000_000_000,
{
    let x: i128 = a as i128;
    let z: i128 = c as i128;
    assert(-1_000_000_000_000_000_000 <= x * b <= 1_000_000_000_000_000_000)
        by (nonlinear_arith)
        requires
            -1_000_000_000 <= x <= 1_000_000_000,
            -1_000_000_000 <= b <= 1_000_000_000,
    ;
    assert(-1_000_000_000_000_000_000 <= z * d <= 1_000_000_000_000_000_000)
        by (nonlinear_arith)
        requires
            -1_000_000_000 <= z <= 1_000_000_000,
            -1_000_000_000 <= d <= 1_000_000_000,
    ;
    x * b - z * d
}

/// `a * b - c * d` for coordinates `a` and `c` of headings and right-hand
/// sides `b` and `d` of line equations.
fn pair_wide(a: i64, b: i128, c: i64, d: i128) -> (r: i128)
    requires
        -(LINE_PRECISION as int) <= a <= LINE_PRECISION,
        -(LINE_PRECISION as int) <= c <= LINE_PRECISION,
        -2_000_000_000 * 0x8000_0000_0000_0000 <= b <= 2_000_000_000 * 0x8000_0000_0000_0000,
        -2_000_000_000 * 0x8000_0000_0000_0000 <= d <= 2_000_000_000 * 0x8000_0000_0000_0000,
    ensures
        r == a * b - c * d,
        -4_000_000_000_000_000_000 * 0x8000_0000_0000_0000 <= r <= 4_000_000_000_000_000_000
            * 0x8000_0000_0000_0000,
{
    let x: i128 = a as i128;
    let z: i128 = c as i128;
    assert(-2_000_000_000_000_000_000 * 0x8000_0000_0000_0000 <= x * b
        <= 2_000_000_000_000_000_000 * 0x8000_0000_0000_0000) by (nonlinear_arith)
        requires
            -1_000_000_000 <= x <= 1_000_000_000,
            -2_000_000_000 * 0x8000_0000_0000_0000 <= b <= 2_000_000_000
                * 0x8000_0000_0000_0000,
    ;
    assert(-2_000_000_000_000_000_000 * 0x8000_0000_0000_0000 <= z * d
        <= 2_000_000_000_000_000_000 * 0x8000_0000_0000_0000) by (nonlinear_arith)
        requires
            -1_000_000_000 <= z <= 1_000_000_000,
            -2_000_000_000 * 0x8000_0000_0000_0000 <= d <= 2_000_000_000
                * 0x8000_0000_0000_0000,
    ;
    x * b - z * d
}

/// Quotient by a determinant of either sign, truncated toward zero.
fn quotient(num: i128, det: i128) -> (r: i128)
    requires
        det != 0,
        -2_000_000_000_000_000_000 <= det <= 2_000_000_000_000_000_000,
        -4_000_000_000_000_000_000 * 0x8000_0000_0000_0000 <= num <= 4_000_000_000_000_000_000
            * 0x8000_0000_0000_0000,
    ensures
        r == tdiv_signed(num as int, det as int),
{
    if det > 0 {
        num / det
    } else {
        (-num) / (-det)
    }
}

} // verus!
