//! What holds of the transform and of the tessellation for all inputs.
use crate::bezier::{
    spec_control, spec_curved, spec_linspace_at, spec_perpendicular, spec_square, spec_straight,
    spec_tangent, CurveMesh, Sample, ANGLE_PRECISION,
};
use crate::fixed::{
    lemma_tdiv_bounds, lemma_tdiv_magnitude, lemma_tdiv_monotonic, lemma_tdiv_multiple,
    lemma_tdiv_neg, tdiv, tdiv_signed,
};
use crate::geometry::{
    is_isqrt, spec_abs, spec_dot, spec_isqrt, spec_max_norm, spec_rescale, Line, Point,
    LINE_PRECISION,
};
use crate::plot::{fits, Axis, Plot};
use crate::ticks::{is_nice, lemma_nice_tick_count, lemma_nice_tick_is_nice, spec_nice_tick};
use vstd::prelude::*;

verus! {

impl Axis {
    /// The screen positions of the origin and of both bounds are in the
    /// range of coordinates, so that none of them was saturated.
    pub open spec fn representable(self) -> bool {
        &&& fits(self.zero_exact())
        &&& fits(tdiv(self.lo * self.inner(), self.range()))
        &&& fits(tdiv(self.up * self.inner(), self.range()))
    }
}

/// Within the bounds of a representable axis, the screen position of a plot
/// coordinate lies between those of the two bounds, and is not saturated.
pub proof fn lemma_local_within(a: Axis, p: int)
    requires
        a.valid(),
        a.representable(),
        a.lo <= p <= a.up,
    ensures
        a.to_local(p) == a.zero_exact() + tdiv(p * a.inner(), a.range()),
        a.to_local(a.lo) <= a.to_local(p) <= a.to_local(a.up),
        a.to_local(a.lo) == -tdiv(a.inner(), 2),
        a.to_local(a.up) <= -tdiv(a.inner(), 2) + a.inner() + 1,
        fits(tdiv(p * a.inner(), a.range())),
{
    let i = a.inner();
    let r = a.range();
    assert(a.lo * i <= p * i <= a.up * i) by (nonlinear_arith)
        requires
            a.lo <= p <= a.up,
            i >= 1,
    ;
    lemma_tdiv_monotonic(a.lo * i, p * i, r);
    lemma_tdiv_monotonic(p * i, a.up * i, r);
    lemma_tdiv_bounds(a.lo * i, r);
    lemma_tdiv_bounds(a.up * i, r);
    let ql = tdiv(a.lo * i, r);
    let qu = tdiv(a.up * i, r);
    assert(a.up * i == a.lo * i + r * i) by (nonlinear_arith)
        requires
            r == a.up - a.lo,
    ;
    // qu * r < up * i + r and lo * i < ql * r + r
    assert(qu * r < ql * r + r + r * i + r);
    assert(qu < ql + i + 2) by (nonlinear_arith)
        requires
            qu * r < ql * r + r + r * i + r,
            r >= 1,
    ;
    lemma_tdiv_bounds(i, 2);
}

/// The bounds of a representable axis are shown over the inner region of
/// the canvas: from its lower edge, half the inner size below the centre,
/// to its upper edge, or one unit short of it.
pub proof fn lemma_bounds_span_inner(a: Axis)
    requires
        a.valid(),
        a.representable(),
    ensures
        a.to_local(a.lo) == -tdiv(a.inner(), 2),
        a.inner() - 1 <= a.to_local(a.up) - a.to_local(a.lo) <= a.inner(),
{
    let i = a.inner();
    let r = a.range();
    lemma_local_within(a, a.lo);
    lemma_local_within(a, a.up);
    lemma_tdiv_bounds(a.lo * i, r);
    lemma_tdiv_bounds(a.up * i, r);
    let ql = tdiv(a.lo * i, r);
    let qu = tdiv(a.up * i, r);
    assert(a.up * i == a.lo * i + r * i) by (nonlinear_arith)
        requires
            r == a.up - a.lo,
    ;
    assert((a.lo >= 0 ==> a.lo * i >= 0) && (a.lo <= 0 ==> a.lo * i <= 0) && (a.up >= 0 ==> a.up
        * i >= 0) && (a.up <= 0 ==> a.up * i <= 0)) by (nonlinear_arith)
        requires
            i >= 1,
    ;
    assert(ql * r + r * i - r < qu * r + r);
    assert(qu > ql + i - 2) by (nonlinear_arith)
        requires
            ql * r + r * i - r < qu * r + r,
            r >= 1,
    ;
    assert(qu * r < ql * r + r * i + r);
    assert(qu < ql + i + 1) by (nonlinear_arith)
        requires
            qu * r < ql * r + r * i + r,
            r >= 1,
    ;
}

/// Round trip along one axis: a plot coordinate within the bounds, taken to
/// the screen and back, comes back between zero and itself, short by less
/// than the plot-space length of one screen unit plus one unit.  Where a
/// screen unit is no longer than 99 999 plot units, that is within 0.0001.
pub proof fn lemma_axis_round_trip(a: Axis, p: int)
    requires
        a.valid(),
        a.representable(),
        a.lo <= p <= a.up,
        fits(a.to_local(p) + a.position),
    ensures
        p >= 0 ==> 0 <= a.to_plot(a.to_local(p) + a.position) <= p,
        p <= 0 ==> p <= a.to_plot(a.to_local(p) + a.position) <= 0,
        a.inner() * spec_abs(a.to_plot(a.to_local(p) + a.position) - p) < a.range() + a.inner(),
        a.range() <= 99_999 * a.inner() ==> spec_abs(
            a.to_plot(a.to_local(p) + a.position) - p,
        ) < 100_000,
{
    let i = a.inner();
    let r = a.range();
    lemma_local_within(a, p);
    let q = tdiv(p * i, r);
    assert(a.to_local(p) + a.position - a.zero() - a.position == q);
    let back = tdiv(q * r, i);
    lemma_tdiv_bounds(p * i, r);
    lemma_tdiv_bounds(q * r, i);
    if p >= 0 {
        assert(p * i >= 0) by (nonlinear_arith)
            requires
                p >= 0,
                i >= 1,
        ;
        assert(q * r >= 0) by (nonlinear_arith)
            requires
                q >= 0,
                r >= 1,
        ;
        assert(back <= p && i * (p - back) == p * i - back * i) by (nonlinear_arith)
            requires
                back * i <= p * i,
                i >= 1,
        ;
    } else {
        assert(p * i <= 0) by (nonlinear_arith)
            requires
                p <= 0,
                i >= 1,
        ;
        assert(q * r <= 0) by (nonlinear_arith)
            requires
                q <= 0,
                r >= 1,
        ;
        assert(back >= p && i * (back - p) == back * i - p * i) by (nonlinear_arith)
            requires
                back * i >= p * i,
                i >= 1,
        ;
    }
    assert(a.to_plot(a.to_local(p) + a.position) == back);
    let e = spec_abs(back - p);
    assert(i * e < r + i);
    if r <= 99_999 * i {
        assert(e < 100_000) by (nonlinear_arith)
            requires
                i * e < r + i,
                r <= 99_999 * i,
                i >= 1,
        ;
    }
}

/// Round trip: a point within the bounds, taken to its screen position on
/// the canvas and back, comes back within 0.0001 of itself on each axis
/// along which a screen unit is no longer than 99 999 plot units.
pub proof fn lemma_round_trip(plot: Plot, p: Point, w: Point)
    requires
        plot.wf(),
        plot.axis_x().representable(),
        plot.axis_y().representable(),
        plot.bounds.lower.x <= p.x <= plot.bounds.upper.x,
        plot.bounds.lower.y <= p.y <= plot.bounds.upper.y,
        w.x == plot.spec_to_local(p).x + plot.canvas_position.x,
        w.y == plot.spec_to_local(p).y + plot.canvas_position.y,
    ensures
        plot.axis_x().range() <= 99_999 * plot.axis_x().inner() ==> spec_abs(
            plot.spec_world_to_plot(w).x - p.x,
        ) < 100_000,
        plot.axis_y().range() <= 99_999 * plot.axis_y().inner() ==> spec_abs(
            plot.spec_world_to_plot(w).y - p.y,
        ) < 100_000,
        plot.axis_x().inner() * spec_abs(plot.spec_world_to_plot(w).x - p.x)
            < plot.axis_x().range() + plot.axis_x().inner(),
        plot.axis_y().inner() * spec_abs(plot.spec_world_to_plot(w).y - p.y)
            < plot.axis_y().range() + plot.axis_y().inner(),
{
    lemma_axis_round_trip(plot.axis_x(), p.x as int);
    lemma_axis_round_trip(plot.axis_y(), p.y as int);
}

/// Round trip on a canvas at the origin of the screen: converting a point
/// within the bounds to the screen and back gives the point again, within
/// 0.0001 on each axis along which a screen unit is no longer than 99 999
/// plot units.
pub proof fn lemma_round_trip_centered(plot: Plot, p: Point)
    requires
        plot.wf(),
        plot.axis_x().representable(),
        plot.axis_y().representable(),
        plot.canvas_position == (Point { x: 0, y: 0 }),
        plot.bounds.lower.x <= p.x <= plot.bounds.upper.x,
        plot.bounds.lower.y <= p.y <= plot.bounds.upper.y,
    ensures
        plot.axis_x().range() <= 99_999 * plot.axis_x().inner() ==> spec_abs(
            plot.spec_world_to_plot(plot.spec_to_local(p)).x - p.x,
        ) < 100_000,
        plot.axis_y().range() <= 99_999 * plot.axis_y().inner() ==> spec_abs(
            plot.spec_world_to_plot(plot.spec_to_local(p)).y - p.y,
        ) < 100_000,
{
    lemma_round_trip(plot, p, plot.spec_to_local(p));
}

/// Round trip from the screen along one axis: a screen position, taken to
/// plot space and back, comes back between the origin and itself, short by
/// less than the screen length of one plot unit plus one unit.
pub proof fn lemma_axis_screen_round_trip(a: Axis, w: int)
    requires
        a.valid(),
        fits(a.zero_exact()),
        fits(w),
        fits(w - a.position),
        fits(w - a.zero() - a.position),
        fits(tdiv((w - a.zero() - a.position) * a.range(), a.inner())),
    ensures
        a.range() * spec_abs(a.to_local(a.to_plot(w)) + a.position - w) < a.inner() + a.range(),
        w - a.position >= a.zero() ==> a.zero() <= a.to_local(a.to_plot(w)) <= w - a.position,
        w - a.position <= a.zero() ==> w - a.position <= a.to_local(a.to_plot(w)) <= a.zero(),
{
    let i = a.inner();
    let r = a.range();
    let d = w - a.zero() - a.position;
    let p = tdiv(d * r, i);
    assert(a.to_plot(w) == p);
    let back = tdiv(p * i, r);
    lemma_tdiv_bounds(d * r, i);
    lemma_tdiv_bounds(p * i, r);
    if d >= 0 {
        assert(d * r >= 0) by (nonlinear_arith)
            requires
                d >= 0,
                r >= 1,
        ;
        assert(p * i >= 0) by (nonlinear_arith)
            requires
                p >= 0,
                i >= 1,
        ;
        assert(back <= d && r * (d - back) == d * r - back * r) by (nonlinear_arith)
            requires
                back * r <= d * r,
                r >= 1,
        ;
    } else {
        assert(d * r <= 0) by (nonlinear_arith)
            requires
                d <= 0,
                r >= 1,
        ;
        assert(p * i <= 0) by (nonlinear_arith)
            requires
                p <= 0,
                i >= 1,
        ;
        assert(back >= d && r * (back - d) == back * r - d * r) by (nonlinear_arith)
            requires
                back * r >= d * r,
                r >= 1,
        ;
    }
    assert(a.to_local(p) == a.zero() + back);
}

/// Round trip from the screen: a screen position whose plot-space point is
/// a coordinate, taken to plot space and back to the screen, comes back
/// within the screen length of one plot unit plus one unit on each axis.
pub proof fn lemma_screen_round_trip(plot: Plot, w: Point)
    requires
        plot.wf(),
        fits(plot.axis_x().zero_exact()),
        fits(plot.axis_y().zero_exact()),
        fits(w.x - plot.canvas_position.x),
        fits(w.y - plot.canvas_position.y),
        fits(w.x - plot.zero_world.x - plot.canvas_position.x),
        fits(w.y - plot.zero_world.y - plot.canvas_position.y),
        fits(
            tdiv(
                (w.x - plot.zero_world.x - plot.canvas_position.x) * plot.axis_x().range(),
                plot.axis_x().inner(),
            ),
        ),
        fits(
            tdiv(
                (w.y - plot.zero_world.y - plot.canvas_position.y) * plot.axis_y().range(),
                plot.axis_y().inner(),
            ),
        ),
    ensures
        plot.axis_x().range() * spec_abs(
            plot.spec_to_local(plot.spec_world_to_plot(w)).x + plot.canvas_position.x - w.x,
        ) < plot.axis_x().inner() + plot.axis_x().range(),
        plot.axis_y().range() * spec_abs(
            plot.spec_to_local(plot.spec_world_to_plot(w)).y + plot.canvas_position.y - w.y,
        ) < plot.axis_y().inner() + plot.axis_y().range(),
{
    lemma_axis_screen_round_trip(plot.axis_x(), w.x as int);
    lemma_axis_screen_round_trip(plot.axis_y(), w.y as int);
}

/// The plot-space origin is shown at the cached origin.
pub proof fn lemma_origin_at_zero_world(plot: Plot)
    requires
        plot.wf(),
    ensures
        plot.spec_to_local(Point { x: 0, y: 0 }) == plot.zero_world,
{
    assert(0int * plot.axis_x().inner() == 0) by (nonlinear_arith);
    assert(0int * plot.axis_y().inner() == 0) by (nonlinear_arith);
    assert(0int / plot.axis_x().range() == 0) by (nonlinear_arith)
        requires
            plot.axis_x().range() > 0,
    ;
    assert(0int / plot.axis_y().range() == 0) by (nonlinear_arith)
        requires
            plot.axis_y().range() > 0,
    ;
}

/// Bounds that are symmetric about zero put the origin at the centre of the
/// canvas.
pub proof fn lemma_symmetric_bounds_centre(a: Axis)
    requires
        a.valid(),
        a.lo == -a.up,
    ensures
        a.zero() == 0,
{
    let i = a.inner();
    let r = a.range();
    assert(r == 2 * a.up);
    assert(a.lo * i == -(a.up * i)) by (nonlinear_arith)
        requires
            a.lo == -a.up,
    ;
    lemma_tdiv_neg(a.up * i, r);
    // up * i / (2 * up) is i / 2
    lemma_tdiv_bounds(a.up * i, r);
    lemma_tdiv_bounds(i, 2);
    let q = tdiv(a.up * i, r);
    let h = tdiv(i, 2);
    assert(q * r == (2 * q) * a.up) by (nonlinear_arith)
        requires
            r == 2 * a.up,
    ;
    assert(a.up * i >= 0) by (nonlinear_arith)
        requires
            a.up >= 1,
            i >= 1,
    ;
    assert(q == h) by (nonlinear_arith)
        requires
            (2 * q) * a.up <= a.up * i < (2 * q) * a.up + 2 * a.up,
            h * 2 <= i < h * 2 + 2,
            a.up >= 1,
    ;
}

/// After the bounds were set, the tick period on each axis is 1, 2 or 5
/// times a power of ten, and from a range of ten units on, more than 7 and
/// fewer than 20 periods fit into the range.
pub proof fn lemma_set_bounds_ticks(plot: Plot, lower: Point, upper: Point)
    requires
        plot.wf(),
        lower.x < upper.x,
        lower.y < upper.y,
    ensures
        is_nice(plot.spec_set_bounds(lower, upper).tick_period.x as int),
        is_nice(plot.spec_set_bounds(lower, upper).tick_period.y as int),
        upper.x - lower.x >= 10 ==> 7 * plot.spec_set_bounds(lower, upper).tick_period.x < upper.x
            - lower.x < 20 * plot.spec_set_bounds(lower, upper).tick_period.x,
        upper.y - lower.y >= 10 ==> 7 * plot.spec_set_bounds(lower, upper).tick_period.y < upper.y
            - lower.y < 20 * plot.spec_set_bounds(lower, upper).tick_period.y,
{
    lemma_nice_tick_fits(upper.x - lower.x);
    lemma_nice_tick_fits(upper.y - lower.y);
    lemma_nice_tick_is_nice(upper.x - lower.x);
    lemma_nice_tick_is_nice(upper.y - lower.y);
    if upper.x - lower.x >= 10 {
        lemma_nice_tick_count(upper.x - lower.x);
    }
    if upper.y - lower.y >= 10 {
        lemma_nice_tick_count(upper.y - lower.y);
    }
}

/// The tick period of a range between two coordinates is a coordinate.
pub proof fn lemma_nice_tick_fits(r: int)
    requires
        0 < r <= u64::MAX,
    ensures
        1 <= spec_nice_tick(r) <= i64::MAX,
{
    crate::ticks::lemma_tick_magnitude(r);
}

/// A drag and the opposite drag: after a drag that moved the bounds, the
/// opposite drag moves them too, and back to where they were.
pub proof fn lemma_pan_inverse(plot: Plot, delta: Point, opposite: Point)
    requires
        plot.wf(),
        opposite.x == -delta.x,
        opposite.y == -delta.y,
        plot.can_pan(delta),
    ensures
        plot.spec_move_axes(delta).wf(),
        plot.spec_move_axes(delta).can_pan(opposite),
        plot.spec_move_axes(delta).spec_move_axes(opposite).bounds == plot.bounds,
{
    let moved = plot.spec_move_axes(delta);
    let ax = plot.axis_x();
    let ay = plot.axis_y();
    assert(moved.axis_x().range() == ax.range());
    assert(moved.axis_y().range() == ay.range());
    assert(moved.axis_x().inner() == ax.inner());
    assert(moved.axis_y().inner() == ay.inner());
    assert(opposite.x * ax.range() == -(delta.x * ax.range())) by (nonlinear_arith)
        requires
            opposite.x == -delta.x,
    ;
    assert(opposite.y * ay.range() == -(delta.y * ay.range())) by (nonlinear_arith)
        requires
            opposite.y == -delta.y,
    ;
    lemma_tdiv_neg(delta.x * ax.range(), ax.inner());
    lemma_tdiv_neg(delta.y * ay.range(), ay.inner());
    assert(moved.pan_x(opposite) == -plot.pan_x(delta));
    assert(moved.pan_y(opposite) == -plot.pan_y(delta));
}

/// The arithmetic of a zoom about a pivot.  `d` and `d2` are the screen
/// distances of the pivot from the lower bound before and after, `e` and
/// `e2` what their truncation lost, `c` what the truncation of the new
/// bounds lost.
proof fn lemma_zoom_arithmetic(
    i: int,
    r: int,
    r2: int,
    a: int,
    b: int,
    a2: int,
    b2: int,
    d: int,
    d2: int,
    e: int,
    e2: int,
    c: int,
)
    requires
        i >= 1,
        r >= 1,
        r2 >= 1,
        a >= 0,
        b >= 0,
        a + b == r,
        a2 + b2 == r2,
        e == d * r - a * i,
        -2 * r < e < 2 * r,
        e2 == d2 * r2 - a2 * i,
        -2 * r2 < e2 < 2 * r2,
        c == b * a2 - b2 * a,
        -b <= c <= a,
    ensures
        r2 * spec_abs(d2 - d) < i + 4 * r2,
{
    let x = d2 - d;
    // r * a2 - r2 * a is c
    assert(r * a2 - r2 * a == c) by (nonlinear_arith)
        requires
            a + b == r,
            a2 + b2 == r2,
            c == b * a2 - b2 * a,
    ;
    // r * r2 * x, written out
    assert(r * (d2 * r2) == r * (a2 * i) + r * e2) by (nonlinear_arith)
        requires
            e2 == d2 * r2 - a2 * i,
    ;
    assert(r2 * (d * r) == r2 * (a * i) + r2 * e) by (nonlinear_arith)
        requires
            e == d * r - a * i,
    ;
    assert(r * (a2 * i) - r2 * (a * i) == i * c) by (nonlinear_arith)
        requires
            r * a2 - r2 * a == c,
    ;
    assert(r * (r2 * x) == r * (d2 * r2) - r2 * (d * r)) by (nonlinear_arith)
        requires
            x == d2 - d,
    ;
    assert(r * (r2 * x) == i * c + r * e2 - r2 * e);
    assert(-(i * r) <= i * c <= i * r) by (nonlinear_arith)
        requires
            -b <= c <= a,
            a >= 0,
            b >= 0,
            a + b == r,
            i >= 1,
    ;
    assert(-(2 * (r * r2)) < r * e2 < 2 * (r * r2)) by (nonlinear_arith)
        requires
            -2 * r2 < e2 < 2 * r2,
            r >= 1,
    ;
    assert(-(2 * (r * r2)) < r2 * e < 2 * (r * r2)) by (nonlinear_arith)
        requires
            -2 * r < e < 2 * r,
            r2 >= 1,
    ;
    assert(r * (i + 4 * r2) == i * r + 4 * (r * r2)) by (nonlinear_arith);
    let y = r2 * x;
    let bound = i + 4 * r2;
    assert(-(r * bound) < r * y < r * bound);
    assert(-bound < y < bound) by (nonlinear_arith)
        requires
            -(r * bound) < r * y < r * bound,
            r >= 1,
    ;
    assert(r2 * spec_abs(x) == spec_abs(y)) by (nonlinear_arith)
        requires
            y == r2 * x,
            r2 >= 1,
    ;
}

/// What the two truncations of a screen distance lose: the difference of
/// the screen positions of `p` and `lo` is within two units of the scaled
/// difference.
proof fn lemma_distance_error(p: int, lo: int, i: int, r: int)
    requires
        i >= 1,
        r >= 1,
    ensures
        -2 * r < (tdiv(p * i, r) - tdiv(lo * i, r)) * r - (p - lo) * i < 2 * r,
{
    lemma_tdiv_bounds(p * i, r);
    lemma_tdiv_bounds(lo * i, r);
    let tp = tdiv(p * i, r);
    let tl = tdiv(lo * i, r);
    assert((tp - tl) * r == tp * r - tl * r) by (nonlinear_arith);
    assert((p - lo) * i == p * i - lo * i) by (nonlinear_arith);
}

/// Zoom about a pivot along one axis: the pivot keeps its screen position
/// to within four screen units and the screen length of one plot unit
/// after the zoom.
pub proof fn lemma_axis_zoom_pivot(a: Axis, m: int, p: int)
    requires
        a.valid(),
        a.representable(),
        a.lo <= p <= a.up,
        a.zoomed(m, p).ordered(),
        a.zoomed(m, p).representable(),
    ensures
        a.zoomed(m, p).range() * spec_abs(a.zoomed(m, p).to_local(p) - a.to_local(p)) < a.inner()
            + 4 * a.zoomed(m, p).range(),
{
    let z = a.zoomed(m, p);
    let one = crate::fixed::ONE as int;
    let i = a.inner();
    let r = a.range();
    let r2 = z.range();
    let da = p - a.lo;
    let db = a.up - p;
    let da2 = tdiv(da * m, one);
    let db2 = tdiv(db * m, one);
    assert(z.lo == p - da2 && z.up == p + db2);
    assert(r2 == da2 + db2);
    lemma_tdiv_bounds(da * m, one);
    lemma_tdiv_bounds(db * m, one);
    // the multiplier is positive, or the new bounds would not be ordered
    if m <= 0 {
        assert(da * m <= 0 && db * m <= 0) by (nonlinear_arith)
            requires
                da >= 0,
                db >= 0,
                m <= 0,
        ;
        assert(false);
    }
    assert(da * m >= 0 && db * m >= 0) by (nonlinear_arith)
        requires
            da >= 0,
            db >= 0,
            m > 0,
    ;
    assert(z.lo <= p <= z.up);
    lemma_local_within(a, p);
    lemma_local_within(z, p);
    let d = tdiv(p * i, r) - tdiv(a.lo * i, r);
    let d2 = tdiv(p * i, r2) - tdiv(z.lo * i, r2);
    assert(z.inner() == i);
    assert(a.to_local(p) == -tdiv(i, 2) + d);
    assert(z.to_local(p) == -tdiv(i, 2) + d2);
    lemma_distance_error(p, a.lo, i, r);
    lemma_distance_error(p, z.lo, i, r2);
    let e = d * r - da * i;
    let e2 = d2 * r2 - da2 * i;
    let c = db * da2 - db2 * da;
    // one * c lies between -one * db and one * da
    assert(one * c == db * (da2 * one) - da * (db2 * one)) by (nonlinear_arith)
        requires
            c == db * da2 - db2 * da,
    ;
    assert(db * (da2 * one) <= db * (da * m)) by (nonlinear_arith)
        requires
            da2 * one <= da * m,
            db >= 0,
    ;
    assert(db * (da2 * one) >= db * (da * m) - db * one) by (nonlinear_arith)
        requires
            da2 * one + one >= da * m,
            db >= 0,
    ;
    assert(da * (db2 * one) <= da * (db * m)) by (nonlinear_arith)
        requires
            db2 * one <= db * m,
            da >= 0,
    ;
    assert(da * (db2 * one) >= da * (db * m) - da * one) by (nonlinear_arith)
        requires
            db2 * one + one >= db * m,
            da >= 0,
    ;
    assert(db * (da * m) == da * (db * m)) by (nonlinear_arith);
    assert(-(db * one) <= one * c <= da * one);
    assert(-db <= c <= da) by (nonlinear_arith)
        requires
            -(db * one) <= one * c <= da * one,
            one == 1_000_000_000,
    ;
    lemma_zoom_arithmetic(i, r, r2, da, db, da2, db2, d, d2, e, e2, c);
}

/// Zoom about a pivot within the bounds: where nothing is saturated, the
/// pivot keeps its screen position on each axis to within four screen
/// units and the screen length of one plot unit after the zoom.
pub proof fn lemma_zoom_keeps_pivot(plot: Plot, direction: i64, pivot: Point)
    requires
        plot.wf(),
        plot.can_zoom(direction, pivot),
        plot.bounds.lower.x <= pivot.x <= plot.bounds.upper.x,
        plot.bounds.lower.y <= pivot.y <= plot.bounds.upper.y,
        plot.axis_x().representable(),
        plot.axis_y().representable(),
        plot.spec_zoom_axes(direction, pivot).axis_x().representable(),
        plot.spec_zoom_axes(direction, pivot).axis_y().representable(),
    ensures
        plot.spec_zoom_axes(direction, pivot).wf(),
        plot.spec_zoom_axes(direction, pivot).axis_x().range() * spec_abs(
            plot.spec_zoom_axes(direction, pivot).spec_to_local(pivot).x - plot.spec_to_local(
                pivot,
            ).x,
        ) < plot.axis_x().inner() + 4 * plot.spec_zoom_axes(direction, pivot).axis_x().range(),
        plot.spec_zoom_axes(direction, pivot).axis_y().range() * spec_abs(
            plot.spec_zoom_axes(direction, pivot).spec_to_local(pivot).y - plot.spec_to_local(
                pivot,
            ).y,
        ) < plot.axis_y().inner() + 4 * plot.spec_zoom_axes(direction, pivot).axis_y().range(),
{
    let m = crate::plot::spec_multiplier(direction as int);
    let after = plot.spec_zoom_axes(direction, pivot);
    assert(after.axis_x() == plot.axis_x().zoomed(m, pivot.x as int));
    assert(after.axis_y() == plot.axis_y().zoomed(m, pivot.y as int));
    lemma_axis_zoom_pivot(plot.axis_x(), m, pivot.x as int);
    lemma_axis_zoom_pivot(plot.axis_y(), m, pivot.y as int);
}

/// The central difference of a function that rises by `m` for each unit, as
/// `f(x) = m x + b` does for a whole number `m`, is exactly `m`, whatever
/// the step and the abscissa.
pub proof fn lemma_linear_slope(ahead: int, behind: int, step: int, m: int)
    requires
        step >= 1,
        ahead - behind == 2 * m * step,
        fits(m * crate::fixed::ONE),
    ensures
        crate::bezier::spec_slope(ahead, behind, step) == m * crate::fixed::ONE,
{
    let one = crate::fixed::ONE as int;
    assert((ahead - behind) * one == (m * one) * (2 * step)) by (nonlinear_arith)
        requires
            ahead - behind == 2 * m * step,
    ;
    lemma_tdiv_multiple(m * one, 2 * step);
}

/// A bound on a difference of two products whose first factors are small:
/// `|a * y - b * x| < d * (|a| + |b|)` for `|x| < d` and `|y| < d`, unless
/// `a` and `b` are both zero.
proof fn lemma_small_cross(a: int, b: int, x: int, y: int, d: int)
    requires
        d > 0,
        -d < x < d,
        -d < y < d,
        a != 0 || b != 0,
    ensures
        spec_abs(a * y - b * x) < d * (spec_abs(a) + spec_abs(b)),
{
    let ma = spec_abs(a);
    let mb = spec_abs(b);
    assert(spec_abs(a * y) <= ma * (d - 1)) by (nonlinear_arith)
        requires
            -d < y < d,
            ma == spec_abs(a),
    ;
    assert(spec_abs(b * x) <= mb * (d - 1)) by (nonlinear_arith)
        requires
            -d < x < d,
            mb == spec_abs(b),
    ;
    assert(ma * (d - 1) + mb * (d - 1) < d * (ma + mb)) by (nonlinear_arith)
        requires
            ma >= 0,
            mb >= 0,
            ma + mb >= 1,
            d > 0,
    ;
}

/// Cramer's rule solves both equations: with the determinant
/// `a1 * b2 - a2 * b1` and the numerators `b2 * c1 - b1 * c2` and
/// `a1 * c2 - a2 * c1`, each equation holds of the numerators once its
/// right-hand side is multiplied by the determinant.
proof fn lemma_cramer_identity(a1: int, b1: int, c1: int, a2: int, b2: int, c2: int)
    ensures
        a1 * (b2 * c1 - b1 * c2) + b1 * (a1 * c2 - a2 * c1) == c1 * (a1 * b2 - a2 * b1),
        a2 * (b2 * c1 - b1 * c2) + b2 * (a1 * c2 - a2 * c1) == c2 * (a1 * b2 - a2 * b1),
{
    let b2c1 = b2 * c1;
    let b1c2 = b1 * c2;
    let a1c2 = a1 * c2;
    let a2c1 = a2 * c1;
    let a1b2 = a1 * b2;
    let a2b1 = a2 * b1;
    assert(a1 * (b2c1 - b1c2) == a1 * b2c1 - a1 * b1c2) by (nonlinear_arith);
    assert(b1 * (a1c2 - a2c1) == b1 * a1c2 - b1 * a2c1) by (nonlinear_arith);
    assert(a2 * (b2c1 - b1c2) == a2 * b2c1 - a2 * b1c2) by (nonlinear_arith);
    assert(b2 * (a1c2 - a2c1) == b2 * a1c2 - b2 * a2c1) by (nonlinear_arith);
    assert(c1 * (a1b2 - a2b1) == c1 * a1b2 - c1 * a2b1) by (nonlinear_arith);
    assert(c2 * (a1b2 - a2b1) == c2 * a1b2 - c2 * a2b1) by (nonlinear_arith);
    assert(a1 * b2c1 == c1 * a1b2) by (nonlinear_arith)
        requires
            b2c1 == b2 * c1,
            a1b2 == a1 * b2,
    ;
    assert(a1 * b1c2 == b1 * a1c2) by (nonlinear_arith)
        requires
            b1c2 == b1 * c2,
            a1c2 == a1 * c2,
    ;
    assert(b1 * a2c1 == c1 * a2b1) by (nonlinear_arith)
        requires
            a2c1 == a2 * c1,
            a2b1 == a2 * b1,
    ;
    assert(a2 * b2c1 == b2 * a2c1) by (nonlinear_arith)
        requires
            b2c1 == b2 * c1,
            a2c1 == a2 * c1,
    ;
    assert(a2 * b1c2 == c2 * a2b1) by (nonlinear_arith)
        requires
            b1c2 == b1 * c2,
            a2b1 == a2 * b1,
    ;
    assert(b2 * a1c2 == c2 * a1b2) by (nonlinear_arith)
        requires
            a1c2 == a1 * c2,
            a1b2 == a1 * b2,
    ;
}

/// How far the truncated solution of one equation `a * x + b * y == c` is
/// from solving it: with `x` and `y` the truncated quotients of `nx` and
/// `ny` by `d`, and `a * nx + b * ny == c * d`, by less than
/// `|a| + |b|`.
proof fn lemma_truncated_solution(a: int, b: int, c: int, nx: int, ny: int, d: int)
    requires
        d > 0,
        a != 0 || b != 0,
        a * nx + b * ny == c * d,
    ensures
        spec_abs(a * tdiv(nx, d) + b * tdiv(ny, d) - c) < spec_abs(a) + spec_abs(b),
{
    let x = tdiv(nx, d);
    let y = tdiv(ny, d);
    lemma_tdiv_bounds(nx, d);
    lemma_tdiv_bounds(ny, d);
    let xd = x * d;
    let yd = y * d;
    let rx = nx - xd;
    let ry = ny - yd;
    assert(-d < rx < d && -d < ry < d);
    let m = -b;
    lemma_small_cross(a, m, ry, rx, d);
    assert(m * ry == -(b * ry)) by (nonlinear_arith)
        requires
            m == -b,
    ;
    assert(spec_abs(a * rx + b * ry) < d * (spec_abs(a) + spec_abs(b)));
    // d * (a * x + b * y - c) is -(a * rx + b * ry)
    let ax = a * x;
    let by = b * y;
    assert(d * ax == a * xd) by (nonlinear_arith)
        requires
            ax == a * x,
            xd == x * d,
    ;
    assert(d * by == b * yd) by (nonlinear_arith)
        requires
            by == b * y,
            yd == y * d,
    ;
    assert(a * xd == a * nx - a * rx) by (nonlinear_arith)
        requires
            xd == nx - rx,
    ;
    assert(b * yd == b * ny - b * ry) by (nonlinear_arith)
        requires
            yd == ny - ry,
    ;
    let e = ax + by - c;
    assert(d * e == d * ax + d * by - d * c) by (nonlinear_arith)
        requires
            e == ax + by - c,
    ;
    assert(d * c == c * d) by (nonlinear_arith);
    assert(d * e == -(a * rx + b * ry));
    assert(spec_abs(e) < spec_abs(a) + spec_abs(b)) by (nonlinear_arith)
        requires
            spec_abs(d * e) < d * (spec_abs(a) + spec_abs(b)),
            d > 0,
    ;
}

/// The order of two lines does not matter to the point where they meet.
pub proof fn lemma_intersect_is_symmetric(s: Line, o: Line)
    ensures
        s.spec_intersect(o) == o.spec_intersect(s),
        o.spec_determinant(s) == -s.spec_determinant(o),
{
    assert(o.spec_determinant(s) == -s.spec_determinant(o));
    assert(o.spec_numerator_x(s) == -s.spec_numerator_x(o));
    assert(o.spec_numerator_y(s) == -s.spec_numerator_y(o));
}

/// The point where two lines meet lies on both of them to within a unit:
/// it solves the equation `a * x + b * y == c` of each line to within the
/// sum of the magnitudes of `a` and `b`, which are the coordinates of the
/// heading of the line.
pub proof fn lemma_intersection_on_both_lines(s: Line, o: Line)
    requires
        s.spec_determinant(o) != 0,
        fits(tdiv_signed(s.spec_numerator_x(o), s.spec_determinant(o))),
        fits(tdiv_signed(s.spec_numerator_y(o), s.spec_determinant(o))),
    ensures
        s.spec_intersect(o) is Some,
        spec_abs(
            s.spec_a() * s.spec_intersect(o)->Some_0.x + s.spec_b() * s.spec_intersect(
                o,
            )->Some_0.y - s.spec_c(),
        ) < spec_abs(s.spec_a()) + spec_abs(s.spec_b()),
        spec_abs(
            o.spec_a() * s.spec_intersect(o)->Some_0.x + o.spec_b() * s.spec_intersect(
                o,
            )->Some_0.y - o.spec_c(),
        ) < spec_abs(o.spec_a()) + spec_abs(o.spec_b()),
{
    let a1 = s.spec_a();
    let b1 = s.spec_b();
    let c1 = s.spec_c();
    let a2 = o.spec_a();
    let b2 = o.spec_b();
    let c2 = o.spec_c();
    let det = s.spec_determinant(o);
    let nx = s.spec_numerator_x(o);
    let ny = s.spec_numerator_y(o);
    assert(det == a1 * b2 - a2 * b1);
    assert(nx == b2 * c1 - b1 * c2);
    assert(ny == a1 * c2 - a2 * c1);
    lemma_cramer_identity(a1, b1, c1, a2, b2, c2);
    // a line that joins a point to itself has no determinant
    if a1 == 0 && b1 == 0 {
        assert(a1 * b2 - a2 * b1 == 0) by (nonlinear_arith)
            requires
                a1 == 0,
                b1 == 0,
        ;
    }
    if a2 == 0 && b2 == 0 {
        assert(a1 * b2 - a2 * b1 == 0) by (nonlinear_arith)
            requires
                a2 == 0,
                b2 == 0,
        ;
    }
    let x = s.spec_intersect(o)->Some_0;
    if det > 0 {
        assert(x.x == tdiv(nx, det) && x.y == tdiv(ny, det));
        lemma_truncated_solution(a1, b1, c1, nx, ny, det);
        lemma_truncated_solution(a2, b2, c2, nx, ny, det);
    } else {
        let d = -det;
        let mx = -nx;
        let my = -ny;
        assert(x.x == tdiv(mx, d) && x.y == tdiv(my, d));
        assert(a1 * mx == -(a1 * nx) && b1 * my == -(b1 * ny) && a2 * mx == -(a2 * nx) && b2 * my
            == -(b2 * ny)) by (nonlinear_arith)
            requires
                mx == -nx,
                my == -ny,
        ;
        assert(c1 * d == -(c1 * det) && c2 * d == -(c2 * det)) by (nonlinear_arith)
            requires
                d == -det,
        ;
        lemma_truncated_solution(a1, b1, c1, mx, my, d);
        lemma_truncated_solution(a2, b2, c2, mx, my, d);
    }
}

/// A rescaled vector has the precision as its larger magnitude, unless it
/// is zero: the coordinate of the larger magnitude becomes the precision,
/// the other one stays within it.
pub proof fn lemma_rescale_norm(x: int, y: int, precision: int)
    requires
        precision >= 0,
        x != 0 || y != 0,
    ensures
        spec_max_norm(
            spec_rescale(x, spec_max_norm(x, y), precision),
            spec_rescale(y, spec_max_norm(x, y), precision),
        ) == precision,
{
    let n = spec_max_norm(x, y);
    assert(n * precision == precision * n) by (nonlinear_arith);
    assert((-n) * precision == (-precision) * n && (-n) * precision == -(n * precision))
        by (nonlinear_arith);
    lemma_tdiv_multiple(precision, n);
    lemma_tdiv_multiple(-precision, n);
    assert(-(n * precision) <= x * precision <= n * precision) by (nonlinear_arith)
        requires
            -n <= x <= n,
            precision >= 0,
    ;
    assert(-(n * precision) <= y * precision <= n * precision) by (nonlinear_arith)
        requires
            -n <= y <= n,
            precision >= 0,
    ;
    lemma_tdiv_monotonic(x * precision, n * precision, n);
    lemma_tdiv_monotonic((-n) * precision, x * precision, n);
    lemma_tdiv_monotonic(y * precision, n * precision, n);
    lemma_tdiv_monotonic((-n) * precision, y * precision, n);
}

/// Squares keep the order of magnitudes.
proof fn lemma_square_order(x: int, y: int)
    requires
        0 <= x <= y,
    ensures
        x * x <= y * y,
{
    assert(x * x <= y * y) by (nonlinear_arith)
        requires
            0 <= x <= y,
    ;
}

/// The unit vector along a line has the length of one to within a few
/// units: its squared length lies between that of `1 - 0.000000003` and
/// that of `1 + 0.000000001`.
pub proof fn lemma_unit_has_length_one(l: Line)
    requires
        l.0 != l.1,
    ensures
        (LINE_PRECISION - 3) * (LINE_PRECISION - 3) < spec_dot(
            l.spec_unit().x as int,
            l.spec_unit().y as int,
            l.spec_unit().x as int,
            l.spec_unit().y as int,
        ) < (LINE_PRECISION + 1) * (LINE_PRECISION + 1),
{
    let p = LINE_PRECISION as int;
    let dx = l.1.x - l.0.x;
    let dy = l.1.y - l.0.y;
    lemma_rescale_norm(dx, dy, p);
    let a = l.spec_heading().x as int;
    let b = l.spec_heading().y as int;
    assert(spec_max_norm(a, b) == p);
    let ma = spec_abs(a);
    let mb = spec_abs(b);
    lemma_square_order(ma, p);
    lemma_square_order(mb, p);
    assert(ma * ma == a * a && mb * mb == b * b) by (nonlinear_arith)
        requires
            ma == spec_abs(a),
            mb == spec_abs(b),
    ;
    let n = a * a + b * b;
    assert(n == spec_dot(a, b, a, b));
    assert(p * p <= n <= 2 * (p * p)) by {
        if ma == p {
            assert(a * a == p * p);
            assert(b * b >= 0) by (nonlinear_arith);
        } else {
            assert(b * b == p * p);
            assert(a * a >= 0) by (nonlinear_arith);
        }
    }
    // the root of the squared length of the heading
    lemma_root_exists(n);
    let len = spec_isqrt(n);
    assert(len >= p) by {
        if len < p {
            lemma_square_order(len + 1, p);
        }
    }
    assert(len < 2 * p) by {
        if len >= 2 * p {
            lemma_square_order(2 * p, len);
            assert((2 * p) * (2 * p) == 4 * (p * p)) by (nonlinear_arith);
        }
    }
    let ux = tdiv(a * p, len);
    let uy = tdiv(b * p, len);
    assert(l.spec_unit().x == ux && l.spec_unit().y == uy) by {
        lemma_tdiv_magnitude(a * p, len);
        lemma_tdiv_magnitude(b * p, len);
        assert(-(p * p) <= a * p <= p * p && -(p * p) <= b * p <= p * p) by (nonlinear_arith)
            requires
                -p <= a <= p,
                -p <= b <= p,
                p == 1_000_000_000,
        ;
    }
    lemma_unit_arithmetic(a, b, p, len, ux, uy);
}

/// Every natural number has a whole root.
pub proof fn lemma_root_exists(n: int)
    requires
        n >= 0,
    ensures
        is_isqrt(n, spec_isqrt(n)),
    decreases n,
{
    if n == 0 {
        assert(is_isqrt(0, 0));
    } else {
        let m = n - 1;
        lemma_root_exists(m);
        let r = spec_isqrt(m);
        assert((r + 1) * (r + 1) == r * r + 2 * r + 1) by (nonlinear_arith);
        assert((r + 2) * (r + 2) == r * r + 4 * r + 4) by (nonlinear_arith);
        if n < (r + 1) * (r + 1) {
            assert(is_isqrt(n, r));
        } else {
            assert(is_isqrt(n, r + 1));
        }
    }
}

/// The arithmetic of bringing a heading `(a, b)` of the squared length
/// `a * a + b * b`, whose root is `len`, to the length `p`.
proof fn lemma_unit_arithmetic(a: int, b: int, p: int, len: int, ux: int, uy: int)
    requires
        p == 1_000_000_000,
        p <= len < 2 * p,
        -p <= a <= p,
        -p <= b <= p,
        len * len <= a * a + b * b < (len + 1) * (len + 1),
        ux == tdiv(a * p, len),
        uy == tdiv(b * p, len),
    ensures
        (p - 3) * (p - 3) < ux * ux + uy * uy < (p + 1) * (p + 1),
{
    let ma = spec_abs(a);
    let mb = spec_abs(b);
    let mx = spec_abs(ux);
    let my = spec_abs(uy);
    lemma_tdiv_bounds(a * p, len);
    lemma_tdiv_bounds(b * p, len);
    lemma_tdiv_neg(a * p, len);
    lemma_tdiv_neg(b * p, len);
    // the magnitudes: mx = floor(ma * p / len), my = floor(mb * p / len)
    assert(ma * p == spec_abs(a * p) && mb * p == spec_abs(b * p)) by (nonlinear_arith)
        requires
            ma == spec_abs(a),
            mb == spec_abs(b),
            p > 0,
    ;
    assert(mx * len <= ma * p < mx * len + len) by {
        if a >= 0 {
            assert(a * p >= 0) by (nonlinear_arith)
                requires
                    a >= 0,
                    p > 0,
            ;
        } else {
            assert(a * p <= 0) by (nonlinear_arith)
                requires
                    a <= 0,
                    p > 0,
            ;
            assert((-ux) * len == -(ux * len)) by (nonlinear_arith);
        }
    }
    assert(my * len <= mb * p < my * len + len) by {
        if b >= 0 {
            assert(b * p >= 0) by (nonlinear_arith)
                requires
                    b >= 0,
                    p > 0,
            ;
        } else {
            assert(b * p <= 0) by (nonlinear_arith)
                requires
                    b <= 0,
                    p > 0,
            ;
            assert((-uy) * len == -(uy * len)) by (nonlinear_arith);
        }
    }
    assert(mx * mx == ux * ux && my * my == uy * uy && ma * ma == a * a && mb * mb == b * b)
        by (nonlinear_arith)
        requires
            mx == spec_abs(ux),
            my == spec_abs(uy),
            ma == spec_abs(a),
            mb == spec_abs(b),
    ;
    let n = a * a + b * b;
    // from above: (mx * len)^2 + (my * len)^2 <= n * p^2 < (len + 1)^2 * p^2
    let xl = mx * len;
    let yl = my * len;
    let ap = ma * p;
    let bp = mb * p;
    lemma_square_order(xl, ap);
    lemma_square_order(yl, bp);
    assert(xl * xl == (mx * mx) * (len * len)) by (nonlinear_arith)
        requires
            xl == mx * len,
    ;
    assert(yl * yl == (my * my) * (len * len)) by (nonlinear_arith)
        requires
            yl == my * len,
    ;
    assert(ap * ap == (ma * ma) * (p * p)) by (nonlinear_arith)
        requires
            ap == ma * p,
    ;
    assert(bp * bp == (mb * mb) * (p * p)) by (nonlinear_arith)
        requires
            bp == mb * p,
    ;
    let s = mx * mx + my * my;
    let ll = len * len;
    let pp = p * p;
    assert(ll > 0 && pp > 0) by (nonlinear_arith)
        requires
            ll == len * len,
            pp == p * p,
            len > 0,
            p > 0,
    ;
    assert(s * ll == (mx * mx) * ll + (my * my) * ll) by (nonlinear_arith)
        requires
            s == mx * mx + my * my,
    ;
    assert(n * pp == (ma * ma) * pp + (mb * mb) * pp) by (nonlinear_arith)
        requires
            n == ma * ma + mb * mb,
    ;
    assert(s * ll <= n * pp);
    // the upper bound: s * len^2 < (len + 1)^2 * p^2 and len >= p
    let l1 = (len + 1) * (len + 1);
    assert(n * pp < l1 * pp) by (nonlinear_arith)
        requires
            n < l1,
            pp > 0,
    ;
    let top = (p + 1) * (p + 1);
    assert(l1 * pp <= top * ll) by {
        // (len + 1) * p <= (p + 1) * len, as p <= len
        let u = (len + 1) * p;
        let v = (p + 1) * len;
        assert(0 <= u <= v) by (nonlinear_arith)
            requires
                u == (len + 1) * p,
                v == (p + 1) * len,
                0 < p <= len,
        ;
        lemma_square_order(u, v);
        assert(u * u == l1 * pp) by (nonlinear_arith)
            requires
                u == (len + 1) * p,
                l1 == (len + 1) * (len + 1),
                pp == p * p,
        ;
        assert(v * v == top * ll) by (nonlinear_arith)
            requires
                v == (p + 1) * len,
                top == (p + 1) * (p + 1),
                ll == len * len,
        ;
    }
    assert(s < top) by (nonlinear_arith)
        requires
            s * ll < top * ll,
            ll > 0,
    ;
    // the lower bound: ((mx + 1) * len)^2 + ((my + 1) * len)^2 > n * p^2 >= len^2 * p^2
    let xh = (mx + 1) * len;
    let yh = (my + 1) * len;
    assert(xh == xl + len && yh == yl + len) by (nonlinear_arith)
        requires
            xh == (mx + 1) * len,
            yh == (my + 1) * len,
            xl == mx * len,
            yl == my * len,
    ;
    assert(ap * ap <= xh * xh && bp * bp <= yh * yh && (ap * ap < xh * xh || ap == 0)) by {
        lemma_square_order(ap, xh);
        lemma_square_order(bp, yh);
        if ap > 0 {
            assert(ap * ap < xh * xh) by (nonlinear_arith)
                requires
                    0 < ap < xh,
            ;
        }
    }
    let sh = (mx + 1) * (mx + 1) + (my + 1) * (my + 1);
    assert(xh * xh == ((mx + 1) * (mx + 1)) * ll) by (nonlinear_arith)
        requires
            xh == (mx + 1) * len,
            ll == len * len,
    ;
    assert(yh * yh == ((my + 1) * (my + 1)) * ll) by (nonlinear_arith)
        requires
            yh == (my + 1) * len,
            ll == len * len,
    ;
    assert(sh * ll == ((mx + 1) * (mx + 1)) * ll + ((my + 1) * (my + 1)) * ll)
        by (nonlinear_arith)
        requires
            sh == (mx + 1) * (mx + 1) + (my + 1) * (my + 1),
    ;
    assert(ll * pp <= n * pp) by (nonlinear_arith)
        requires
            ll <= n,
            pp > 0,
    ;
    assert(ll * pp <= sh * ll);
    assert(pp <= sh) by (nonlinear_arith)
        requires
            ll * pp <= sh * ll,
            ll > 0,
    ;
    // sh = s + 2 * (mx + my) + 2, and mx, my <= p
    assert(sh == s + 2 * (mx + my) + 2) by (nonlinear_arith)
        requires
            sh == (mx + 1) * (mx + 1) + (my + 1) * (my + 1),
            s == mx * mx + my * my,
    ;
    assert(mx <= p && my <= p) by {
        assert(ma * p <= len * p) by (nonlinear_arith)
            requires
                ma <= p,
                p <= len,
                p > 0,
        ;
        assert(mb * p <= len * p) by (nonlinear_arith)
            requires
                mb <= p,
                p <= len,
                p > 0,
        ;
        assert(mx <= p) by (nonlinear_arith)
            requires
                mx * len <= len * p,
                len > 0,
        ;
        assert(my <= p) by (nonlinear_arith)
            requires
                my * len <= len * p,
                len > 0,
        ;
    }
    assert((p - 3) * (p - 3) == pp - 6 * p + 9) by (nonlinear_arith)
        requires
            pp == p * p,
    ;
}

/// Within the bounds or beyond them, saturated or not, a plot coordinate
/// further up is not shown further down.
pub proof fn lemma_local_rises(a: Axis, p: int, q: int)
    requires
        a.valid(),
        p <= q,
    ensures
        a.to_local(p) <= a.to_local(q),
{
    let i = a.inner();
    assert(p * i <= q * i) by (nonlinear_arith)
        requires
            p <= q,
            i >= 1,
    ;
    lemma_tdiv_monotonic(p * i, q * i, a.range());
}

/// A vector turned a quarter is perpendicular to the vector and as long.
pub proof fn lemma_perpendicular(t: Point)
    requires
        t.x > i64::MIN,
    ensures
        spec_dot(
            t.x as int,
            t.y as int,
            spec_perpendicular(t).x as int,
            spec_perpendicular(t).y as int,
        ) == 0,
        spec_square(spec_perpendicular(t)) == spec_square(t),
{
    let x = t.x as int;
    let y = t.y as int;
    assert(x * y + y * (-x) == 0) by (nonlinear_arith);
    assert(y * y + (-x) * (-x) == x * x + y * y) by (nonlinear_arith);
}

/// The tangent and the normal of a curve of any slope are perpendicular,
/// and both have the length of one to within a few units.
pub proof fn lemma_tangent_and_normal(slope: i64)
    ensures
        spec_dot(
            spec_tangent(slope as int).x as int,
            spec_tangent(slope as int).y as int,
            spec_perpendicular(spec_tangent(slope as int)).x as int,
            spec_perpendicular(spec_tangent(slope as int)).y as int,
        ) == 0,
        (LINE_PRECISION - 3) * (LINE_PRECISION - 3) < spec_square(spec_tangent(slope as int)) < (
        LINE_PRECISION + 1) * (LINE_PRECISION + 1),
        spec_square(spec_perpendicular(spec_tangent(slope as int))) == spec_square(
            spec_tangent(slope as int),
        ),
{
    let l = Line(Point { x: 0, y: 0 }, Point { x: crate::fixed::ONE, y: slope });
    lemma_unit_has_length_one(l);
    let t = spec_tangent(slope as int);
    assert(t == l.spec_unit());
    // a vector of this length has no coordinate at the end of the range
    if t.x == i64::MIN {
        assert(t.x * t.x >= 0x8000_0000_0000_0000 * 0x8000_0000_0000_0000) by (nonlinear_arith)
            requires
                t.x == -0x8000_0000_0000_0000,
        ;
        assert(t.y * t.y >= 0) by (nonlinear_arith);
    }
    lemma_perpendicular(t);
}

/// A drag that moves the bounds leaves their extent as it is, and with it
/// a tick period that lies between its limits.
pub proof fn lemma_pan_keeps_range_and_tick(plot: Plot, delta: Point)
    requires
        plot.wf(),
        plot.can_pan(delta),
    ensures
        plot.spec_move_axes(delta).axis_x().range() == plot.axis_x().range(),
        plot.spec_move_axes(delta).axis_y().range() == plot.axis_y().range(),
        plot.spec_clamped_tick() == plot.tick_period ==> plot.spec_move_axes(delta).tick_period
            == plot.tick_period,
{
}

/// A tangent encloses no angle with itself.
pub proof fn lemma_same_tangent_not_curved(t: Point)
    ensures
        !spec_curved(t, t),
{
    let d = t.spec_direction(ANGLE_PRECISION as int);
    let n = spec_square(d);
    let dot = spec_dot(d.x as int, d.y as int, d.x as int, d.y as int);
    assert(dot == n);
    assert(dot * dot == n * n && n * n >= 0) by (nonlinear_arith)
        requires
            dot == n,
    ;
    assert(spec_square(d) * spec_square(d) == n * n);
    assert(100_000_000 * (dot * dot) >= 99_720_196 * (n * n));
}

/// Two samples with the same tangent are joined by a straight segment.
pub proof fn lemma_equal_tangents_straight(plot: Plot, s0: Sample, s1: Sample)
    requires
        s0.tangent == s1.tangent,
    ensures
        spec_control(plot, s0, s1) == spec_straight(),
{
    lemma_same_tangent_not_curved(s0.tangent);
}

/// The mesh of samples with one common tangent, as a line has them: every
/// control point is the mark of a straight segment.
pub proof fn lemma_line_mesh_is_straight(mesh: CurveMesh, plot: Plot, samples: Seq<Sample>)
    requires
        samples.len() >= 2,
        mesh.is_mesh_of(plot, samples),
        forall|i: int| 0 <= i < samples.len() ==> (#[trigger] samples[i]).tangent == samples[0].tangent,
    ensures
        forall|v: int|
            0 <= v < mesh.controls@.len() ==> (#[trigger] mesh.controls@[v]).point
                == spec_straight(),
{
    assert forall|v: int| 0 <= v < mesh.controls@.len() implies (#[trigger] mesh.controls@[v]).point
        == spec_straight() by {
        let k = v / 4;
        assert(0 <= k < samples.len() - 1);
        assert(samples[k].tangent == samples[0].tangent);
        assert(samples[k + 1].tangent == samples[0].tangent);
        lemma_equal_tangents_straight(plot, samples[k], samples[k + 1]);
    }
}

/// The tessellation of `n` samples has `n - 1` quads, four vertices for
/// each quad and six indices for each quad.
pub proof fn lemma_mesh_counts(mesh: CurveMesh, plot: Plot, samples: Seq<Sample>)
    requires
        samples.len() >= 2,
        mesh.is_mesh_of(plot, samples),
    ensures
        mesh.spec_quads() == samples.len() - 1,
        mesh.positions@.len() == 4 * (samples.len() - 1),
        mesh.normals@.len() == 4 * (samples.len() - 1),
        mesh.uvs@.len() == 4 * (samples.len() - 1),
        mesh.ends@.len() == 4 * (samples.len() - 1),
        mesh.controls@.len() == 4 * (samples.len() - 1),
        mesh.indices@.len() == 6 * (samples.len() - 1),
{
}

} // verus!
