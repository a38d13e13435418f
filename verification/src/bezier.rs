//! Tessellation of a sampled curve: one quad for each pair of consecutive
//! samples, with the end points of the segment and the control point of its
//! arc for the curve shader.
use crate::error::PlotError;
use crate::fixed::{
    clamp64, clamp_wide, lemma_tdiv_monotonic, lemma_tdiv_multiple, sat_add, sat_sub, tdiv, ONE,
};
use crate::geometry::{spec_dot, Line, Point};
use crate::plot::Plot;
use vstd::prelude::*;

verus! {

/// The largest number of samples of one curve: with it every vertex index
/// fits into 32 bits.
pub const MAX_SAMPLES: usize = 0x4000_0000;

/// Half the width of the band around the curve that the shader may touch.
pub const LINE_WIDTH: i64 = 30_000_000_000;

/// How far a quad reaches beyond its two samples, to the left and to the
/// right: ten times the line width.
pub const QUAD_OFFSET: i64 = 10 * LINE_WIDTH;

/// Precision to which the angle between two tangents is judged.
pub const ANGLE_PRECISION: u32 = 1_000_000;

/// First coordinate of the control point that marks a straight segment.
pub const STRAIGHT_X: i64 = 500_010_000;

/// Second coordinate of the control point that marks a straight segment.
pub const STRAIGHT_Y: i64 = 10_000;

/// A sample of a curve: a point of plot space and the tangent of the curve
/// there.
#[derive(Clone, Copy, Debug, PartialEq, Eq, Structural)]
pub struct Sample {
    pub point: Point,
    pub tangent: Point,
}

/// The values of a function around one abscissa: at `x`, a step ahead of it
/// and a step behind it.
#[derive(Clone, Copy, Debug, PartialEq, Eq, Structural)]
pub struct Evaluation {
    pub x: i64,
    pub y: i64,
    pub ahead: i64,
    pub behind: i64,
}

/// Position of a vertex: a screen position and a depth.
#[derive(Clone, Copy, Debug, PartialEq, Eq, Structural)]
pub struct Position {
    pub x: i64,
    pub y: i64,
    pub z: i64,
}

/// The two end points of the segment that a vertex belongs to.
#[derive(Clone, Copy, Debug, PartialEq, Eq, Structural)]
pub struct Ends {
    pub start: Point,
    pub end: Point,
}

/// The control point of the segment that a vertex belongs to, and whether
/// that segment is the last of its curve (one) or not (zero).
#[derive(Clone, Copy, Debug, PartialEq, Eq, Structural)]
pub struct Control {
    pub point: Point,
    pub is_last: i64,
}

/// The mesh of a curve: four vertices and six indices for each segment, each
/// attribute in an array of its own.
#[derive(Debug)]
pub struct CurveMesh {
    pub positions: Vec<Position>,
    pub normals: Vec<Position>,
    pub uvs: Vec<Point>,
    pub ends: Vec<Ends>,
    pub controls: Vec<Control>,
    pub indices: Vec<u32>,
}

/// The control point that marks a straight segment.
pub open spec fn spec_straight() -> Point {
    Point { x: STRAIGHT_X, y: STRAIGHT_Y }
}

/// Squared length of a vector.
pub open spec fn spec_square(v: Point) -> int {
    spec_dot(v.x as int, v.y as int, v.x as int, v.y as int)
}

/// Whether two tangents enclose an angle whose cosine is, in magnitude,
/// below 0.9986: about three degrees or more.  The squares are compared, so
/// that no root is taken: 99 720 196 is the square of 9 986.  The tangents
/// enter by their directions to `ANGLE_PRECISION`; a zero tangent encloses
/// no angle.
pub open spec fn spec_curved(a: Point, b: Point) -> bool {
    let da = a.spec_direction(ANGLE_PRECISION as int);
    let db = b.spec_direction(ANGLE_PRECISION as int);
    let dot = spec_dot(da.x as int, da.y as int, db.x as int, db.y as int);
    100_000_000 * (dot * dot) < 99_720_196 * (spec_square(da) * spec_square(db))
}

/// The tangent line of a sample on the screen: through the sample and
/// through the point one tangent further.
pub open spec fn spec_tangent_line(plot: Plot, s: Sample) -> Line {
    Line(plot.spec_to_local(s.point), plot.spec_to_local(s.point.spec_plus(s.tangent)))
}

/// The control point of the segment between two samples: where their
/// tangent lines meet, if the tangents enclose an angle and the lines do
/// meet; the mark of a straight segment otherwise.
pub open spec fn spec_control(plot: Plot, s0: Sample, s1: Sample) -> Point {
    if spec_curved(s0.tangent, s1.tangent) {
        match spec_tangent_line(plot, s1).spec_intersect(spec_tangent_line(plot, s0)) {
            Some(c) => c,
            None => spec_straight(),
        }
    } else {
        spec_straight()
    }
}

/// Corner `j` of the quad between two samples: left of the first sample for
/// the corners 0 and 1, right of the second for 2 and 3; at the upper edge
/// of the bounds for the even corners, at the lower edge for the odd ones.
pub open spec fn spec_corner(plot: Plot, s0: Sample, s1: Sample, j: int) -> Point {
    Point {
        x: if j < 2 {
            clamp64(plot.spec_to_local(s0.point).x - QUAD_OFFSET) as i64
        } else {
            clamp64(plot.spec_to_local(s1.point).x + QUAD_OFFSET) as i64
        },
        y: if j % 2 == 0 {
            plot.spec_to_local(plot.bounds.upper).y
        } else {
            plot.spec_to_local(plot.bounds.lower).y
        },
    }
}

/// Texture coordinate of vertex `v`: its screen position.
pub open spec fn spec_uv(plot: Plot, samples: Seq<Sample>, v: int) -> Point {
    spec_corner(plot, samples[v / 4], samples[v / 4 + 1], v % 4)
}

/// Position of vertex `v`: corner `v % 4` of quad `v / 4`, at depth zero.
pub open spec fn spec_position(plot: Plot, samples: Seq<Sample>, v: int) -> Position {
    Position { x: spec_uv(plot, samples, v).x, y: spec_uv(plot, samples, v).y, z: 0 }
}

/// Normal of every vertex: toward the viewer.
pub open spec fn spec_normal() -> Position {
    Position { x: 0, y: 0, z: ONE }
}

/// End points of the segment of vertex `v`.
pub open spec fn spec_ends(plot: Plot, samples: Seq<Sample>, v: int) -> Ends {
    Ends {
        start: plot.spec_to_local(samples[v / 4].point),
        end: plot.spec_to_local(samples[v / 4 + 1].point),
    }
}

/// Control point of the segment of vertex `v`, and whether that segment is
/// the last one.
pub open spec fn spec_control_of(plot: Plot, samples: Seq<Sample>, v: int) -> Control {
    Control {
        point: spec_control(plot, samples[v / 4], samples[v / 4 + 1]),
        is_last: if v / 4 == samples.len() - 2 {
            ONE
        } else {
            0
        },
    }
}

/// Entry `i` of the index list: the two triangles of quad `i / 6`, over its
/// corners 0, 1, 2 and 3, 2, 1.
pub open spec fn spec_index(i: int) -> int {
    4 * (i / 6) + if i % 6 == 0 {
        0int
    } else if i % 6 == 1 || i % 6 == 5 {
        1int
    } else if i % 6 == 2 || i % 6 == 4 {
        2int
    } else {
        3int
    }
}

impl CurveMesh {
    /// Number of quads of the mesh.
    pub open spec fn spec_quads(self) -> nat {
        self.positions@.len() / 4
    }

    /// Whether the mesh is the tessellation of `samples` on `plot`: it has
    /// one quad for each of the `segments` first segments, and each
    /// attribute of each vertex is the one that the samples give.
    pub open spec fn covers(self, plot: Plot, samples: Seq<Sample>, segments: int) -> bool {
        &&& self.positions@.len() == 4 * segments
        &&& self.normals@.len() == 4 * segments
        &&& self.uvs@.len() == 4 * segments
        &&& self.ends@.len() == 4 * segments
        &&& self.controls@.len() == 4 * segments
        &&& self.indices@.len() == 6 * segments
        &&& forall|v: int|
            0 <= v < 4 * segments ==> #[trigger] self.positions@[v] == spec_position(
                plot,
                samples,
                v,
            )
        &&& forall|v: int| 0 <= v < 4 * segments ==> #[trigger] self.normals@[v] == spec_normal()
        &&& forall|v: int|
            0 <= v < 4 * segments ==> #[trigger] self.uvs@[v] == spec_uv(plot, samples, v)
        &&& forall|v: int|
            0 <= v < 4 * segments ==> #[trigger] self.ends@[v] == spec_ends(plot, samples, v)
        &&& forall|v: int|
            0 <= v < 4 * segments ==> #[trigger] self.controls@[v] == spec_control_of(
                plot,
                samples,
                v,
            )
        &&& forall|i: int|
            0 <= i < 6 * segments ==> #[trigger] self.indices@[i] == spec_index(i)
    }

    /// Whether the mesh is the tessellation of `samples` on `plot`.
    pub open spec fn is_mesh_of(self, plot: Plot, samples: Seq<Sample>) -> bool {
        self.covers(plot, samples, samples.len() - 1)
    }
}

/// Entry `i` of `n` evenly spaced numbers from `a` to `b`: the first is `a`
/// and the last is `b`.
pub open spec fn spec_linspace_at(a: int, b: int, n: int, i: int) -> int {
    if n <= 1 {
        a
    } else {
        a + tdiv((b - a) * i, n - 1)
    }
}

/// The step of the central difference for abscissas that start with `x0`
/// and `x1`: a thousandth of their distance, and at least one unit.
pub open spec fn spec_step(x0: int, x1: int) -> int {
    if tdiv(x1 - x0, 1000) >= 1 {
        tdiv(x1 - x0, 1000)
    } else {
        1
    }
}

/// The slope of the central difference: the difference of the values a step
/// ahead and a step behind, divided by twice the step.
pub open spec fn spec_slope(ahead: int, behind: int, step: int) -> int {
    clamp64(tdiv((ahead - behind) * ONE, 2 * step))
}

/// The tangent of a curve of the given slope: the vector `(1, slope)`,
/// brought to the length of one.
pub open spec fn spec_tangent(slope: int) -> Point {
    Line(Point { x: 0, y: 0 }, Point { x: ONE, y: slope as i64 }).spec_unit()
}

/// The sample that an evaluation gives: the point `(x, y)`, with the
/// tangent of the slope of the central difference.
pub open spec fn spec_sample(e: Evaluation, step: int) -> Sample {
    Sample {
        point: Point { x: e.x, y: e.y },
        tangent: spec_tangent(spec_slope(e.ahead as int, e.behind as int, step)),
    }
}

/// `n` evenly spaced numbers from `a` to `b`, both included; `a` alone for
/// `n == 1`.  More than `MAX_SAMPLES` numbers are refused.
pub fn linspace(a: i64, b: i64, n: usize) -> (r: Result<Vec<i64>, PlotError>)
    ensures
        n > MAX_SAMPLES <==> r == Err::<Vec<i64>, PlotError>(PlotError::TooManySamples),
        n <= MAX_SAMPLES <==> r is Ok,
        r is Ok ==> r->Ok_0@.len() == n && forall|i: int|
            0 <= i < n ==> #[trigger] r->Ok_0@[i] == spec_linspace_at(
                a as int,
                b as int,
                n as int,
                i,
            ),
{
    if n > MAX_SAMPLES {
        return Err(PlotError::TooManySamples);
    }
    let mut xs: Vec<i64> = Vec::new();
    let d: i128 = b as i128 - a as i128;
    let mut i: usize = 0;
    while i < n
        invariant
            n <= MAX_SAMPLES,
            0 <= i <= n,
            d == b - a,
            xs@.len() == i,
            forall|j: int|
                0 <= j < i ==> #[trigger] xs@[j] == spec_linspace_at(
                    a as int,
                    b as int,
                    n as int,
                    j,
                ),
        decreases n - i,
    {
        let x: i64 = if n <= 1 {
            a
        } else {
            let last: i128 = (n - 1) as i128;
            let wide: i128 = i as i128;
            proof {
                lemma_linspace_between(d as int, wide as int, last as int);
            }
            (a as i128 + (d * wide) / last) as i64
        };
        xs.push(x);
        i = i + 1;
    }
    Ok(xs)
}

/// A fraction `i / last` of a distance `d` lies between zero and `d`.
proof fn lemma_linspace_between(d: int, i: int, last: int)
    requires
        0 <= i <= last,
        last >= 1,
        last <= 0x4000_0000,
        -0xffff_ffff_ffff_ffff <= d <= 0xffff_ffff_ffff_ffff,
    ensures
        d >= 0 ==> 0 <= tdiv(d * i, last) <= d,
        d <= 0 ==> d <= tdiv(d * i, last) <= 0,
        -0xffff_ffff_ffff_ffff * 0x4000_0000 <= d * i <= 0xffff_ffff_ffff_ffff * 0x4000_0000,
{
    assert(-0xffff_ffff_ffff_ffff * 0x4000_0000 <= d * i <= 0xffff_ffff_ffff_ffff * 0x4000_0000)
        by (nonlinear_arith)
        requires
            0 <= i <= 0x4000_0000,
            -0xffff_ffff_ffff_ffff <= d <= 0xffff_ffff_ffff_ffff,
    ;
    lemma_tdiv_multiple(d, last);
    assert(0int * last == 0);
    lemma_tdiv_multiple(0, last);
    if d >= 0 {
        assert(0 <= d * i <= d * last) by (nonlinear_arith)
            requires
                d >= 0,
                0 <= i <= last,
        ;
        lemma_tdiv_monotonic(0, d * i, last);
        lemma_tdiv_monotonic(d * i, d * last, last);
    } else {
        assert(d * last <= d * i <= 0) by (nonlinear_arith)
            requires
                d <= 0,
                0 <= i <= last,
        ;
        lemma_tdiv_monotonic(d * i, 0, last);
        lemma_tdiv_monotonic(d * last, d * i, last);
    }
}

impl Plot {
    /// The abscissas at which a function is sampled: as many as the plot
    /// asks for, evenly spaced from the lower bound to the upper bound.
    pub fn sample_positions(&self) -> (r: Result<Vec<i64>, PlotError>)
        ensures
            self.bezier_num_points < 2 <==> r == Err::<Vec<i64>, PlotError>(
                PlotError::InsufficientSamples,
            ),
            self.bezier_num_points > MAX_SAMPLES <==> r == Err::<Vec<i64>, PlotError>(
                PlotError::TooManySamples,
            ),
            2 <= self.bezier_num_points <= MAX_SAMPLES <==> r is Ok,
            r is Ok ==> r->Ok_0@.len() == self.bezier_num_points && forall|i: int|
                0 <= i < self.bezier_num_points ==> #[trigger] r->Ok_0@[i] == spec_linspace_at(
                    self.bounds.lower.x as int,
                    self.bounds.upper.x as int,
                    self.bezier_num_points as int,
                    i,
                ),
    {
        if self.bezier_num_points < 2 {
            return Err(PlotError::InsufficientSamples);
        }
        linspace(self.bounds.lower.x, self.bounds.upper.x, self.bezier_num_points)
    }
}

/// The step of the central difference for the abscissas `xs`: a thousandth
/// of the distance of the first two, and at least one unit.
pub fn derivative_step(xs: &Vec<i64>) -> (r: Result<i64, PlotError>)
    ensures
        xs.len() < 2 <==> r == Err::<i64, PlotError>(PlotError::InsufficientSamples),
        xs.len() >= 2 <==> r == Ok::<i64, PlotError>(
            spec_step(xs@[0] as int, xs@[1] as int) as i64,
        ),
        r is Ok ==> r->Ok_0 >= 1,
{
    if xs.len() < 2 {
        return Err(PlotError::InsufficientSamples);
    }
    Ok(step_between(xs[0], xs[1]))
}

/// The step of the central difference for abscissas that start with `x0`
/// and `x1`.
fn step_between(x0: i64, x1: i64) -> (step: i64)
    ensures
        step == spec_step(x0 as int, x1 as int),
        step >= 1,
{
    let q: i128 = (x1 as i128 - x0 as i128) / 1000;
    if q >= 1 {
        q as i64
    } else {
        1
    }
}

/// The slope of the central difference.
fn slope(ahead: i64, behind: i64, step: i64) -> (r: i64)
    requires
        step >= 1,
    ensures
        r == spec_slope(ahead as int, behind as int, step as int),
{
    let diff: i128 = ahead as i128 - behind as i128;
    clamp_wide((diff * 1_000_000_000) / (2 * (step as i128)))
}

/// The tangent of a curve of the given slope.
pub fn tangent(slope: i64) -> (t: Point)
    ensures
        t == spec_tangent(slope as int),
{
    Line(Point { x: 0, y: 0 }, Point { x: ONE, y: slope }).unit()
}

/// The vector `t` turned a quarter to the right: `(t.y, -t.x)`.
pub open spec fn spec_perpendicular(t: Point) -> Point {
    Point { x: t.y, y: clamp64(-(t.x as int)) as i64 }
}

/// The vector `t` turned a quarter to the right.
pub fn perpendicular(t: Point) -> (n: Point)
    ensures
        n == spec_perpendicular(t),
{
    Point { x: t.y, y: sat_sub(0, t.x) }
}

/// Turns the values of a function around each abscissa into samples, and
/// gives the normals of the curve beside them.  Each sample is the point
/// with the tangent `(1, slope)` brought to the length of one, the slope
/// being the central difference over the step that the first two abscissas
/// give; each normal is the tangent of its sample turned a quarter to the
/// right.
pub fn make_df(evaluations: &Vec<Evaluation>) -> (r: Result<(Vec<Sample>, Vec<Point>), PlotError>)
    ensures
        evaluations.len() < 2 <==> r == Err::<(Vec<Sample>, Vec<Point>), PlotError>(
            PlotError::InsufficientSamples,
        ),
        evaluations.len() >= 2 <==> r is Ok,
        r is Ok ==> r->Ok_0.0@.len() == evaluations.len() && forall|i: int|
            0 <= i < evaluations.len() ==> #[trigger] r->Ok_0.0@[i] == spec_sample(
                evaluations@[i],
                spec_step(evaluations@[0].x as int, evaluations@[1].x as int),
            ),
        r is Ok ==> r->Ok_0.1@.len() == evaluations.len() && forall|i: int|
            0 <= i < evaluations.len() ==> #[trigger] r->Ok_0.1@[i] == spec_perpendicular(
                spec_sample(
                    evaluations@[i],
                    spec_step(evaluations@[0].x as int, evaluations@[1].x as int),
                ).tangent,
            ),
{
    let n: usize = evaluations.len();
    if n < 2 {
        return Err(PlotError::InsufficientSamples);
    }
    let step: i64 = step_between(evaluations[0].x, evaluations[1].x);
    let mut samples: Vec<Sample> = Vec::new();
    let mut normals: Vec<Point> = Vec::new();
    let mut i: usize = 0;
    while i < n
        invariant
            n == evaluations.len(),
            0 <= i <= n,
            step >= 1,
            step == spec_step(evaluations@[0].x as int, evaluations@[1].x as int),
            samples@.len() == i,
            normals@.len() == i,
            forall|j: int|
                0 <= j < i ==> #[trigger] samples@[j] == spec_sample(evaluations@[j], step as int),
            forall|j: int|
                0 <= j < i ==> #[trigger] normals@[j] == spec_perpendicular(
                    spec_sample(evaluations@[j], step as int).tangent,
                ),
        decreases n - i,
    {
        let e: &Evaluation = &evaluations[i];
        let along: Point = tangent(slope(e.ahead, e.behind, step));
        samples.push(Sample { point: Point { x: e.x, y: e.y }, tangent: along });
        normals.push(perpendicular(along));
        i = i + 1;
    }
    Ok((samples, normals))
}

/// Whether two tangents enclose an angle of about three degrees or more.
pub fn is_curved(a: Point, b: Point) -> (curved: bool)
    ensures
        curved == spec_curved(a, b),
{
    let da: Point = a.direction(ANGLE_PRECISION);
    let db: Point = b.direction(ANGLE_PRECISION);
    let dot: i128 = dot_small(da, db);
    let na: i128 = dot_small(da, da);
    let nb: i128 = dot_small(db, db);
    assert(0 <= dot * dot <= 2_000_000_000_000 * 2_000_000_000_000) by (nonlinear_arith)
        requires
            -2_000_000_000_000 <= dot <= 2_000_000_000_000,
    ;
    assert(0 <= na * nb <= 2_000_000_000_000 * 2_000_000_000_000) by (nonlinear_arith)
        requires
            0 <= na <= 2_000_000_000_000,
            0 <= nb <= 2_000_000_000_000,
    ;
    let left: i128 = 100_000_000 * (dot * dot);
    let right: i128 = 99_720_196 * (na * nb);
    left < right
}

/// Dot product of two directions.
fn dot_small(a: Point, b: Point) -> (r: i128)
    requires
        -(ANGLE_PRECISION as int) <= a.x <= ANGLE_PRECISION,
        -(ANGLE_PRECISION as int) <= a.y <= ANGLE_PRECISION,
        -(ANGLE_PRECISION as int) <= b.x <= ANGLE_PRECISION,
        -(ANGLE_PRECISION as int) <= b.y <= ANGLE_PRECISION,
    ensures
        r == spec_dot(a.x as int, a.y as int, b.x as int, b.y as int),
        -2_000_000_000_000 <= r <= 2_000_000_000_000,
        a == b ==> r >= 0,
{
    let ax: i128 = a.x as i128;
    let ay: i128 = a.y as i128;
    let bx: i128 = b.x as i128;
    let by: i128 = b.y as i128;
    assert(-1_000_000_000_000 <= ax * bx <= 1_000_000_000_000) by (nonlinear_arith)
        requires
            -1_000_000 <= ax <= 1_000_000,
            -1_000_000 <= bx <= 1_000_000,
    ;
    assert(-1_000_000_000_000 <= ay * by <= 1_000_000_000_000) by (nonlinear_arith)
        requires
            -1_000_000 <= ay <= 1_000_000,
            -1_000_000 <= by <= 1_000_000,
    ;
    assert(ax * ax >= 0 && ay * ay >= 0) by (nonlinear_arith);
    ax * bx + ay * by
}

/// The control point that marks a straight segment.
pub fn straight() -> (p: Point)
    ensures
        p == spec_straight(),
{
    Point { x: STRAIGHT_X, y: STRAIGHT_Y }
}

/// The control point of the segment between two samples.  Tangent lines
/// that do not meet give the mark of a straight segment.
pub fn control_point(plot: &Plot, s0: &Sample, s1: &Sample) -> (c: Point)
    requires
        plot.wf(),
    ensures
        c == spec_control(*plot, *s0, *s1),
{
    if is_curved(s0.tangent, s1.tangent) {
        let line0 = Line(plot.to_local(s0.point), plot.to_local(s0.point.plus(s0.tangent)));
        let line1 = Line(plot.to_local(s1.point), plot.to_local(s1.point.plus(s1.tangent)));
        match line1.intersect(line0) {
            Some(c) => c,
            None => straight(),
        }
    } else {
        straight()
    }
}

/// Tessellates a sampled curve: one quad for each pair of consecutive
/// samples, from `QUAD_OFFSET` left of the first to `QUAD_OFFSET` right of
/// the second and over the full height of the bounds.  Every vertex of a
/// quad carries the end points and the control point of its segment; the
/// vertices of the last segment are marked.
pub fn tessellate(plot: &Plot, samples: &Vec<Sample>) -> (r: Result<CurveMesh, PlotError>)
    requires
        plot.wf(),
    ensures
        samples.len() < 2 <==> r == Err::<CurveMesh, PlotError>(PlotError::InsufficientSamples),
        samples.len() > MAX_SAMPLES <==> r == Err::<CurveMesh, PlotError>(
            PlotError::TooManySamples,
        ),
        2 <= samples.len() <= MAX_SAMPLES <==> r is Ok,
        r is Ok ==> r->Ok_0.is_mesh_of(*plot, samples@),
{
    let n: usize = samples.len();
    if n < 2 {
        return Err(PlotError::InsufficientSamples);
    }
    if n > MAX_SAMPLES {
        return Err(PlotError::TooManySamples);
    }
    let mut mesh = CurveMesh {
        positions: Vec::new(),
        normals: Vec::new(),
        uvs: Vec::new(),
        ends: Vec::new(),
        controls: Vec::new(),
        indices: Vec::new(),
    };
    let top: i64 = plot.to_local(plot.bounds.upper).y;
    let bottom: i64 = plot.to_local(plot.bounds.lower).y;
    let mut k: usize = 0;
    while k < n - 1
        invariant
            plot.wf(),
            n == samples.len(),
            2 <= n <= MAX_SAMPLES,
            0 <= k <= n - 1,
            top == plot.spec_to_local(plot.bounds.upper).y,
            bottom == plot.spec_to_local(plot.bounds.lower).y,
            mesh.covers(*plot, samples@, k as int),
        decreases n - 1 - k,
    {
        let s0: &Sample = &samples[k];
        let s1: &Sample = &samples[k + 1];
        let start: Point = plot.to_local(s0.point);
        let end: Point = plot.to_local(s1.point);
        let left: i64 = sat_sub(start.x, QUAD_OFFSET);
        let right: i64 = sat_add(end.x, QUAD_OFFSET);
        let control = Control {
            point: control_point(plot, s0, s1),
            is_last: if k == n - 2 {
                ONE
            } else {
                0
            },
        };
        let ghost before = mesh;
        push_quad(
            &mut mesh,
            Point { x: left, y: top },
            Point { x: left, y: bottom },
            Point { x: right, y: top },
            Point { x: right, y: bottom },
            Ends { start, end },
            control,
            k,
        );
        proof {
            let base = 4 * k as int;
            assert forall|v: int| 0 <= v < 4 * (k + 1) implies #[trigger] mesh.positions@[v]
                == spec_position(*plot, samples@, v) by {
                if v >= base {
                    assert(v / 4 == k && v % 4 == v - base);
                } else {
                    assert(mesh.positions@[v] == before.positions@[v]);
                }
            }
            assert forall|v: int| 0 <= v < 4 * (k + 1) implies #[trigger] mesh.uvs@[v] == spec_uv(
                *plot,
                samples@,
                v,
            ) by {
                if v >= base {
                    assert(v / 4 == k && v % 4 == v - base);
                } else {
                    assert(mesh.uvs@[v] == before.uvs@[v]);
                }
            }
            assert forall|v: int| 0 <= v < 4 * (k + 1) implies #[trigger] mesh.normals@[v]
                == spec_normal() by {
                if v < base {
                    assert(mesh.normals@[v] == before.normals@[v]);
                }
            }
            assert forall|v: int| 0 <= v < 4 * (k + 1) implies #[trigger] mesh.ends@[v]
                == spec_ends(*plot, samples@, v) by {
                if v >= base {
                    assert(v / 4 == k);
                } else {
                    assert(mesh.ends@[v] == before.ends@[v]);
                }
            }
            assert forall|v: int| 0 <= v < 4 * (k + 1) implies #[trigger] mesh.controls@[v]
                == spec_control_of(*plot, samples@, v) by {
                if v >= base {
                    assert(v / 4 == k);
                } else {
                    assert(mesh.controls@[v] == before.controls@[v]);
                }
            }
            assert forall|i: int| 0 <= i < 6 * (k + 1) implies #[trigger] mesh.indices@[i]
                == spec_index(i) by {
                if i >= 6 * k {
                    assert(i / 6 == k && i % 6 == i - 6 * k);
                } else {
                    assert(mesh.indices@[i] == before.indices@[i]);
                }
            }
        }
        k = k + 1;
    }
    Ok(mesh)
}

/// Appends quad `k` to a mesh: its four corners, with the attributes that
/// its vertices share, and its two triangles.
fn push_quad(
    mesh: &mut CurveMesh,
    c0: Point,
    c1: Point,
    c2: Point,
    c3: Point,
    ends: Ends,
    control: Control,
    k: usize,
)
    requires
        k < MAX_SAMPLES,
        old(mesh).positions@.len() == 4 * k,
    ensures
        final(mesh).positions@ == old(mesh).positions@ + seq![
            Position { x: c0.x, y: c0.y, z: 0 },
            Position { x: c1.x, y: c1.y, z: 0 },
            Position { x: c2.x, y: c2.y, z: 0 },
            Position { x: c3.x, y: c3.y, z: 0 },
        ],
        final(mesh).uvs@ == old(mesh).uvs@ + seq![c0, c1, c2, c3],
        final(mesh).normals@ == old(mesh).normals@ + seq![
            spec_normal(),
            spec_normal(),
            spec_normal(),
            spec_normal(),
        ],
        final(mesh).ends@ == old(mesh).ends@ + seq![ends, ends, ends, ends],
        final(mesh).controls@ == old(mesh).controls@ + seq![control, control, control, control],
        final(mesh).indices@ == old(mesh).indices@ + seq![
            (4 * k) as u32,
            (4 * k + 1) as u32,
            (4 * k + 2) as u32,
            (4 * k + 3) as u32,
            (4 * k + 2) as u32,
            (4 * k + 1) as u32,
        ],
{
    let normal = Position { x: 0, y: 0, z: ONE };
    mesh.positions.push(Position { x: c0.x, y: c0.y, z: 0 });
    mesh.positions.push(Position { x: c1.x, y: c1.y, z: 0 });
    mesh.positions.push(Position { x: c2.x, y: c2.y, z: 0 });
    mesh.positions.push(Position { x: c3.x, y: c3.y, z: 0 });
    mesh.uvs.push(c0);
    mesh.uvs.push(c1);
    mesh.uvs.push(c2);
    mesh.uvs.push(c3);
    mesh.normals.push(normal);
    mesh.normals.push(normal);
    mesh.normals.push(normal);
    mesh.normals.push(normal);
    mesh.ends.push(ends);
    mesh.ends.push(ends);
    mesh.ends.push(ends);
    mesh.ends.push(ends);
    mesh.controls.push(control);
    mesh.controls.push(control);
    mesh.controls.push(control);
    mesh.controls.push(control);
    let base: u32 = (4 * k) as u32;
    mesh.indices.push(base);
    mesh.indices.push(base + 1);
    mesh.indices.push(base + 2);
    mesh.indices.push(base + 3);
    mesh.indices.push(base + 2);
    mesh.indices.push(base + 1);
    assert(mesh.positions@ =~= old(mesh).positions@ + seq![
        Position { x: c0.x, y: c0.y, z: 0 },
        Position { x: c1.x, y: c1.y, z: 0 },
        Position { x: c2.x, y: c2.y, z: 0 },
        Position { x: c3.x, y: c3.y, z: 0 },
    ]);
    assert(mesh.uvs@ =~= old(mesh).uvs@ + seq![c0, c1, c2, c3]);
    assert(mesh.normals@ =~= old(mesh).normals@ + seq![
        spec_normal(),
        spec_normal(),
        spec_normal(),
        spec_normal(),
    ]);
    assert(mesh.ends@ =~= old(mesh).ends@ + seq![ends, ends, ends, ends]);
    assert(mesh.controls@ =~= old(mesh).controls@ + seq![control, control, control, control]);
    assert(mesh.indices@ =~= old(mesh).indices@ + seq![
        (4 * k) as u32,
        (4 * k + 1) as u32,
        (4 * k + 2) as u32,
        (4 * k + 3) as u32,
        (4 * k + 2) as u32,
        (4 * k + 1) as u32,
    ]);
}

} // verus!
