//! Adding data to a plot: segment plots, scatter plots and function plots,
//! with the bounds fitted to the data or left as they are.
use crate::error::PlotError;
use crate::fixed::{clamp64, sat_add, sat_sub, tdiv};
use crate::geometry::Point;
use crate::plot::{Plot, PlotBounds};
use crate::plot_format::{PlotFormat, Plotable};
use crate::style::{
    spec_default_bezier, spec_default_marker_look, spec_default_segment_look, BezierData,
    LineStyle, MarkerData, Opt, PlotData, SegmentData,
};
use vstd::prelude::*;

verus! {

/// The box `b` grown to hold the point `p`.
pub open spec fn spec_grown(b: PlotBounds, p: Point) -> PlotBounds {
    PlotBounds {
        lower: Point {
            x: if p.x < b.lower.x {
                p.x
            } else {
                b.lower.x
            },
            y: if p.y < b.lower.y {
                p.y
            } else {
                b.lower.y
            },
        },
        upper: Point {
            x: if p.x > b.upper.x {
                p.x
            } else {
                b.upper.x
            },
            y: if p.y > b.upper.y {
                p.y
            } else {
                b.upper.y
            },
        },
    }
}

/// The smallest box that holds the first `n` of the points.
pub open spec fn spec_bounding_box(data: Seq<Point>, n: int) -> PlotBounds
    decreases n,
{
    if n <= 1 {
        PlotBounds { lower: data[0], upper: data[0] }
    } else {
        spec_grown(spec_bounding_box(data, n - 1), data[n - 1])
    }
}

/// The box `b` with a margin of a tenth of its extent on every side.
pub open spec fn spec_padded(b: PlotBounds) -> PlotBounds {
    PlotBounds {
        lower: Point {
            x: clamp64(b.lower.x - tdiv(b.upper.x - b.lower.x, 10)) as i64,
            y: clamp64(b.lower.y - tdiv(b.upper.y - b.lower.y, 10)) as i64,
        },
        upper: Point {
            x: clamp64(b.upper.x + tdiv(b.upper.x - b.lower.x, 10)) as i64,
            y: clamp64(b.upper.y + tdiv(b.upper.y - b.lower.y, 10)) as i64,
        },
    }
}

/// The bounds fitted to the points: their box, with its margin.
pub open spec fn spec_fitted(data: Seq<Point>) -> PlotBounds {
    spec_padded(spec_bounding_box(data, data.len() as int))
}

/// Whether the bounds are ordered on both axes.
pub open spec fn spec_ordered(b: PlotBounds) -> bool {
    b.lower.x < b.upper.x && b.lower.y < b.upper.y
}

/// The box of the first `n` points holds each of them, and each of its
/// sides goes through one of them.
pub proof fn lemma_bounding_box(data: Seq<Point>, n: int)
    requires
        1 <= n <= data.len(),
    ensures
        forall|i: int|
            0 <= i < n ==> spec_bounding_box(data, n).lower.x <= (#[trigger] data[i]).x
                <= spec_bounding_box(data, n).upper.x && spec_bounding_box(data, n).lower.y
                <= data[i].y <= spec_bounding_box(data, n).upper.y,
        exists|i: int| 0 <= i < n && (#[trigger] data[i]).x == spec_bounding_box(data, n).lower.x,
        exists|i: int| 0 <= i < n && (#[trigger] data[i]).x == spec_bounding_box(data, n).upper.x,
        exists|i: int| 0 <= i < n && (#[trigger] data[i]).y == spec_bounding_box(data, n).lower.y,
        exists|i: int| 0 <= i < n && (#[trigger] data[i]).y == spec_bounding_box(data, n).upper.y,
    decreases n,
{
    if n <= 1 {
        assert(data[0].x == spec_bounding_box(data, n).lower.x);
    } else {
        lemma_bounding_box(data, n - 1);
        let before = spec_bounding_box(data, n - 1);
        let after = spec_bounding_box(data, n);
        let a = choose|i: int| 0 <= i < n - 1 && (#[trigger] data[i]).x == before.lower.x;
        let b = choose|i: int| 0 <= i < n - 1 && (#[trigger] data[i]).x == before.upper.x;
        let c = choose|i: int| 0 <= i < n - 1 && (#[trigger] data[i]).y == before.lower.y;
        let d = choose|i: int| 0 <= i < n - 1 && (#[trigger] data[i]).y == before.upper.y;
        assert(data[a].x == after.lower.x || data[n - 1].x == after.lower.x);
        assert(data[b].x == after.upper.x || data[n - 1].x == after.upper.x);
        assert(data[c].y == after.lower.y || data[n - 1].y == after.lower.y);
        assert(data[d].y == after.upper.y || data[n - 1].y == after.upper.y);
    }
}

/// The smallest box that holds the points; none for no points.
pub fn bounding_box(data: &Vec<Point>) -> (r: Option<PlotBounds>)
    ensures
        r is None <==> data.len() == 0,
        r is Some ==> r->Some_0 == spec_bounding_box(data@, data.len() as int),
{
    if data.len() == 0 {
        return None;
    }
    let mut b = PlotBounds { lower: data[0], upper: data[0] };
    let mut i: usize = 1;
    while i < data.len()
        invariant
            1 <= i <= data.len(),
            b == spec_bounding_box(data@, i as int),
        decreases data.len() - i,
    {
        let p: Point = data[i];
        if p.x < b.lower.x {
            b.lower.x = p.x;
        }
        if p.y < b.lower.y {
            b.lower.y = p.y;
        }
        if p.x > b.upper.x {
            b.upper.x = p.x;
        }
        if p.y > b.upper.y {
            b.upper.y = p.y;
        }
        i = i + 1;
    }
    Some(b)
}

/// The box with a margin of a tenth of its extent on every side.
pub fn padded(b: &PlotBounds) -> (r: PlotBounds)
    ensures
        r == spec_padded(*b),
{
    let mx: i64 = ((b.upper.x as i128 - b.lower.x as i128) / 10) as i64;
    let my: i64 = ((b.upper.y as i128 - b.lower.y as i128) / 10) as i64;
    PlotBounds {
        lower: Point { x: sat_sub(b.lower.x, mx), y: sat_sub(b.lower.y, my) },
        upper: Point { x: sat_add(b.upper.x, mx), y: sat_add(b.upper.y, my) },
    }
}

impl PlotData {
    /// Whether `self` is `old` with one more group of segments, through
    /// `points` and of the look `look`.
    pub open spec fn added_segments(
        self,
        old: PlotData,
        points: Seq<Point>,
        look: crate::style::SegmentLook,
    ) -> bool {
        &&& self.segment_groups@.len() == old.segment_groups@.len() + 1
        &&& forall|i: int|
            0 <= i < old.segment_groups@.len() ==> #[trigger] self.segment_groups@[i]
                == old.segment_groups@[i]
        &&& self.segment_groups@[old.segment_groups@.len() as int].data@ == points
        &&& self.segment_groups@[old.segment_groups@.len() as int].look() == look
    }

    /// Whether `self` is `old` with one more group of markers, at `points`
    /// and of the look `look`.
    pub open spec fn added_markers(
        self,
        old: PlotData,
        points: Seq<Point>,
        look: crate::style::MarkerLook,
    ) -> bool {
        &&& self.marker_groups@.len() == old.marker_groups@.len() + 1
        &&& forall|i: int|
            0 <= i < old.marker_groups@.len() ==> #[trigger] self.marker_groups@[i]
                == old.marker_groups@[i]
        &&& self.marker_groups@[old.marker_groups@.len() as int].data@ == points
        &&& self.marker_groups@[old.marker_groups@.len() as int].look() == look
    }
}

/// Whether one of the options hides the line.
pub open spec fn spec_hides_line(options: Seq<Opt>) -> bool {
    exists|i: int|
        0 <= i < options.len() && #[trigger] options[i] == Opt::LineStyle(LineStyle::Hidden)
}

/// Whether one of the options is about the shape or the size of markers.
pub open spec fn spec_asks_markers(options: Seq<Opt>) -> bool {
    exists|i: int|
        0 <= i < options.len() && ((#[trigger] options[i]) is MarkerStyle
            || options[i] is MarkerSize)
}

/// Whether one of the options hides the line.
pub fn hides_line(options: &Vec<Opt>) -> (b: bool)
    ensures
        b == spec_hides_line(options@),
{
    let mut i: usize = 0;
    while i < options.len()
        invariant
            0 <= i <= options.len(),
            forall|j: int|
                0 <= j < i ==> #[trigger] options@[j] != Opt::LineStyle(LineStyle::Hidden),
        decreases options.len() - i,
    {
        match options[i] {
            Opt::LineStyle(LineStyle::Hidden) => {
                return true;
            },
            _ => {},
        }
        i = i + 1;
    }
    false
}

/// Whether one of the options is about the shape or the size of markers.
pub fn asks_markers(options: &Vec<Opt>) -> (b: bool)
    ensures
        b == spec_asks_markers(options@),
{
    let mut i: usize = 0;
    while i < options.len()
        invariant
            0 <= i <= options.len(),
            forall|j: int|
                0 <= j < i ==> !((#[trigger] options@[j]) is MarkerStyle
                    || options@[j] is MarkerSize),
        decreases options.len() - i,
    {
        match options[i] {
            Opt::MarkerStyle(_) => {
                return true;
            },
            Opt::MarkerSize(_) => {
                return true;
            },
            _ => {},
        }
        i = i + 1;
    }
    false
}

/// A copy of the points.
fn copy_points(data: &Vec<Point>) -> (r: Vec<Point>)
    ensures
        r@ == data@,
{
    let mut r: Vec<Point> = Vec::new();
    let mut i: usize = 0;
    while i < data.len()
        invariant
            0 <= i <= data.len(),
            r@ == data@.subrange(0, i as int),
        decreases data.len() - i,
    {
        r.push(data[i]);
        assert(r@ =~= data@.subrange(0, i + 1));
        i = i + 1;
    }
    assert(r@ =~= data@);
    r
}

impl Default for Plot {
    /// A plot without data on a canvas of 800 by 500 pixels at the origin
    /// of the screen, with a border of 0.03 of the height.
    fn default() -> (plot: Plot)
        ensures
            plot == Plot::spec_new(
                Point { x: 800_000_000_000, y: 500_000_000_000 },
                Point { x: 0, y: 0 },
                Point { x: 18_750_000, y: 30_000_000 },
                plot.data,
            ),
            plot.data.is_empty(),
            plot.wf(),
    {
        let size = Point { x: 800_000_000_000, y: 500_000_000_000 };
        let border = Point { x: 18_750_000, y: 30_000_000 };
        assert(800_000_000_000int * 1_000_000_000 / 1_018_750_000 >= 1);
        assert(500_000_000_000int * 1_000_000_000 / 1_030_000_000 >= 1);
        Plot::assemble(size, Point { x: 0, y: 0 }, border)
    }
}

impl Plot {
    /// Plots the data as segments that join consecutive points, and fits
    /// the bounds to the data: to its box, with a margin of a tenth of its
    /// extent.  This succeeds whenever there is data and the fitted bounds
    /// are ordered.  Nothing changes where there is no data, or where the
    /// fitted bounds are rejected because the data has no extent on some
    /// axis.
    pub fn plot<T: Plotable>(&mut self, v: &T) -> (r: Result<(), PlotError>)
        requires
            old(self).wf(),
        ensures
            final(self).wf(),
            r is Ok <==> v.spec_points().len() > 0 && spec_ordered(spec_fitted(v.spec_points())),
            v.spec_points().len() == 0 <==> r == Err::<(), PlotError>(
                PlotError::InsufficientSamples,
            ),
            v.spec_points().len() > 0 && !spec_ordered(spec_fitted(v.spec_points())) <==> r
                == Err::<(), PlotError>(PlotError::InvalidBounds),
            r is Err ==> *final(self) == *old(self),
            r is Ok ==> *final(self) == (Plot {
                data: final(self).data,
                ..old(self).spec_set_bounds(
                    spec_fitted(v.spec_points()).lower,
                    spec_fitted(v.spec_points()).upper,
                )
            }),
            r is Ok ==> final(self).data.added_segments(
                old(self).data,
                v.spec_points(),
                spec_default_segment_look(),
            ),
            r is Ok ==> final(self).data.marker_groups == old(self).data.marker_groups,
            r is Ok ==> final(self).data.bezier_groups == old(self).data.bezier_groups,
    {
        let pf: PlotFormat = v.into_plot_format();
        let fitted: PlotBounds = match bounding_box(&pf.data) {
            None => {
                return Err(PlotError::InsufficientSamples);
            },
            Some(b) => padded(&b),
        };
        match self.set_bounds(fitted.lower, fitted.upper) {
            Err(e) => {
                return Err(e);
            },
            Ok(()) => {},
        }
        self.data.segment_groups.push(SegmentData::of(pf.data));
        Ok(())
    }

    /// Plots the data as markers, and fits the bounds to the data as `plot`
    /// does, succeeding and failing on the same data.
    pub fn plotm<T: Plotable>(&mut self, v: &T) -> (r: Result<(), PlotError>)
        requires
            old(self).wf(),
        ensures
            final(self).wf(),
            r is Ok <==> v.spec_points().len() > 0 && spec_ordered(spec_fitted(v.spec_points())),
            v.spec_points().len() == 0 <==> r == Err::<(), PlotError>(
                PlotError::InsufficientSamples,
            ),
            v.spec_points().len() > 0 && !spec_ordered(spec_fitted(v.spec_points())) <==> r
                == Err::<(), PlotError>(PlotError::InvalidBounds),
            r is Err ==> *final(self) == *old(self),
            r is Ok ==> *final(self) == (Plot {
                data: final(self).data,
                ..old(self).spec_set_bounds(
                    spec_fitted(v.spec_points()).lower,
                    spec_fitted(v.spec_points()).upper,
                )
            }),
            r is Ok ==> final(self).data.added_markers(
                old(self).data,
                v.spec_points(),
                spec_default_marker_look(),
            ),
            r is Ok ==> final(self).data.segment_groups == old(self).data.segment_groups,
            r is Ok ==> final(self).data.bezier_groups == old(self).data.bezier_groups,
    {
        let pf: PlotFormat = v.into_plot_format();
        let fitted: PlotBounds = match bounding_box(&pf.data) {
            None => {
                return Err(PlotError::InsufficientSamples);
            },
            Some(b) => padded(&b),
        };
        match self.set_bounds(fitted.lower, fitted.upper) {
            Err(e) => {
                return Err(e);
            },
            Ok(()) => {},
        }
        self.data.marker_groups.push(MarkerData::of(pf.data));
        Ok(())
    }

    /// Plots the data with options, and leaves the bounds as they are.  The
    /// data is plotted as segments unless an option hides the line, with
    /// the options of segments taken in their order; and as markers if an
    /// option is about the shape or the size of markers, with the options
    /// of markers taken in their order.
    pub fn plotopt<T: Plotable>(&mut self, v: &T, options: &Vec<Opt>)
        ensures
            *final(self) == (Plot { data: final(self).data, ..*old(self) }),
            final(self).data.bezier_groups == old(self).data.bezier_groups,
            spec_hides_line(options@) ==> final(self).data.segment_groups
                == old(self).data.segment_groups,
            !spec_hides_line(options@) ==> final(self).data.added_segments(
                old(self).data,
                v.spec_points(),
                spec_default_segment_look().spec_with_all(options@, options@.len() as int),
            ),
            !spec_asks_markers(options@) ==> final(self).data.marker_groups
                == old(self).data.marker_groups,
            spec_asks_markers(options@) ==> final(self).data.added_markers(
                old(self).data,
                v.spec_points(),
                spec_default_marker_look().spec_with_all(options@, options@.len() as int),
            ),
    {
        let pf: PlotFormat = v.into_plot_format();
        if !hides_line(options) {
            let mut segments = SegmentData::of(copy_points(&pf.data));
            let mut i: usize = 0;
            while i < options.len()
                invariant
                    0 <= i <= options.len(),
                    segments.data@ == pf.data@,
                    segments.look() == spec_default_segment_look().spec_with_all(
                        options@,
                        i as int,
                    ),
                decreases options.len() - i,
            {
                segments.apply(&options[i]);
                i = i + 1;
            }
            self.data.segment_groups.push(segments);
        }
        if asks_markers(options) {
            let mut markers = MarkerData::of(pf.data);
            let mut i: usize = 0;
            while i < options.len()
                invariant
                    0 <= i <= options.len(),
                    markers.data@ == v.spec_points(),
                    markers.look() == spec_default_marker_look().spec_with_all(
                        options@,
                        i as int,
                    ),
                decreases options.len() - i,
            {
                markers.apply(&options[i]);
                i = i + 1;
            }
            self.data.marker_groups.push(markers);
        }
    }

    /// Adds a function plot of the default look.  The host keeps the
    /// function under the number that is returned.
    pub fn plot_func(&mut self) -> (number: usize)
        ensures
            *final(self) == (Plot { data: final(self).data, ..*old(self) }),
            final(self).data.marker_groups == old(self).data.marker_groups,
            final(self).data.segment_groups == old(self).data.segment_groups,
            final(self).data.bezier_groups@ == old(self).data.bezier_groups@.push(
                spec_default_bezier(),
            ),
            number == old(self).data.bezier_groups@.len(),
    {
        let number: usize = self.data.bezier_groups.len();
        self.data.bezier_groups.push(BezierData::default());
        number
    }

    /// Adds a function plot with options: colour, size, line style, joints
    /// and animation are taken in their order, the options of markers are
    /// not.  The host keeps the function under the number that is
    /// returned.
    pub fn plotopt_func(&mut self, options: &Vec<Opt>) -> (number: usize)
        ensures
            *final(self) == (Plot { data: final(self).data, ..*old(self) }),
            final(self).data.marker_groups == old(self).data.marker_groups,
            final(self).data.segment_groups == old(self).data.segment_groups,
            final(self).data.bezier_groups@ == old(self).data.bezier_groups@.push(
                spec_default_bezier().spec_with_all(options@, options@.len() as int),
            ),
            number == old(self).data.bezier_groups@.len(),
    {
        let mut data = BezierData::default();
        let mut i: usize = 0;
        while i < options.len()
            invariant
                0 <= i <= options.len(),
                data == spec_default_bezier().spec_with_all(options@, i as int),
            decreases options.len() - i,
        {
            match options[i] {
                Opt::Color(c) => {
                    data.color = c;
                },
                Opt::Size(s) => {
                    data.size = s;
                },
                Opt::LineStyle(l) => {
                    data.line_style = l;
                },
                Opt::Mech(m) => {
                    data.mech = m;
                },
                Opt::Animate(a) => {
                    data.show_animation = a;
                },
                _ => {},
            }
            i = i + 1;
        }
        let number: usize = self.data.bezier_groups.len();
        self.data.bezier_groups.push(data);
        number
    }
}

} // verus!
