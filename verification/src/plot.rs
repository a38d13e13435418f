//! The coordinate transform of a plot: its bounds in plot space, its canvas
//! in screen space, and the conversions between the two.
use crate::error::PlotError;
use crate::fixed::{clamp64, clamp_wide, scale, span, spec_scale, tdiv, widen_product, ONE};
use crate::geometry::Point;
use crate::style::{Color, PlotData};
use crate::ticks::{clamp_tick, nice_tick, spec_clamp_tick, spec_nice_tick};
use vstd::prelude::*;

verus! {

/// The part of plot space that the canvas shows.
#[derive(Clone, Copy, Debug, PartialEq, Eq, Structural)]
pub struct PlotBounds {
    pub lower: Point,
    pub upper: Point,
}

/// Size of the inner region of a canvas along one axis: the canvas size
/// divided by one plus the border.
pub open spec fn spec_inner(size: int, border: int) -> int {
    spec_scale(size, ONE as int, ONE + border)
}

/// Screen position of the plot-space origin along one axis, before it is
/// saturated: the lower edge of the inner region, minus the scaled lower
/// bound.
pub open spec fn spec_zero_exact(lo: int, range: int, inner: int) -> int {
    -tdiv(inner, 2) - tdiv(lo * inner, range)
}

/// Screen position of the plot-space origin along one axis.
pub open spec fn spec_zero(lo: int, range: int, inner: int) -> int {
    clamp64(spec_zero_exact(lo, range, inner))
}

/// Screen position, relative to the canvas, of the plot coordinate `p`.
pub open spec fn spec_local(zero: int, p: int, inner: int, range: int) -> int {
    clamp64(zero + tdiv(p * inner, range))
}

/// Plot coordinate of the screen position `w`.
pub open spec fn spec_plot(w: int, zero: int, position: int, inner: int, range: int) -> int {
    clamp64(tdiv(clamp64(w - zero - position) * range, inner))
}

/// Plot-space distance that `delta` pixels stand for.
pub open spec fn spec_shift(delta: int, range: int, inner: int) -> int {
    tdiv(delta * range, inner)
}

/// The zoom multiplier for a scroll of `direction`: one plus a tenth of it.
pub open spec fn spec_multiplier(direction: int) -> int {
    ONE + tdiv(direction, 10)
}

/// The distance `d` from the pivot, multiplied by `m`.
pub open spec fn spec_stretch(d: int, m: int) -> int {
    tdiv(d * m, ONE as int)
}

/// Whether `v` is in the range of a coordinate.
pub open spec fn fits(v: int) -> bool {
    i64::MIN <= v <= i64::MAX
}

/// One axis of a plot: what the transform along it depends on.
pub struct Axis {
    pub lo: int,
    pub up: int,
    pub size: int,
    pub border: int,
    pub position: int,
}

impl Axis {
    /// Length of the interval that the axis shows.
    pub open spec fn range(self) -> int {
        self.up - self.lo
    }

    /// Size of the inner region of the canvas.
    pub open spec fn inner(self) -> int {
        spec_inner(self.size, self.border)
    }

    /// The bounds are ordered.
    pub open spec fn ordered(self) -> bool {
        fits(self.lo) && fits(self.up) && self.lo < self.up
    }

    /// The canvas has a border that is not negative and an inner region.
    pub open spec fn canvas_ok(self) -> bool {
        fits(self.size) && fits(self.border) && fits(self.position) && self.border >= 0
            && self.inner() >= 1
    }

    /// The axis can be transformed along: its bounds are ordered and its
    /// canvas has an inner region.
    pub open spec fn valid(self) -> bool {
        self.ordered() && self.canvas_ok()
    }

    /// Screen position of the origin, before it is saturated.
    pub open spec fn zero_exact(self) -> int {
        spec_zero_exact(self.lo, self.range(), self.inner())
    }

    /// Screen position of the origin.
    pub open spec fn zero(self) -> int {
        spec_zero(self.lo, self.range(), self.inner())
    }

    /// Screen position, relative to the canvas, of the plot coordinate `p`.
    pub open spec fn to_local(self, p: int) -> int {
        spec_local(self.zero(), p, self.inner(), self.range())
    }

    /// Plot coordinate of the screen position `w`.
    pub open spec fn to_plot(self, w: int) -> int {
        spec_plot(w, self.zero(), self.position, self.inner(), self.range())
    }

    /// Plot-space distance that `delta` pixels stand for.
    pub open spec fn shift(self, delta: int) -> int {
        spec_shift(delta, self.range(), self.inner())
    }

    /// The axis with both bounds moved by `s`.
    pub open spec fn moved(self, s: int) -> Axis {
        Axis { lo: self.lo + s, up: self.up + s, ..self }
    }

    /// The axis after a zoom by the multiplier `m` that keeps `pivot` in
    /// place.
    pub open spec fn zoomed(self, m: int, pivot: int) -> Axis {
        Axis {
            lo: pivot - spec_stretch(pivot - self.lo, m),
            up: pivot + spec_stretch(self.up - pivot, m),
            ..self
        }
    }
}

/// A plot: the bounds it shows, the canvas it is drawn on, its grid, the
/// switches and colours of its display, and the data it holds.
#[derive(Clone, Debug, PartialEq, Eq)]
pub struct Plot {
    /// Mouse position in plot coordinates.
    pub plot_coord_mouse_pos: Point,
    /// Position of the centre of the canvas on the screen.
    pub canvas_position: Point,
    /// Distance between consecutive grid lines.
    pub tick_period: Point,
    /// Size of the margins as a fraction of the inner region.
    pub outer_border: Point,
    /// Size of the canvas in pixels.
    pub canvas_size: Point,
    /// Colour of the even tiles of the background.
    pub background_color1: Color,
    /// Colour of the odd tiles of the background.
    pub background_color2: Color,
    /// Whether the grid is shown.
    pub show_grid: bool,
    /// Screen position of the plot-space origin, relative to the canvas.
    pub zero_world: Point,
    /// Time handed to animated curves.
    pub time: i64,
    /// The cumulative zoom factor.
    pub zoom: i64,
    /// Hides the contour around the canvas.
    pub hide_contour: bool,
    /// Hides the numeric labels beside the grid lines.
    pub hide_tick_labels: bool,
    /// Hides every other tick label.
    pub hide_half_ticks: bool,
    /// Colour of the tick labels.
    pub tick_label_color: Color,
    /// Number of digits after the decimal point of a tick label.
    pub significant_digits: usize,
    /// Whether a target can be placed on the canvas.
    pub show_target: bool,
    /// Colour of the label of the target.
    pub target_label_color: Color,
    /// Colour of the target.
    pub target_color: Color,
    /// Number of digits after the decimal point of the target's label.
    pub target_significant_digits: usize,
    /// Whether the axes are shown.
    pub show_axes: bool,
    /// Number of samples taken of a function.
    pub bezier_num_points: usize,
    /// What the plot shows.
    pub data: PlotData,
    /// Position of the target in plot coordinates.
    pub target_position: Point,
    /// Whether the target is switched on.
    pub target_toggle: bool,
    /// The part of plot space that the canvas shows.
    pub bounds: PlotBounds,
}

impl Plot {
    /// The horizontal axis.
    pub open spec fn axis_x(self) -> Axis {
        Axis {
            lo: self.bounds.lower.x as int,
            up: self.bounds.upper.x as int,
            size: self.canvas_size.x as int,
            border: self.outer_border.x as int,
            position: self.canvas_position.x as int,
        }
    }

    /// The vertical axis.
    pub open spec fn axis_y(self) -> Axis {
        Axis {
            lo: self.bounds.lower.y as int,
            up: self.bounds.upper.y as int,
            size: self.canvas_size.y as int,
            border: self.outer_border.y as int,
            position: self.canvas_position.y as int,
        }
    }

    /// The bounds are ordered and the canvas has an inner region.
    pub open spec fn geometry_ok(self) -> bool {
        self.axis_x().valid() && self.axis_y().valid()
    }

    /// The cached origin is the one that the bounds and the canvas give.
    pub open spec fn zero_fresh(self) -> bool {
        self.zero_world.x == self.axis_x().zero() && self.zero_world.y == self.axis_y().zero()
    }

    /// Well-formedness: what every operation keeps.
    pub open spec fn wf(self) -> bool {
        self.geometry_ok() && self.zero_fresh()
    }

    /// The origin as the bounds and the canvas give it.
    pub open spec fn spec_zero_world(self) -> Point {
        Point { x: self.axis_x().zero() as i64, y: self.axis_y().zero() as i64 }
    }

    /// The plot with its origin computed anew.
    pub open spec fn refreshed(self) -> Plot {
        Plot { zero_world: self.spec_zero_world(), ..self }
    }

    /// Size of the inner region of the canvas.
    pub open spec fn spec_inner_size(self) -> Point {
        Point { x: self.axis_x().inner() as i64, y: self.axis_y().inner() as i64 }
    }

    /// Screen position, relative to the canvas, of the plot-space point `v`.
    pub open spec fn spec_to_local(self, v: Point) -> Point {
        Point {
            x: self.axis_x().to_local(v.x as int) as i64,
            y: self.axis_y().to_local(v.y as int) as i64,
        }
    }

    /// Plot-space point at the screen position `w`.
    pub open spec fn spec_world_to_plot(self, w: Point) -> Point {
        Point {
            x: self.axis_x().to_plot(w.x as int) as i64,
            y: self.axis_y().to_plot(w.y as int) as i64,
        }
    }

    /// The tick period brought between its limits on both axes.
    pub open spec fn spec_clamped_tick(self) -> Point {
        Point {
            x: spec_clamp_tick(self.tick_period.x as int, self.axis_x().range()) as i64,
            y: spec_clamp_tick(self.tick_period.y as int, self.axis_y().range()) as i64,
        }
    }

    /// The plot after its bounds were set to `lower` and `upper`.
    pub open spec fn spec_set_bounds(self, lower: Point, upper: Point) -> Plot {
        Plot {
            bounds: PlotBounds { lower, upper },
            tick_period: Point {
                x: spec_nice_tick(upper.x - lower.x) as i64,
                y: spec_nice_tick(upper.y - lower.y) as i64,
            },
            ..self
        }.refreshed()
    }

    /// Horizontal shift of the bounds for a drag of `delta`: against the
    /// drag.
    pub open spec fn pan_x(self, delta: Point) -> int {
        -self.axis_x().shift(delta.x as int)
    }

    /// Vertical shift of the bounds for a drag of `delta`.
    pub open spec fn pan_y(self, delta: Point) -> int {
        self.axis_y().shift(delta.y as int)
    }

    /// Whether the bounds moved by a drag of `delta` are still coordinates.
    pub open spec fn can_pan(self, delta: Point) -> bool {
        &&& fits(self.bounds.lower.x + self.pan_x(delta))
        &&& fits(self.bounds.upper.x + self.pan_x(delta))
        &&& fits(self.bounds.lower.y + self.pan_y(delta))
        &&& fits(self.bounds.upper.y + self.pan_y(delta))
    }

    /// The bounds after a drag of `delta`.
    pub open spec fn spec_panned_bounds(self, delta: Point) -> PlotBounds {
        PlotBounds {
            lower: Point {
                x: (self.bounds.lower.x + self.pan_x(delta)) as i64,
                y: (self.bounds.lower.y + self.pan_y(delta)) as i64,
            },
            upper: Point {
                x: (self.bounds.upper.x + self.pan_x(delta)) as i64,
                y: (self.bounds.upper.y + self.pan_y(delta)) as i64,
            },
        }
    }

    /// The plot after a drag of `delta` that `can_pan` admits.
    pub open spec fn spec_move_axes(self, delta: Point) -> Plot {
        let moved = Plot { bounds: self.spec_panned_bounds(delta), ..self };
        Plot { tick_period: moved.spec_clamped_tick(), ..moved }.refreshed()
    }

    /// Whether the bounds zoomed by `direction` about `pivot` are ordered
    /// coordinates.
    pub open spec fn can_zoom(self, direction: i64, pivot: Point) -> bool {
        &&& self.axis_x().zoomed(spec_multiplier(direction as int), pivot.x as int).ordered()
        &&& self.axis_y().zoomed(spec_multiplier(direction as int), pivot.y as int).ordered()
    }

    /// The bounds after a zoom by `direction` about `pivot`.
    pub open spec fn spec_zoomed_bounds(self, direction: i64, pivot: Point) -> PlotBounds {
        let ax = self.axis_x().zoomed(spec_multiplier(direction as int), pivot.x as int);
        let ay = self.axis_y().zoomed(spec_multiplier(direction as int), pivot.y as int);
        PlotBounds {
            lower: Point { x: ax.lo as i64, y: ay.lo as i64 },
            upper: Point { x: ax.up as i64, y: ay.up as i64 },
        }
    }

    /// The plot after a zoom by `direction` about `pivot` that `can_zoom`
    /// admits.
    pub open spec fn spec_zoom_axes(self, direction: i64, pivot: Point) -> Plot {
        let zoomed = Plot {
            bounds: self.spec_zoomed_bounds(direction, pivot),
            zoom: clamp64(spec_stretch(self.zoom as int, spec_multiplier(direction as int))) as i64,
            ..self
        };
        Plot { tick_period: zoomed.spec_clamped_tick(), ..zoomed }.refreshed()
    }

    /// A plot on a canvas of the given size, position and border, with no
    /// data, the bounds from -0.2 to 1.2 on both axes and a tick period of
    /// 0.2.
    pub fn new(canvas_size: Point, canvas_position: Point, outer_border: Point) -> (r: Result<
        Plot,
        PlotError,
    >)
        ensures
            r is Ok <==> canvas_ok(canvas_size, outer_border),
            r is Ok ==> r->Ok_0 == Plot::spec_new(
                canvas_size,
                canvas_position,
                outer_border,
                r->Ok_0.data,
            ) && r->Ok_0.data.is_empty() && r->Ok_0.wf(),
            r is Err ==> r == Err::<Plot, PlotError>(PlotError::InvalidCanvas),
    {
        if !canvas_is_valid(canvas_size, outer_border) {
            return Err(PlotError::InvalidCanvas);
        }
        Ok(Plot::assemble(canvas_size, canvas_position, outer_border))
    }

    /// The plot that `new` makes, of a canvas that is known to be valid.
    pub(crate) fn assemble(canvas_size: Point, canvas_position: Point, outer_border: Point) -> (plot:
        Plot)
        requires
            canvas_ok(canvas_size, outer_border),
        ensures
            plot == Plot::spec_new(canvas_size, canvas_position, outer_border, plot.data),
            plot.data.is_empty(),
            plot.wf(),
    {
        let mut plot = Plot {
            plot_coord_mouse_pos: Point { x: 0, y: 0 },
            canvas_position,
            tick_period: Point { x: 200_000_000, y: 200_000_000 },
            outer_border,
            canvas_size,
            background_color1: Color::rgba(48_000_000, 4_680_000, 74_400_000, ONE),
            background_color2: Color::rgba(24_400_000, 2_300_000, 37_200_000, ONE),
            show_grid: true,
            zero_world: Point { x: 0, y: 0 },
            time: 0,
            zoom: ONE,
            hide_contour: false,
            hide_tick_labels: false,
            hide_half_ticks: true,
            tick_label_color: Color::black(),
            significant_digits: 2,
            show_target: false,
            target_label_color: Color::gray(),
            target_color: Color::gray(),
            target_significant_digits: 2,
            show_axes: true,
            bezier_num_points: 100,
            data: PlotData::default(),
            target_position: Point { x: 0, y: 0 },
            target_toggle: false,
            bounds: PlotBounds {
                lower: Point { x: -200_000_000, y: -200_000_000 },
                upper: Point { x: 1_200_000_000, y: 1_200_000_000 },
            },
        };
        plot.compute_zeros();
        plot
    }

    /// The plot that `new` makes of a valid canvas, holding `data`.
    pub open spec fn spec_new(
        canvas_size: Point,
        canvas_position: Point,
        outer_border: Point,
        data: PlotData,
    ) -> Plot {
        Plot {
            plot_coord_mouse_pos: Point { x: 0, y: 0 },
            canvas_position,
            tick_period: Point { x: 200_000_000, y: 200_000_000 },
            outer_border,
            canvas_size,
            background_color1: Color {
                red: 48_000_000,
                green: 4_680_000,
                blue: 74_400_000,
                alpha: ONE,
            },
            background_color2: Color {
                red: 24_400_000,
                green: 2_300_000,
                blue: 37_200_000,
                alpha: ONE,
            },
            show_grid: true,
            zero_world: Point { x: 0, y: 0 },
            time: 0,
            zoom: ONE,
            hide_contour: false,
            hide_tick_labels: false,
            hide_half_ticks: true,
            tick_label_color: Color { red: 0, green: 0, blue: 0, alpha: ONE },
            significant_digits: 2,
            show_target: false,
            target_label_color: Color {
                red: 500_000_000,
                green: 500_000_000,
                blue: 500_000_000,
                alpha: ONE,
            },
            target_color: Color {
                red: 500_000_000,
                green: 500_000_000,
                blue: 500_000_000,
                alpha: ONE,
            },
            target_significant_digits: 2,
            show_axes: true,
            bezier_num_points: 100,
            data,
            target_position: Point { x: 0, y: 0 },
            target_toggle: false,
            bounds: PlotBounds {
                lower: Point { x: -200_000_000i64, y: -200_000_000i64 },
                upper: Point { x: 1_200_000_000, y: 1_200_000_000 },
            },
        }.refreshed()
    }

    /// Whether the plot is well-formed: ordered bounds, a canvas with an
    /// inner region, a fresh origin.
    pub fn is_wf(&self) -> (b: bool)
        ensures
            b == self.wf(),
    {
        if !(self.bounds.lower.x < self.bounds.upper.x && self.bounds.lower.y
            < self.bounds.upper.y) {
            return false;
        }
        if !canvas_is_valid(self.canvas_size, self.outer_border) {
            return false;
        }
        let zero: Point = self.fresh_zero();
        self.zero_world.x == zero.x && self.zero_world.y == zero.y
    }

    /// Whether the bounds are ordered and the canvas has an inner region.
    pub fn geometry_is_ok(&self) -> (b: bool)
        ensures
            b == self.geometry_ok(),
    {
        self.bounds.lower.x < self.bounds.upper.x && self.bounds.lower.y < self.bounds.upper.y
            && canvas_is_valid(self.canvas_size, self.outer_border)
    }

    /// Makes the plot well-formed again after its fields were written to:
    /// computes the origin anew if the bounds are ordered and the canvas
    /// has an inner region, and says whether they are.
    pub fn refresh(&mut self) -> (b: bool)
        ensures
            b == old(self).geometry_ok(),
            b ==> *final(self) == old(self).refreshed() && final(self).wf(),
            !b ==> *final(self) == *old(self),
    {
        if !self.geometry_is_ok() {
            return false;
        }
        self.compute_zeros();
        true
    }

    /// The origin as the bounds and the canvas give it.
    fn fresh_zero(&self) -> (z: Point)
        requires
            self.geometry_ok(),
        ensures
            z == self.spec_zero_world(),
    {
        let inner: Point = self.inner_size();
        Point {
            x: zero_of(
                self.bounds.lower.x,
                span(self.bounds.lower.x, self.bounds.upper.x),
                inner.x,
            ),
            y: zero_of(
                self.bounds.lower.y,
                span(self.bounds.lower.y, self.bounds.upper.y),
                inner.y,
            ),
        }
    }

    /// Size of the inner region of the canvas: the canvas size divided by
    /// one plus the border.
    pub fn inner_size(&self) -> (r: Point)
        requires
            self.geometry_ok(),
        ensures
            r == self.spec_inner_size(),
            r.x >= 1,
            r.y >= 1,
    {
        Point {
            x: inner_of(self.canvas_size.x, self.outer_border.x),
            y: inner_of(self.canvas_size.y, self.outer_border.y),
        }
    }

    /// Extent of the bounds along each axis, saturated.
    pub fn delta_axes(&self) -> (r: Point)
        ensures
            r == self.bounds.upper.spec_minus(self.bounds.lower),
    {
        self.bounds.upper.minus(self.bounds.lower)
    }

    /// Computes the cached origin anew, after the bounds or the canvas
    /// changed.
    pub fn compute_zeros(&mut self)
        requires
            old(self).geometry_ok(),
        ensures
            *final(self) == old(self).refreshed(),
            final(self).wf(),
    {
        let zero: Point = self.fresh_zero();
        self.zero_world = zero;
    }

    /// Converts a point of plot space to its screen position relative to
    /// the canvas.
    pub fn to_local(&self, v: Point) -> (r: Point)
        requires
            self.wf(),
        ensures
            r == self.spec_to_local(v),
    {
        let inner: Point = self.inner_size();
        Point {
            x: local_of(
                self.zero_world.x,
                v.x,
                inner.x,
                span(self.bounds.lower.x, self.bounds.upper.x),
            ),
            y: local_of(
                self.zero_world.y,
                v.y,
                inner.y,
                span(self.bounds.lower.y, self.bounds.upper.y),
            ),
        }
    }

    /// Converts a screen position to the point of plot space shown there.
    pub fn world_to_plot(&self, w: Point) -> (r: Point)
        requires
            self.wf(),
        ensures
            r == self.spec_world_to_plot(w),
    {
        let inner: Point = self.inner_size();
        Point {
            x: plot_of(
                w.x,
                self.zero_world.x,
                self.canvas_position.x,
                inner.x,
                span(self.bounds.lower.x, self.bounds.upper.x),
            ),
            y: plot_of(
                w.y,
                self.zero_world.y,
                self.canvas_position.y,
                inner.y,
                span(self.bounds.lower.y, self.bounds.upper.y),
            ),
        }
    }

    /// Screen positions, relative to the canvas, of the two corners of the
    /// bounds.
    pub fn compute_bounds_world(&self) -> (r: PlotBounds)
        requires
            self.wf(),
        ensures
            r.lower == self.spec_to_local(self.bounds.lower),
            r.upper == self.spec_to_local(self.bounds.upper),
    {
        let lower: Point = self.to_local(self.bounds.lower);
        let upper: Point = self.to_local(self.bounds.upper);
        PlotBounds { lower, upper }
    }

    /// Brings the tick period between a fifteenth of the range and a
    /// million times the range, on each axis.
    pub fn clamp_tick_period(&mut self)
        requires
            old(self).wf(),
        ensures
            *final(self) == (Plot { tick_period: old(self).spec_clamped_tick(), ..*old(self) }),
            final(self).wf(),
    {
        let tx: i64 = clamp_tick(
            self.tick_period.x,
            span(self.bounds.lower.x, self.bounds.upper.x),
        );
        let ty: i64 = clamp_tick(
            self.tick_period.y,
            span(self.bounds.lower.y, self.bounds.upper.y),
        );
        self.tick_period = Point { x: tx, y: ty };
    }

    /// Sets the bounds, and with them the tick period and the origin.  The
    /// bounds are rejected, and nothing changes, unless the lower one is
    /// strictly below the upper one on both axes.
    pub fn set_bounds(&mut self, lower: Point, upper: Point) -> (r: Result<(), PlotError>)
        requires
            old(self).wf(),
        ensures
            r is Ok <==> lower.x < upper.x && lower.y < upper.y,
            r is Ok ==> *final(self) == old(self).spec_set_bounds(lower, upper),
            r is Err ==> r == Err::<(), PlotError>(PlotError::InvalidBounds) && *final(self)
                == *old(self),
            final(self).wf(),
    {
        if lower.x >= upper.x || lower.y >= upper.y {
            return Err(PlotError::InvalidBounds);
        }
        self.bounds = PlotBounds { lower, upper };
        self.tick_period = Point {
            x: nice_tick(span(lower.x, upper.x)),
            y: nice_tick(span(lower.y, upper.y)),
        };
        self.compute_zeros();
        Ok(())
    }

    /// Moves the bounds for a drag of `delta` pixels: by the plot-space
    /// distance that the drag stands for, against the drag horizontally and
    /// with it vertically.  Returns whether the bounds were moved; they stay
    /// where they are if a moved bound would leave the range of coordinates.
    pub fn move_axes(&mut self, delta: Point) -> (moved: bool)
        requires
            old(self).wf(),
        ensures
            moved == old(self).can_pan(delta),
            moved ==> *final(self) == old(self).spec_move_axes(delta),
            !moved ==> *final(self) == *old(self),
            final(self).wf(),
    {
        let inner: Point = self.inner_size();
        let sx: i128 = -shift_of(
            delta.x,
            span(self.bounds.lower.x, self.bounds.upper.x),
            inner.x,
        );
        let sy: i128 = shift_of(
            delta.y,
            span(self.bounds.lower.y, self.bounds.upper.y),
            inner.y,
        );
        let lx: i128 = self.bounds.lower.x as i128 + sx;
        let ux: i128 = self.bounds.upper.x as i128 + sx;
        let ly: i128 = self.bounds.lower.y as i128 + sy;
        let uy: i128 = self.bounds.upper.y as i128 + sy;
        if !(in_range(lx) && in_range(ux) && in_range(ly) && in_range(uy)) {
            return false;
        }
        self.bounds = PlotBounds {
            lower: Point { x: lx as i64, y: ly as i64 },
            upper: Point { x: ux as i64, y: uy as i64 },
        };
        self.finish_bounds_change();
        true
    }

    /// Zooms by `direction` about `pivot`: the distances of the bounds from
    /// the pivot are multiplied by one plus a tenth of `direction`, and so
    /// is the cumulative zoom factor.  Returns whether the plot was zoomed;
    /// it stays as it is if the new bounds would not be ordered coordinates.
    pub fn zoom_axes(&mut self, direction: i64, pivot: Point) -> (zoomed: bool)
        requires
            old(self).wf(),
        ensures
            zoomed == old(self).can_zoom(direction, pivot),
            zoomed ==> *final(self) == old(self).spec_zoom_axes(direction, pivot),
            !zoomed ==> *final(self) == *old(self),
            final(self).wf(),
    {
        let m: i64 = multiplier(direction);
        let lx: i128 = pivot.x as i128 - stretch(pivot.x as i128 - self.bounds.lower.x as i128, m);
        let ux: i128 = pivot.x as i128 + stretch(self.bounds.upper.x as i128 - pivot.x as i128, m);
        let ly: i128 = pivot.y as i128 - stretch(pivot.y as i128 - self.bounds.lower.y as i128, m);
        let uy: i128 = pivot.y as i128 + stretch(self.bounds.upper.y as i128 - pivot.y as i128, m);
        if !(in_range(lx) && in_range(ux) && in_range(ly) && in_range(uy) && lx < ux && ly
            < uy) {
            return false;
        }
        self.bounds = PlotBounds {
            lower: Point { x: lx as i64, y: ly as i64 },
            upper: Point { x: ux as i64, y: uy as i64 },
        };
        self.zoom = clamp_wide(stretch(self.zoom as i128, m));
        self.finish_bounds_change();
        true
    }

    /// After the bounds moved: clamps the tick period and computes the
    /// origin anew.
    fn finish_bounds_change(&mut self)
        requires
            old(self).geometry_ok(),
        ensures
            *final(self) == (Plot {
                tick_period: old(self).spec_clamped_tick(),
                ..*old(self)
            }).refreshed(),
            final(self).wf(),
    {
        let tx: i64 = clamp_tick(
            self.tick_period.x,
            span(self.bounds.lower.x, self.bounds.upper.x),
        );
        let ty: i64 = clamp_tick(
            self.tick_period.y,
            span(self.bounds.lower.y, self.bounds.upper.y),
        );
        self.tick_period = Point { x: tx, y: ty };
        self.compute_zeros();
    }
}

/// Whether a wide integer is in the range of a coordinate.
fn in_range(v: i128) -> (b: bool)
    ensures
        b == fits(v as int),
{
    i64::MIN as i128 <= v && v <= i64::MAX as i128
}

/// Whether a canvas of this size and border has an inner region of at least
/// one unit on each axis, and no negative border.
pub open spec fn canvas_ok(canvas_size: Point, outer_border: Point) -> bool {
    &&& outer_border.x >= 0
    &&& outer_border.y >= 0
    &&& spec_inner(canvas_size.x as int, outer_border.x as int) >= 1
    &&& spec_inner(canvas_size.y as int, outer_border.y as int) >= 1
}

/// Whether a canvas of this size and border has an inner region of at least
/// one unit on each axis, and no negative border.
pub fn canvas_is_valid(canvas_size: Point, outer_border: Point) -> (b: bool)
    ensures
        b == canvas_ok(canvas_size, outer_border),
{
    if outer_border.x < 0 || outer_border.y < 0 {
        return false;
    }
    inner_of(canvas_size.x, outer_border.x) >= 1 && inner_of(canvas_size.y, outer_border.y) >= 1
}

/// Size of the inner region along one axis.
pub(crate) fn inner_of(size: i64, border: i64) -> (r: i64)
    requires
        border >= 0,
    ensures
        r == spec_inner(size as int, border as int),
{
    scale(size, ONE as u64, ONE as u64 + border as u64)
}

/// Screen position of the origin along one axis.
pub(crate) fn zero_of(lo: i64, range: u64, inner: i64) -> (r: i64)
    requires
        range > 0,
        inner >= 1,
    ensures
        r == spec_zero(lo as int, range as int, inner as int),
{
    let product: i128 = widen_product(lo, inner as u64);
    proof {
        crate::fixed::lemma_tdiv_magnitude(product as int, range as int);
    }
    let scaled: i128 = product / (range as i128);
    let half: i128 = (inner / 2) as i128;
    clamp_wide(-half - scaled)
}

/// Screen position of a plot coordinate along one axis.
pub(crate) fn local_of(zero: i64, p: i64, inner: i64, range: u64) -> (r: i64)
    requires
        range > 0,
        inner >= 1,
    ensures
        r == spec_local(zero as int, p as int, inner as int, range as int),
{
    let product: i128 = widen_product(p, inner as u64);
    proof {
        crate::fixed::lemma_tdiv_magnitude(product as int, range as int);
    }
    let scaled: i128 = product / (range as i128);
    clamp_wide(zero as i128 + scaled)
}

/// Plot coordinate of a screen position along one axis.
fn plot_of(w: i64, zero: i64, position: i64, inner: i64, range: u64) -> (r: i64)
    requires
        range > 0,
        inner >= 1,
    ensures
        r == spec_plot(w as int, zero as int, position as int, inner as int, range as int),
{
    let d: i64 = clamp_wide(w as i128 - zero as i128 - position as i128);
    scale(d, range, inner as u64)
}

/// Plot-space distance that `delta` pixels stand for along one axis.
fn shift_of(delta: i64, range: u64, inner: i64) -> (r: i128)
    requires
        range > 0,
        inner >= 1,
    ensures
        r == spec_shift(delta as int, range as int, inner as int),
        -0x8000_0000_0000_0000 * 0xffff_ffff_ffff_ffff <= r <= 0x7fff_ffff_ffff_ffff
            * 0xffff_ffff_ffff_ffff,
{
    let product: i128 = widen_product(delta, range);
    proof {
        crate::fixed::lemma_tdiv_magnitude(product as int, inner as int);
    }
    product / (inner as i128)
}

/// The zoom multiplier for a scroll of `direction`.
fn multiplier(direction: i64) -> (m: i64)
    ensures
        m == spec_multiplier(direction as int),
        -0x1000_0000_0000_0000 <= m <= 0x1000_0000_0000_0000,
{
    ONE + direction / 10
}

/// A distance from the pivot multiplied by `m`.
fn stretch(d: i128, m: i64) -> (r: i128)
    requires
        -0x1_0000_0000_0000_0000 <= d <= 0x1_0000_0000_0000_0000,
        -0x1000_0000_0000_0000 <= m <= 0x1000_0000_0000_0000,
    ensures
        r == spec_stretch(d as int, m as int),
        -0x1_0000_0000_0000_0000 * 0x1000_0000_0000_0000 <= r <= 0x1_0000_0000_0000_0000
            * 0x1000_0000_0000_0000,
{
    let wide: i128 = m as i128;
    assert(-0x1_0000_0000_0000_0000 * 0x1000_0000_0000_0000 <= d * wide
        <= 0x1_0000_0000_0000_0000 * 0x1000_0000_0000_0000) by (nonlinear_arith)
        requires
            -0x1_0000_0000_0000_0000 <= d <= 0x1_0000_0000_0000_0000,
            -0x1000_0000_0000_0000 <= wide <= 0x1000_0000_0000_0000,
    ;
    proof {
        crate::fixed::lemma_tdiv_magnitude(d * wide, ONE as int);
    }
    (d * wide) / (ONE as i128)
}

} // verus!
