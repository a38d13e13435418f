//! What the mouse does to a plot: it drags the axes and the tick period,
//! zooms, places the target and resizes the canvas.
use crate::canvas::{GraphSprite, ResizePlotWindow, ZoomAxes};
use crate::error::PlotError;
use crate::fixed::{spec_times, tdiv, times, ONE};
use crate::geometry::Point;
use crate::plot::{canvas_is_valid, canvas_ok, Plot};
use vstd::prelude::*;

verus! {

/// Distance from a corner, in pixels, within which the mouse takes hold of
/// it.
pub const HOVER_RADIUS: i64 = 20_000_000_000;

/// Pixels of a drag that double the tick period.
pub const PIXELS_PER_TICK_FACTOR: i64 = 1000;

/// Sum of the first `n` of the vectors, each coordinate saturated at every
/// step.
pub open spec fn spec_sum(deltas: Seq<Point>, n: int) -> Point
    decreases n,
{
    if n <= 0 {
        Point { x: 0, y: 0 }
    } else {
        spec_sum(deltas, n - 1).spec_plus(deltas[n - 1])
    }
}

/// A tick period after a drag of `delta` pixels: multiplied by one plus a
/// thousandth of the drag.
pub open spec fn spec_dragged_tick(tick: int, delta: int) -> int {
    spec_times(tick, ONE + tdiv(delta, PIXELS_PER_TICK_FACTOR as int))
}

/// Sum of the vectors, each coordinate saturated at every step.
pub fn sum_deltas(deltas: &Vec<Point>) -> (sum: Point)
    ensures
        sum == spec_sum(deltas@, deltas.len() as int),
{
    let mut sum = Point { x: 0, y: 0 };
    let mut i: usize = 0;
    while i < deltas.len()
        invariant
            0 <= i <= deltas.len(),
            sum == spec_sum(deltas@, i as int),
        decreases deltas.len() - i,
    {
        sum = sum.plus(deltas[i]);
        i = i + 1;
    }
    sum
}

/// A tick period after a drag of `delta` pixels.
fn dragged_tick(tick: i64, delta: i64) -> (r: i64)
    ensures
        r == spec_dragged_tick(tick as int, delta as int),
{
    times(tick, ONE + delta / PIXELS_PER_TICK_FACTOR)
}

impl Plot {
    /// The tick period after a drag of `delta` pixels, before it is brought
    /// between its limits.
    pub open spec fn spec_dragged_ticks(self, delta: Point) -> Point {
        Point {
            x: spec_dragged_tick(self.tick_period.x as int, delta.x as int) as i64,
            y: spec_dragged_tick(self.tick_period.y as int, delta.y as int) as i64,
        }
    }

    /// The rectangle of the canvas of the plot, not yet resized.
    pub fn make_canvas(&self) -> (canvas: GraphSprite)
        ensures
            canvas == (GraphSprite {
                position: self.canvas_position,
                previous_position: self.canvas_position,
                original_size: self.canvas_size,
                scale: Point { x: ONE, y: ONE },
                previous_scale: Point { x: ONE, y: ONE },
                hover_radius: HOVER_RADIUS,
            }),
    {
        GraphSprite {
            position: self.canvas_position,
            previous_position: self.canvas_position,
            original_size: self.canvas_size,
            scale: Point { x: ONE, y: ONE },
            previous_scale: Point { x: ONE, y: ONE },
            hover_radius: HOVER_RADIUS,
        }
    }

    /// Gives the canvas a new size and computes the origin anew.  A size
    /// that leaves no inner region is rejected, and nothing changes.
    pub fn set_canvas_size(&mut self, size: Point) -> (r: Result<(), PlotError>)
        requires
            old(self).wf(),
        ensures
            final(self).wf(),
            r is Ok <==> canvas_ok(size, old(self).outer_border),
            r is Ok ==> *final(self) == (Plot { canvas_size: size, ..*old(self) }).refreshed(),
            r is Err ==> r == Err::<(), PlotError>(PlotError::InvalidCanvas) && *final(self)
                == *old(self),
    {
        if !canvas_is_valid(size, self.outer_border) {
            return Err(PlotError::InvalidCanvas);
        }
        self.canvas_size = size;
        self.compute_zeros();
        Ok(())
    }

    /// Gives the canvas a new border and computes the origin anew.  A
    /// border that is negative or leaves no inner region is rejected, and
    /// nothing changes.
    pub fn set_outer_border(&mut self, border: Point) -> (r: Result<(), PlotError>)
        requires
            old(self).wf(),
        ensures
            final(self).wf(),
            r is Ok <==> canvas_ok(old(self).canvas_size, border),
            r is Ok ==> *final(self) == (Plot { outer_border: border, ..*old(self) }).refreshed(),
            r is Err ==> r == Err::<(), PlotError>(PlotError::InvalidCanvas) && *final(self)
                == *old(self),
    {
        if !canvas_is_valid(self.canvas_size, border) {
            return Err(PlotError::InvalidCanvas);
        }
        self.outer_border = border;
        self.compute_zeros();
        Ok(())
    }

    /// Moves the canvas on the screen.
    pub fn set_canvas_position(&mut self, position: Point)
        requires
            old(self).wf(),
        ensures
            final(self).wf(),
            *final(self) == (Plot { canvas_position: position, ..*old(self) }),
    {
        self.canvas_position = position;
    }

    /// Resizes the canvas for a drag of `delta` since the resize began: the
    /// rectangle takes its new scale, and the plot the new size, unless
    /// that size leaves no inner region.
    pub fn adjust_graph_size(
        &mut self,
        canvas: &mut GraphSprite,
        resize: &ResizePlotWindow,
        delta: Point,
    ) -> (r: Result<(), PlotError>)
        requires
            old(self).wf(),
        ensures
            final(self).wf(),
            *final(canvas) == (GraphSprite {
                scale: resize.spec_scale_for(delta),
                ..*old(canvas)
            }),
            r is Ok <==> canvas_ok(final(canvas).spec_size(), old(self).outer_border),
            r is Ok ==> *final(self) == (Plot {
                canvas_size: final(canvas).spec_size(),
                ..*old(self)
            }).refreshed(),
            r is Err ==> r == Err::<(), PlotError>(PlotError::InvalidCanvas) && *final(self)
                == *old(self),
    {
        let size: Point = canvas.resize(resize, delta);
        self.set_canvas_size(size)
    }

    /// Records where the mouse is, in plot coordinates.
    pub fn track_mouse(&mut self, cursor: Point)
        requires
            old(self).wf(),
        ensures
            final(self).wf(),
            *final(self) == (Plot {
                plot_coord_mouse_pos: old(self).spec_world_to_plot(cursor),
                ..*old(self)
            }),
    {
        self.plot_coord_mouse_pos = self.world_to_plot(cursor);
    }

    /// Changes the tick period for a drag of `delta` pixels: each period is
    /// multiplied by one plus a thousandth of the drag along its axis, and
    /// then brought between its limits.
    pub fn drag_tick_period(&mut self, delta: Point)
        requires
            old(self).wf(),
        ensures
            final(self).wf(),
            *final(self) == (Plot {
                tick_period: (Plot {
                    tick_period: old(self).spec_dragged_ticks(delta),
                    ..*old(self)
                }).spec_clamped_tick(),
                ..*old(self)
            }),
    {
        self.tick_period = Point {
            x: dragged_tick(self.tick_period.x, delta.x),
            y: dragged_tick(self.tick_period.y, delta.y),
        };
        self.clamp_tick_period();
    }

    /// Moves the axes for the mouse movements of one frame: by their sum,
    /// unless that is zero.  Returns whether the bounds were moved.
    pub fn drag_axes(&mut self, deltas: &Vec<Point>) -> (moved: bool)
        requires
            old(self).wf(),
        ensures
            final(self).wf(),
            moved == (spec_sum(deltas@, deltas.len() as int) != (Point { x: 0, y: 0 })
                && old(self).can_pan(spec_sum(deltas@, deltas.len() as int))),
            moved ==> *final(self) == old(self).spec_move_axes(
                spec_sum(deltas@, deltas.len() as int),
            ),
            !moved ==> *final(self) == *old(self),
    {
        let sum: Point = sum_deltas(deltas);
        if sum.x == 0 && sum.y == 0 {
            return false;
        }
        self.move_axes(sum)
    }

    /// Zooms as the scroll asks, about the point under the mouse.
    pub fn apply_zoom(&mut self, zoom: &ZoomAxes) -> (zoomed: bool)
        requires
            old(self).wf(),
        ensures
            final(self).wf(),
            zoomed == old(self).can_zoom(zoom.wheel_dir, old(self).plot_coord_mouse_pos),
            zoomed ==> *final(self) == old(self).spec_zoom_axes(
                zoom.wheel_dir,
                old(self).plot_coord_mouse_pos,
            ),
            !zoomed ==> *final(self) == *old(self),
    {
        let pivot: Point = self.plot_coord_mouse_pos;
        self.zoom_axes(zoom.wheel_dir, pivot)
    }

    /// Switches the target on or off.
    pub fn toggle_target(&mut self)
        ensures
            *final(self) == (Plot { target_toggle: !old(self).target_toggle, ..*old(self) }),
    {
        self.target_toggle = !self.target_toggle;
    }

    /// Whether the target is drawn: it can be placed and is switched on.
    pub fn target_shown(&self) -> (b: bool)
        ensures
            b == (self.show_target && self.target_toggle),
    {
        self.show_target && self.target_toggle
    }

    /// Places the target under the mouse, and returns its position on the
    /// screen.
    pub fn place_target(&mut self, cursor: Point) -> (on_screen: Point)
        requires
            old(self).wf(),
        ensures
            final(self).wf(),
            *final(self) == (Plot {
                target_position: old(self).spec_world_to_plot(cursor),
                ..*old(self)
            }),
            on_screen == final(self).spec_target_on_screen(),
    {
        self.target_position = self.world_to_plot(cursor);
        self.target_on_screen()
    }

    /// Position of the target on the screen.
    pub open spec fn spec_target_on_screen(self) -> Point {
        self.spec_to_local(self.target_position).spec_plus(self.canvas_position)
    }

    /// Position of the target on the screen.
    pub fn target_on_screen(&self) -> (p: Point)
        requires
            self.wf(),
        ensures
            p == self.spec_target_on_screen(),
    {
        self.to_local(self.target_position).plus(self.canvas_position)
    }
}

} // verus!
