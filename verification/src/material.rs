//! The parameters that the shaders take: of the canvas, of a curve, of
//! segments and of markers.
use crate::bezier::Position;
use crate::canvas::{spec_within, within};
use crate::fixed::ONE;
use crate::geometry::Point;
use crate::plot::Plot;
use crate::style::{BezierData, Color, MarkerData, SegmentData};
use vstd::prelude::*;

verus! {

/// A switch as a shader takes it: one for on, zero for off.
pub open spec fn spec_flag(on: bool) -> i64 {
    if on {
        ONE
    } else {
        0
    }
}

/// A switch as a shader takes it.
pub fn flag(on: bool) -> (f: i64)
    ensures
        f == spec_flag(on),
{
    if on {
        ONE
    } else {
        0
    }
}

/// Side of the quad on which a marker is drawn.
pub const MARKER_QUAD_SIZE: i64 = 30_000_000_000;

/// Depth at which markers are drawn.
pub const MARKER_DEPTH: i64 = 1_010_000_000;

/// Parameters of the canvas shader.
#[derive(Clone, Copy, Debug, PartialEq, Eq, Structural)]
pub struct CanvasMaterial {
    pub position: Point,
    /// Position of the mouse on the screen.
    pub mouse_pos: Point,
    pub tick_period: Point,
    pub bound_up: Point,
    pub bound_lo: Point,
    pub time: i64,
    pub zoom: i64,
    pub size: Point,
    pub outer_border: Point,
    pub show_target: i64,
    pub hide_contour: i64,
    /// Position of the target on the screen.
    pub target_pos: Point,
    pub background_color1: Color,
    pub background_color2: Color,
    pub target_color: Color,
    pub show_grid: i64,
    pub show_axes: i64,
}

impl CanvasMaterial {
    /// The parameters for a plot that was not shown yet: those of the
    /// plot, with the mouse and the target at the origin, the time at zero
    /// and the zoom at one.
    pub open spec fn spec_new(plot: Plot) -> CanvasMaterial {
        CanvasMaterial {
            position: plot.canvas_position,
            mouse_pos: Point { x: 0, y: 0 },
            tick_period: plot.tick_period,
            bound_up: plot.bounds.upper,
            bound_lo: plot.bounds.lower,
            time: 0,
            zoom: ONE,
            size: plot.canvas_size,
            outer_border: plot.outer_border,
            show_target: spec_flag(plot.show_target && plot.target_toggle),
            hide_contour: spec_flag(plot.hide_contour),
            target_pos: Point { x: 0, y: 0 },
            background_color1: plot.background_color1,
            background_color2: plot.background_color2,
            target_color: plot.target_color,
            show_grid: spec_flag(plot.show_grid),
            show_axes: spec_flag(plot.show_axes),
        }
    }

    /// The parameters after they were brought up to date with a plot: all
    /// of them are those of the plot, but the position of the mouse, which
    /// stays.
    pub open spec fn spec_update_all(self, plot: Plot) -> CanvasMaterial {
        CanvasMaterial {
            position: plot.canvas_position,
            mouse_pos: self.mouse_pos,
            tick_period: plot.tick_period,
            bound_up: plot.bounds.upper,
            bound_lo: plot.bounds.lower,
            time: plot.time,
            zoom: plot.zoom,
            size: plot.canvas_size,
            outer_border: plot.outer_border,
            show_target: spec_flag(plot.show_target && plot.target_toggle),
            hide_contour: spec_flag(plot.hide_contour),
            target_pos: plot.spec_target_on_screen(),
            background_color1: plot.background_color1,
            background_color2: plot.background_color2,
            target_color: plot.target_color,
            show_grid: spec_flag(plot.show_grid),
            show_axes: spec_flag(plot.show_axes),
        }
    }

    /// The parameters for a plot that was not shown yet.
    pub fn new(plot: &Plot) -> (m: CanvasMaterial)
        ensures
            m == CanvasMaterial::spec_new(*plot),
    {
        CanvasMaterial {
            position: plot.canvas_position,
            mouse_pos: Point { x: 0, y: 0 },
            tick_period: plot.tick_period,
            bound_up: plot.bounds.upper,
            bound_lo: plot.bounds.lower,
            time: 0,
            zoom: ONE,
            size: plot.canvas_size,
            outer_border: plot.outer_border,
            show_target: flag(plot.show_target && plot.target_toggle),
            hide_contour: flag(plot.hide_contour),
            target_pos: Point { x: 0, y: 0 },
            background_color1: plot.background_color1,
            background_color2: plot.background_color2,
            target_color: plot.target_color,
            show_grid: flag(plot.show_grid),
            show_axes: flag(plot.show_axes),
        }
    }

    /// Brings all parameters up to date with the plot, but the position of
    /// the mouse.
    pub fn update_all(&mut self, plot: &Plot)
        requires
            plot.wf(),
        ensures
            *final(self) == old(self).spec_update_all(*plot),
    {
        self.position = plot.canvas_position;
        self.tick_period = plot.tick_period;
        self.bound_up = plot.bounds.upper;
        self.bound_lo = plot.bounds.lower;
        self.zoom = plot.zoom;
        self.time = plot.time;
        self.size = plot.canvas_size;
        self.outer_border = plot.outer_border;
        self.show_target = flag(plot.show_target && plot.target_toggle);
        self.hide_contour = flag(plot.hide_contour);
        self.target_pos = plot.target_on_screen();
        self.background_color1 = plot.background_color1;
        self.background_color2 = plot.background_color2;
        self.target_color = plot.target_color;
        self.show_grid = flag(plot.show_grid);
        self.show_axes = flag(plot.show_axes);
    }

    /// Whether `position` lies strictly within the canvas.
    pub fn within_rect(&self, position: Point) -> (b: bool)
        ensures
            b == spec_within(self.position, self.size, position),
    {
        within(self.position, self.size, position)
    }
}

/// Parameters of the curve shader.
#[derive(Clone, Copy, Debug, PartialEq, Eq, Structural)]
pub struct BezierCurveUniform {
    /// Whether joints are drawn between the parts.
    pub mech: i64,
    pub zoom: i64,
    pub inner_canvas_size_in_pixels: Point,
    pub canvas_position_in_pixels: Point,
    pub color: Color,
    /// Thickness of the curve.
    pub size: i64,
    pub style: i32,
}

impl BezierCurveUniform {
    /// The parameters for a curve of a plot.
    pub fn new(plot: &Plot, curve: &BezierData) -> (u: BezierCurveUniform)
        requires
            plot.geometry_ok(),
        ensures
            u == (BezierCurveUniform {
                mech: spec_flag(curve.mech),
                zoom: plot.zoom,
                inner_canvas_size_in_pixels: plot.spec_inner_size(),
                canvas_position_in_pixels: plot.canvas_position,
                color: curve.color,
                size: curve.size,
                style: curve.line_style.spec_to_int32() as i32,
            }),
    {
        BezierCurveUniform {
            mech: flag(curve.mech),
            zoom: plot.zoom,
            inner_canvas_size_in_pixels: plot.inner_size(),
            canvas_position_in_pixels: plot.canvas_position,
            color: curve.color,
            size: curve.size,
            style: curve.line_style.to_int32(),
        }
    }
}

/// Parameters of the segment shader.
#[derive(Clone, Copy, Debug, PartialEq, Eq, Structural)]
pub struct SegmentUniform {
    pub color: Color,
    /// Whether joints are drawn between the segments.
    pub mech: i64,
    pub segment_thickness: i64,
    pub hole_size: i64,
    pub zoom: i64,
    pub inner_canvas_size_in_pixels: Point,
    pub canvas_position: Point,
}

impl SegmentUniform {
    /// The parameters for a group of segments of a plot.
    pub fn new(plot: &Plot, segments: &SegmentData) -> (u: SegmentUniform)
        requires
            plot.geometry_ok(),
        ensures
            u == (SegmentUniform {
                color: segments.color,
                mech: spec_flag(segments.mech),
                segment_thickness: segments.size,
                hole_size: ONE,
                zoom: ONE,
                inner_canvas_size_in_pixels: plot.spec_inner_size(),
                canvas_position: plot.canvas_position,
            }),
    {
        SegmentUniform {
            color: segments.color,
            mech: flag(segments.mech),
            segment_thickness: segments.size,
            hole_size: ONE,
            zoom: ONE,
            inner_canvas_size_in_pixels: plot.inner_size(),
            canvas_position: plot.canvas_position,
        }
    }
}

/// Parameters of the marker shader.
#[derive(Clone, Copy, Debug, PartialEq, Eq, Structural)]
pub struct MarkerUniform {
    pub marker_size: i64,
    pub hole_size: i64,
    pub zoom: i64,
    pub marker_type: i32,
    pub marker_point_color: Color,
    pub color: Color,
    pub quad_size: i64,
    pub inner_canvas_size_in_pixels: Point,
    pub canvas_position: Point,
    /// Whether the markers have a black border.
    pub contour: i64,
}

impl MarkerUniform {
    /// The parameters for a group of markers of a plot.
    pub fn new(plot: &Plot, markers: &MarkerData) -> (u: MarkerUniform)
        requires
            plot.geometry_ok(),
        ensures
            u == (MarkerUniform {
                marker_size: markers.size,
                hole_size: ONE,
                zoom: ONE,
                marker_type: markers.marker_style.spec_to_int32() as i32,
                marker_point_color: markers.marker_point_color,
                color: markers.color,
                quad_size: MARKER_QUAD_SIZE,
                inner_canvas_size_in_pixels: plot.spec_inner_size(),
                canvas_position: plot.canvas_position,
                contour: spec_flag(markers.draw_contour),
            }),
    {
        MarkerUniform {
            marker_size: markers.size,
            hole_size: ONE,
            zoom: ONE,
            marker_type: markers.marker_style.to_int32(),
            marker_point_color: markers.marker_point_color,
            color: markers.color,
            quad_size: MARKER_QUAD_SIZE,
            inner_canvas_size_in_pixels: plot.inner_size(),
            canvas_position: plot.canvas_position,
            contour: flag(markers.draw_contour),
        }
    }
}

/// One marker as the marker shader draws it.
#[derive(Clone, Copy, Debug, PartialEq, Eq, Structural)]
pub struct MarkerInstanceData {
    pub position: Position,
    pub scale: i64,
    pub color: Color,
}

/// The marker of the point `p` of a plot: at the screen position of the
/// point, at the depth of markers.
pub open spec fn spec_marker_instance(plot: Plot, p: Point) -> MarkerInstanceData {
    MarkerInstanceData {
        position: Position {
            x: plot.spec_to_local(p).spec_plus(plot.canvas_position).x,
            y: plot.spec_to_local(p).spec_plus(plot.canvas_position).y,
            z: MARKER_DEPTH,
        },
        scale: ONE,
        color: Color { red: 800_000_000, green: 600_000_000, blue: 100_000_000, alpha: ONE },
    }
}

/// The markers of a group of a plot, one for each point.
pub fn plot_points(plot: &Plot, markers: &MarkerData) -> (instances: Vec<MarkerInstanceData>)
    requires
        plot.wf(),
    ensures
        instances@.len() == markers.data@.len(),
        forall|i: int|
            0 <= i < markers.data@.len() ==> #[trigger] instances@[i] == spec_marker_instance(
                *plot,
                markers.data@[i],
            ),
{
    let mut instances: Vec<MarkerInstanceData> = Vec::new();
    let mut i: usize = 0;
    while i < markers.data.len()
        invariant
            plot.wf(),
            0 <= i <= markers.data.len(),
            instances@.len() == i,
            forall|j: int|
                0 <= j < i ==> #[trigger] instances@[j] == spec_marker_instance(
                    *plot,
                    markers.data@[j],
                ),
        decreases markers.data.len() - i,
    {
        let on_screen: Point = plot.to_local(markers.data[i]).plus(plot.canvas_position);
        instances.push(
            MarkerInstanceData {
                position: Position { x: on_screen.x, y: on_screen.y, z: MARKER_DEPTH },
                scale: ONE,
                color: Color::rgba(800_000_000, 600_000_000, 100_000_000, ONE),
            },
        );
        i = i + 1;
    }
    instances
}

} // verus!
