//! Plot-space and screen-space geometry for curve plots, in fixed-point
//! arithmetic: the coordinate transform of a pannable, zoomable canvas and
//! the tessellation of sampled curves into quads for a curve shader.
//!
//! Every coordinate is an `i64` that counts billionths; see `fixed`.
pub mod bezier;
pub mod canvas;
pub mod error;
pub mod fixed;
pub mod geometry;
pub mod interaction;
pub mod labels;
pub mod laws;
pub mod material;
pub mod plot;
pub mod plot_format;
pub mod plotting;
pub mod segments;
pub mod style;
pub mod ticks;

pub use crate::bezier::{
    derivative_step, is_curved, linspace, make_df, tessellate, Control, CurveMesh, Ends,
    Evaluation, Position, Sample,
};
pub use crate::canvas::{Corner, Cursor, GraphSize, GraphSprite, ResizePlotWindow, ZoomAxes};
pub use crate::error::PlotError;
pub use crate::fixed::ONE;
pub use crate::geometry::{Line, Point};
pub use crate::labels::{TargetLabel, TickLabel};
pub use crate::material::{
    plot_points, BezierCurveUniform, CanvasMaterial, MarkerInstanceData, MarkerUniform,
    SegmentUniform,
};
pub use crate::plot::{Plot, PlotBounds};
pub use crate::plot_format::{PlotFormat, Plotable};
pub use crate::segments::{plot_segments, SegmentMesh};
pub use crate::style::{
    make_color_palette, BezierData, Color, LineStyle, MarkerData, MarkerStyle, Opt, PlotColor,
    PlotData, SegmentData,
};
