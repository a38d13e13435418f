//! Where the labels of the ticks and of the target go.
use crate::bezier::Position;
use crate::error::PlotError;
use crate::fixed::{clamp64, clamp_wide, sat_add, tdiv};
use crate::geometry::{spec_abs, Point};
use crate::plot::{
    canvas_is_valid, canvas_ok, inner_of, local_of, spec_inner, spec_local, spec_zero, zero_of,
    Plot,
};
use vstd::prelude::*;

verus! {

/// Depth of the labels of the horizontal axis.
pub const LABEL_DEPTH_X: i64 = 1_000_100_000;

/// Depth of the labels of the vertical axis.
pub const LABEL_DEPTH_Y: i64 = 100_000;

/// Depth of the label of the target.
pub const TARGET_LABEL_DEPTH: i64 = 1_200_000_000;

/// From this magnitude on a label is written with an exponent.
pub const SCIENTIFIC_FROM: i64 = 1_000_000_000_000;

/// Below this magnitude a label is written with an exponent.
pub const SCIENTIFIC_BELOW: i64 = 10_000_000;

/// The label of one tick: the value it shows, whether it is written with
/// an exponent, and where it goes, relative to the canvas before any
/// resize.
#[derive(Clone, Copy, Debug, PartialEq, Eq, Structural)]
pub struct TickLabel {
    pub value: i64,
    pub scientific: bool,
    pub position: Position,
}

/// The label of the target: the point it shows, whether each coordinate is
/// written with an exponent, and where it goes, relative to the canvas.
#[derive(Clone, Copy, Debug, PartialEq, Eq, Structural)]
pub struct TargetLabel {
    pub value: Point,
    pub scientific_x: bool,
    pub scientific_y: bool,
    pub position: Position,
}

/// One axis of the ticks: its bounds, its tick period, the inner size of
/// the canvas along it and across it, the font size, and whether every
/// other label is hidden.
pub struct TickAxis {
    pub lo: int,
    pub up: int,
    pub tick: int,
    pub inner: int,
    pub across: int,
    pub font: int,
    pub hide_half: bool,
    pub vertical: bool,
}

impl TickAxis {
    /// Number of the lowest tick: the lower bound over the period,
    /// truncated.
    pub open spec fn bottom(self) -> int {
        tdiv(self.lo, self.tick)
    }

    /// Number of the highest tick.
    pub open spec fn top(self) -> int {
        tdiv(self.up, self.tick)
    }

    /// Value of tick `i`.
    pub open spec fn value(self, i: int) -> int {
        clamp64(i * self.tick)
    }

    /// Whether the labels are written with an exponent: the larger of the
    /// magnitude of the lowest tick and of the highest tick is a thousand
    /// or more, or less than a hundredth.
    pub open spec fn scientific(self) -> bool {
        let low = spec_abs(self.bottom() * self.tick);
        let high = self.top() * self.tick;
        let most = if low >= high {
            low
        } else {
            high
        };
        most >= SCIENTIFIC_FROM || most < SCIENTIFIC_BELOW
    }

    /// Screen position of tick `i` along the axis, relative to the canvas.
    pub open spec fn along(self, i: int) -> int {
        spec_local(
            spec_zero(self.lo, self.up - self.lo, self.inner),
            self.value(i),
            self.inner,
            self.up - self.lo,
        )
    }

    /// Distance of a horizontal label from its tick: a fifth of the font
    /// size.  A vertical label sits on its tick.
    pub open spec fn offset(self) -> int {
        if self.vertical {
            0
        } else {
            tdiv(self.font, 5)
        }
    }

    /// Where the label of tick `i` goes along the axis.
    pub open spec fn place(self, i: int) -> int {
        clamp64(self.along(i) + self.offset())
    }

    /// Whether the label of tick `i` is spawned: it is not one of the
    /// hidden odd ticks, and it is far enough from both ends of the axis:
    /// three font sizes for a horizontal label; 1.2 font sizes from the
    /// lower end and anything from the upper end for a vertical one.
    pub open spec fn shown(self, i: int) -> bool {
        &&& !(self.hide_half && i % 2 != 0)
        &&& if self.vertical {
            self.place(i) + tdiv(self.inner, 2) > tdiv(self.font * 6, 5) && self.place(i) - tdiv(
                self.inner,
                2,
            ) < 0
        } else {
            self.place(i) + tdiv(self.inner, 2) > 3 * self.font && self.place(i) - tdiv(
                self.inner,
                2,
            ) < -(3 * self.font)
        }
    }

    /// Where labels go across the axis: at the lower edge of the inner
    /// region; a vertical label a fifth of the font size inside it.
    pub open spec fn edge(self) -> int {
        if self.vertical {
            clamp64(-tdiv(self.across, 2) + tdiv(self.font, 5))
        } else {
            -tdiv(self.across, 2)
        }
    }

    /// The label of tick `i`.
    pub open spec fn label(self, i: int) -> TickLabel {
        TickLabel {
            value: self.value(i) as i64,
            scientific: self.scientific(),
            position: if self.vertical {
                Position { x: self.edge() as i64, y: self.place(i) as i64, z: LABEL_DEPTH_Y }
            } else {
                Position { x: self.place(i) as i64, y: self.edge() as i64, z: LABEL_DEPTH_X }
            },
        }
    }

    /// The labels of the ticks from `from` to `to`, in their order.
    pub open spec fn labels(self, from: int, to: int) -> Seq<TickLabel>
        decreases to - from + 1,
    {
        if to < from {
            Seq::empty()
        } else if self.shown(to) {
            self.labels(from, to - 1).push(self.label(to))
        } else {
            self.labels(from, to - 1)
        }
    }

    /// All labels of the axis; none for a tick period that is not
    /// positive.
    pub open spec fn all_labels(self) -> Seq<TickLabel> {
        if self.tick <= 0 {
            Seq::empty()
        } else {
            self.labels(self.bottom(), self.top())
        }
    }
}

impl Plot {
    /// The ticks of the horizontal axis on a canvas of the size
    /// `original_size`.
    pub open spec fn ticks_x(self, original_size: Point, font_size: i64) -> TickAxis {
        TickAxis {
            lo: self.bounds.lower.x as int,
            up: self.bounds.upper.x as int,
            tick: self.tick_period.x as int,
            inner: spec_inner(original_size.x as int, self.outer_border.x as int),
            across: spec_inner(original_size.y as int, self.outer_border.y as int),
            font: font_size as int,
            hide_half: self.hide_half_ticks,
            vertical: false,
        }
    }

    /// The ticks of the vertical axis on a canvas of the size
    /// `original_size`.
    pub open spec fn ticks_y(self, original_size: Point, font_size: i64) -> TickAxis {
        TickAxis {
            lo: self.bounds.lower.y as int,
            up: self.bounds.upper.y as int,
            tick: self.tick_period.y as int,
            inner: spec_inner(original_size.y as int, self.outer_border.y as int),
            across: spec_inner(original_size.x as int, self.outer_border.x as int),
            font: font_size as int,
            hide_half: self.hide_half_ticks,
            vertical: true,
        }
    }

    /// The labels of the ticks of both axes, those of the horizontal axis
    /// first, for a canvas that had the size `original_size` before any
    /// resize: the labels are placed relative to that canvas.
    pub fn update_plot_labels(&self, original_size: Point, font_size: i64) -> (r: Result<
        (Vec<TickLabel>, Vec<TickLabel>),
        PlotError,
    >)
        requires
            self.wf(),
        ensures
            r is Ok <==> canvas_ok(original_size, self.outer_border),
            r is Err ==> r == Err::<(Vec<TickLabel>, Vec<TickLabel>), PlotError>(
                PlotError::InvalidCanvas,
            ),
            r is Ok ==> r->Ok_0.0@ == self.ticks_x(original_size, font_size).all_labels()
                && r->Ok_0.1@ == self.ticks_y(original_size, font_size).all_labels(),
    {
        if !canvas_is_valid(original_size, self.outer_border) {
            return Err(PlotError::InvalidCanvas);
        }
        let inner_x: i64 = inner_of(original_size.x, self.outer_border.x);
        let inner_y: i64 = inner_of(original_size.y, self.outer_border.y);
        let across: Vec<TickLabel> = axis_labels(
            self.bounds.lower.x,
            self.bounds.upper.x,
            self.tick_period.x,
            inner_x,
            inner_y,
            font_size,
            self.hide_half_ticks,
            false,
        );
        let up: Vec<TickLabel> = axis_labels(
            self.bounds.lower.y,
            self.bounds.upper.y,
            self.tick_period.y,
            inner_y,
            inner_x,
            font_size,
            self.hide_half_ticks,
            true,
        );
        Ok((across, up))
    }

    /// Where the label of the target goes before it is moved off the right
    /// edge: a fifth of the font size right of and above the target.
    pub open spec fn spec_target_anchor(self, font_size: i64) -> Point {
        Point {
            x: clamp64(self.spec_to_local(self.target_position).x + tdiv(font_size as int, 5)) as i64,
            y: clamp64(self.spec_to_local(self.target_position).y + tdiv(font_size as int, 5)) as i64,
        }
    }

    /// Whether the label of the target is too close to the right edge of
    /// the canvas: less than a font size from it.
    pub open spec fn spec_target_crowded(self, font_size: i64) -> bool {
        self.spec_target_anchor(font_size).x > self.canvas_position.x + tdiv(
            self.canvas_size.x as int,
            2,
        ) - font_size
    }

    /// Whether the label of the target fits between the upper and the
    /// lower edge of the canvas.
    pub open spec fn spec_target_fits(self, font_size: i64) -> bool {
        &&& self.spec_target_anchor(font_size).y <= self.canvas_position.y + tdiv(
            self.canvas_size.y as int,
            2,
        ) - tdiv(font_size * 6, 5)
        &&& self.spec_target_anchor(font_size).y >= self.canvas_position.y - tdiv(
            self.canvas_size.y as int,
            2,
        ) + tdiv(font_size as int, 5)
    }

    /// The label of the target where it is shown and fits.
    pub open spec fn spec_target_label(self, font_size: i64) -> TargetLabel {
        let anchor = self.spec_target_anchor(font_size);
        let x = if self.spec_target_crowded(font_size) {
            clamp64(anchor.x - tdiv(font_size * 2, 5))
        } else {
            anchor.x as int
        };
        TargetLabel {
            value: self.target_position,
            scientific_x: self.target_position.x > SCIENTIFIC_FROM || self.target_position.x
                < SCIENTIFIC_BELOW,
            scientific_y: self.target_position.y > SCIENTIFIC_FROM || self.target_position.y
                < SCIENTIFIC_BELOW,
            position: Position {
                x: clamp64(x + tdiv(font_size as int, 5)) as i64,
                y: clamp64(anchor.y + tdiv(font_size as int, 50)) as i64,
                z: TARGET_LABEL_DEPTH,
            },
        }
    }

    /// The label of the target: none unless the target is shown and its
    /// label fits between the upper and the lower edge of the canvas.  The
    /// label sits right of and above the target, and moves to the left
    /// where the target is close to the right edge.
    pub fn update_target(&self, font_size: i64) -> (r: Option<TargetLabel>)
        requires
            self.wf(),
        ensures
            r is Some <==> self.show_target && self.target_toggle && self.spec_target_fits(
                font_size,
            ),
            r is Some ==> r->Some_0 == self.spec_target_label(font_size),
    {
        if !(self.show_target && self.target_toggle) {
            return None;
        }
        let fifth: i64 = font_size / 5;
        let local: Point = self.to_local(self.target_position);
        let anchor = Point { x: sat_add(local.x, fifth), y: sat_add(local.y, fifth) };
        let half_x: i128 = (self.canvas_size.x / 2) as i128;
        let half_y: i128 = (self.canvas_size.y / 2) as i128;
        let font: i128 = font_size as i128;
        let upper_y: i128 = self.canvas_position.y as i128 + half_y - (font * 6) / 5;
        let lower_y: i128 = self.canvas_position.y as i128 - half_y + fifth as i128;
        if anchor.y as i128 > upper_y || (anchor.y as i128) < lower_y {
            return None;
        }
        let crowded: bool = anchor.x as i128 > self.canvas_position.x as i128 + half_x - font;
        let x: i64 = if crowded {
            clamp_wide(anchor.x as i128 - (font * 2) / 5)
        } else {
            anchor.x
        };
        Some(
            TargetLabel {
                value: self.target_position,
                scientific_x: self.target_position.x > SCIENTIFIC_FROM || self.target_position.x
                    < SCIENTIFIC_BELOW,
                scientific_y: self.target_position.y > SCIENTIFIC_FROM || self.target_position.y
                    < SCIENTIFIC_BELOW,
                position: Position {
                    x: sat_add(x, fifth),
                    y: sat_add(anchor.y, font_size / 50),
                    z: TARGET_LABEL_DEPTH,
                },
            },
        )
    }
}

/// The labels of the ticks of one axis.
fn axis_labels(
    lo: i64,
    up: i64,
    tick: i64,
    inner: i64,
    across: i64,
    font: i64,
    hide_half: bool,
    vertical: bool,
) -> (labels: Vec<TickLabel>)
    requires
        lo < up,
        inner >= 1,
    ensures
        labels@ == (TickAxis {
            lo: lo as int,
            up: up as int,
            tick: tick as int,
            inner: inner as int,
            across: across as int,
            font: font as int,
            hide_half,
            vertical,
        }).all_labels(),
{
    let ghost axis = TickAxis {
        lo: lo as int,
        up: up as int,
        tick: tick as int,
        inner: inner as int,
        across: across as int,
        font: font as int,
        hide_half,
        vertical,
    };
    let mut labels: Vec<TickLabel> = Vec::new();
    if tick <= 0 {
        return labels;
    }
    let bottom: i64 = lo / tick;
    let top: i64 = up / tick;
    let wide_tick: i128 = tick as i128;
    proof {
        crate::fixed::lemma_tdiv_magnitude(lo as int, tick as int);
        crate::fixed::lemma_tdiv_magnitude(up as int, tick as int);
        crate::fixed::lemma_tdiv_monotonic(lo as int, up as int, tick as int);
    }
    assert(-0x8000_0000_0000_0000 * 0x8000_0000_0000_0000 <= (bottom as i128) * wide_tick
        <= 0x8000_0000_0000_0000 * 0x8000_0000_0000_0000) by (nonlinear_arith)
        requires
            -0x8000_0000_0000_0000 <= bottom <= 0x7fff_ffff_ffff_ffff,
            0 < wide_tick <= 0x7fff_ffff_ffff_ffff,
    ;
    assert(-0x8000_0000_0000_0000 * 0x8000_0000_0000_0000 <= (top as i128) * wide_tick
        <= 0x8000_0000_0000_0000 * 0x8000_0000_0000_0000) by (nonlinear_arith)
        requires
            -0x8000_0000_0000_0000 <= top <= 0x7fff_ffff_ffff_ffff,
            0 < wide_tick <= 0x7fff_ffff_ffff_ffff,
    ;
    let low_value: i128 = (bottom as i128) * wide_tick;
    let low: i128 = if low_value < 0 {
        -low_value
    } else {
        low_value
    };
    let high: i128 = (top as i128) * wide_tick;
    let most: i128 = if low >= high {
        low
    } else {
        high
    };
    let scientific: bool = most >= SCIENTIFIC_FROM as i128 || most < SCIENTIFIC_BELOW as i128;
    let range: u64 = crate::fixed::span(lo, up);
    let zero: i64 = zero_of(lo, range, inner);
    let half: i128 = (inner / 2) as i128;
    let offset: i128 = if vertical {
        0
    } else {
        (font / 5) as i128
    };
    let wide_font: i128 = font as i128;
    let edge: i64 = if vertical {
        clamp_wide(-((across / 2) as i128) + (font / 5) as i128)
    } else {
        -(across / 2)
    };
    let mut i: i128 = bottom as i128;
    while i <= top as i128
        invariant
            tick > 0,
            wide_tick == tick,
            lo < up,
            inner >= 1,
            range == up - lo,
            zero == spec_zero(lo as int, up - lo, inner as int),
            half == tdiv(inner as int, 2),
            offset == axis.offset(),
            wide_font == font,
            edge == axis.edge(),
            scientific == axis.scientific(),
            bottom == axis.bottom(),
            top == axis.top(),
            bottom <= i <= top + 1,
            axis == (TickAxis {
                lo: lo as int,
                up: up as int,
                tick: tick as int,
                inner: inner as int,
                across: across as int,
                font: font as int,
                hide_half,
                vertical,
            }),
            labels@ == axis.labels(bottom as int, i - 1),
        decreases top - i + 1,
    {
        assert(-0x8000_0000_0000_0000 * 0x8000_0000_0000_0000 <= i * wide_tick
            <= 0x8000_0000_0000_0000 * 0x8000_0000_0000_0000) by (nonlinear_arith)
            requires
                -0x8000_0000_0000_0000 <= i <= 0x7fff_ffff_ffff_ffff,
                0 < wide_tick <= 0x7fff_ffff_ffff_ffff,
        ;
        let value: i64 = clamp_wide(i * wide_tick);
        let along: i64 = local_of(zero, value, inner, range);
        let place: i64 = clamp_wide(along as i128 + offset);
        let odd: bool = i % 2 != 0;
        let near_enough: bool = if vertical {
            place as i128 + half > (wide_font * 6) / 5 && (place as i128 - half) < 0
        } else {
            place as i128 + half > 3 * wide_font && place as i128 - half < -(3 * wide_font)
        };
        assert(place == axis.place(i as int));
        assert(near_enough == if vertical {
            axis.place(i as int) + tdiv(axis.inner, 2) > tdiv(axis.font * 6, 5) && axis.place(
                i as int,
            ) - tdiv(axis.inner, 2) < 0
        } else {
            axis.place(i as int) + tdiv(axis.inner, 2) > 3 * axis.font && axis.place(i as int)
                - tdiv(axis.inner, 2) < -(3 * axis.font)
        });
        assert(odd == ((i as int) % 2 != 0)) by {
            // the remainder of a truncated division is zero when the euclidean one is
            assert(i % 2 == 0 <==> (i as int) % 2 == 0);
        }
        if !(hide_half && odd) && near_enough {
            labels.push(
                TickLabel {
                    value,
                    scientific,
                    position: if vertical {
                        Position { x: edge, y: place, z: LABEL_DEPTH_Y }
                    } else {
                        Position { x: place, y: edge, z: LABEL_DEPTH_X }
                    },
                },
            );
        }
        i = i + 1;
    }
    labels
}

} // verus!
