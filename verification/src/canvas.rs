//! The canvas on the screen: its rectangle, its corners for resizing, the
//! cursor over it.
use crate::fixed::{tdiv, times, spec_times};
use crate::geometry::Point;
use vstd::prelude::*;

verus! {

/// A corner of the canvas.
#[derive(Clone, Copy, Debug, PartialEq, Eq, Structural)]
pub enum Corner {
    TopLeft,
    TopRight,
    BottomLeft,
    BottomRight,
}

/// A resize in progress: the corner that is dragged, and where the canvas
/// was and how it was scaled when the drag began.
#[derive(Clone, Copy, Debug, PartialEq, Eq, Structural)]
pub struct ResizePlotWindow {
    pub corner: Corner,
    pub previous_position: Point,
    pub previous_scale: Point,
}

/// A zoom that was asked for: the direction of the scroll and where the
/// mouse was.
#[derive(Clone, Copy, Debug, PartialEq, Eq, Structural)]
pub struct ZoomAxes {
    pub wheel_dir: i64,
    pub mouse_pos: Point,
}

/// Size and border of a canvas.
#[derive(Clone, Copy, Debug, PartialEq, Eq, Structural)]
pub struct GraphSize {
    pub size: Point,
    pub outer_border: Point,
}

/// The rectangle of a canvas on the screen.
#[derive(Clone, Copy, Debug, PartialEq, Eq, Structural)]
pub struct GraphSprite {
    /// Centre of the canvas.
    pub position: Point,
    pub previous_position: Point,
    /// Size of the canvas before any resize.
    pub original_size: Point,
    /// Factor by which the canvas was resized.
    pub scale: Point,
    pub previous_scale: Point,
    /// Distance from a corner within which the mouse takes hold of it.
    pub hover_radius: i64,
}

/// The least factor to which a canvas can be resized.
pub const SCALE_MIN: i64 = 100_000_000;

/// The greatest factor to which a canvas can be resized.
pub const SCALE_MAX: i64 = 10_000_000_000;

/// Pixels of a drag that resize the canvas by a factor of one.
pub const PIXELS_PER_SCALE: i64 = 350;

/// Whether `p` lies strictly within the rectangle of the given centre and
/// size: less than half the size from the centre on both axes.
pub open spec fn spec_within(centre: Point, size: Point, p: Point) -> bool {
    &&& p.x < centre.x + tdiv(size.x as int, 2)
    &&& p.x > centre.x - tdiv(size.x as int, 2)
    &&& p.y < centre.y + tdiv(size.y as int, 2)
    &&& p.y > centre.y - tdiv(size.y as int, 2)
}

/// Whether the point `(px, py)` is closer than `radius` to `(cx, cy)`.
pub open spec fn spec_near(cx: int, cy: int, px: int, py: int, radius: int) -> bool {
    radius > 0 && (cx - px) * (cx - px) + (cy - py) * (cy - py) < radius * radius
}

/// A scale factor brought between the least and the greatest.
pub open spec fn spec_clamp_scale(v: int) -> int {
    if v < SCALE_MIN {
        SCALE_MIN as int
    } else if v > SCALE_MAX {
        SCALE_MAX as int
    } else {
        v
    }
}

impl Corner {
    /// Whether the corner is on the right side.
    pub open spec fn is_right(self) -> bool {
        self == Corner::TopRight || self == Corner::BottomRight
    }

    /// Whether the corner is on the upper side.
    pub open spec fn is_top(self) -> bool {
        self == Corner::TopLeft || self == Corner::TopRight
    }
}

impl ResizePlotWindow {
    /// The scale of the canvas after the mouse moved by `delta` since the
    /// drag began: the scale it had then, changed by `delta / 350` away
    /// from the centre, and kept between 0.1 and 10.
    pub open spec fn spec_scale_for(self, delta: Point) -> Point {
        Point {
            x: spec_clamp_scale(
                if self.corner.is_right() {
                    self.previous_scale.x + tdiv(delta.x as int, PIXELS_PER_SCALE as int)
                } else {
                    self.previous_scale.x - tdiv(delta.x as int, PIXELS_PER_SCALE as int)
                },
            ) as i64,
            y: spec_clamp_scale(
                if self.corner.is_top() {
                    self.previous_scale.y + tdiv(delta.y as int, PIXELS_PER_SCALE as int)
                } else {
                    self.previous_scale.y - tdiv(delta.y as int, PIXELS_PER_SCALE as int)
                },
            ) as i64,
        }
    }

    /// The scale of the canvas after the mouse moved by `delta` since the
    /// drag began.
    pub fn scale_for(&self, delta: Point) -> (scale: Point)
        ensures
            scale == self.spec_scale_for(delta),
    {
        let dx: i128 = (delta.x / PIXELS_PER_SCALE) as i128;
        let dy: i128 = (delta.y / PIXELS_PER_SCALE) as i128;
        let right: bool = match self.corner {
            Corner::TopRight => true,
            Corner::BottomRight => true,
            _ => false,
        };
        let top: bool = match self.corner {
            Corner::TopLeft => true,
            Corner::TopRight => true,
            _ => false,
        };
        let sx: i128 = if right {
            self.previous_scale.x as i128 + dx
        } else {
            self.previous_scale.x as i128 - dx
        };
        let sy: i128 = if top {
            self.previous_scale.y as i128 + dy
        } else {
            self.previous_scale.y as i128 - dy
        };
        Point { x: clamp_scale(sx), y: clamp_scale(sy) }
    }
}

/// A scale factor brought between the least and the greatest.
fn clamp_scale(v: i128) -> (r: i64)
    ensures
        r == spec_clamp_scale(v as int),
{
    if v < SCALE_MIN as i128 {
        SCALE_MIN
    } else if v > SCALE_MAX as i128 {
        SCALE_MAX
    } else {
        v as i64
    }
}

/// Whether `p` lies strictly within the rectangle of the given centre and
/// size.
pub fn within(centre: Point, size: Point, p: Point) -> (b: bool)
    ensures
        b == spec_within(centre, size, p),
{
    let hx: i128 = (size.x / 2) as i128;
    let hy: i128 = (size.y / 2) as i128;
    let px: i128 = p.x as i128;
    let py: i128 = p.y as i128;
    px < centre.x as i128 + hx && px > centre.x as i128 - hx && py < centre.y as i128 + hy && py
        > centre.y as i128 - hy
}

/// Whether the point `(px, py)` is closer than `radius` to `(cx, cy)`.
fn near(cx: i128, cy: i128, px: i64, py: i64, radius: i64) -> (b: bool)
    requires
        -0x1_0000_0000_0000_0000 <= cx <= 0x1_0000_0000_0000_0000,
        -0x1_0000_0000_0000_0000 <= cy <= 0x1_0000_0000_0000_0000,
    ensures
        b == spec_near(cx as int, cy as int, px as int, py as int, radius as int),
{
    if radius <= 0 {
        return false;
    }
    let dx: i128 = cx - px as i128;
    let dy: i128 = cy - py as i128;
    let r: i128 = radius as i128;
    let limit: i128 = 0x7fff_ffff_ffff_ffff;
    assert(0 < r * r <= 0x7fff_ffff_ffff_ffff * 0x7fff_ffff_ffff_ffff) by (nonlinear_arith)
        requires
            0 < r <= 0x7fff_ffff_ffff_ffff,
    ;
    if dx > limit || dx < -limit || dy > limit || dy < -limit {
        proof {
            assert(dx * dx >= 0 && dy * dy >= 0) by (nonlinear_arith);
            if dx > limit || dx < -limit {
                assert(dx * dx >= 0x7fff_ffff_ffff_ffff * 0x7fff_ffff_ffff_ffff)
                    by (nonlinear_arith)
                    requires
                        dx > 0x7fff_ffff_ffff_ffff || dx < -0x7fff_ffff_ffff_ffff,
                ;
            } else {
                assert(dy * dy >= 0x7fff_ffff_ffff_ffff * 0x7fff_ffff_ffff_ffff)
                    by (nonlinear_arith)
                    requires
                        dy > 0x7fff_ffff_ffff_ffff || dy < -0x7fff_ffff_ffff_ffff,
                ;
            }
        }
        return false;
    }
    assert(0 <= dx * dx <= 0x7fff_ffff_ffff_ffff * 0x7fff_ffff_ffff_ffff) by (nonlinear_arith)
        requires
            -0x7fff_ffff_ffff_ffff <= dx <= 0x7fff_ffff_ffff_ffff,
    ;
    assert(0 <= dy * dy <= 0x7fff_ffff_ffff_ffff * 0x7fff_ffff_ffff_ffff) by (nonlinear_arith)
        requires
            -0x7fff_ffff_ffff_ffff <= dy <= 0x7fff_ffff_ffff_ffff,
    ;
    dx * dx + dy * dy < r * r
}

impl GraphSprite {
    /// Size of the canvas: its size before any resize, times its scale.
    pub open spec fn spec_size(self) -> Point {
        Point {
            x: spec_times(self.original_size.x as int, self.scale.x as int) as i64,
            y: spec_times(self.original_size.y as int, self.scale.y as int) as i64,
        }
    }

    /// First coordinate of a corner: half the size right or left of the
    /// centre.
    pub open spec fn spec_corner_x(self, corner: Corner) -> int {
        if corner.is_right() {
            self.position.x + tdiv(self.spec_size().x as int, 2)
        } else {
            self.position.x - tdiv(self.spec_size().x as int, 2)
        }
    }

    /// Second coordinate of a corner: half the size above or below the
    /// centre.
    pub open spec fn spec_corner_y(self, corner: Corner) -> int {
        if corner.is_top() {
            self.position.y + tdiv(self.spec_size().y as int, 2)
        } else {
            self.position.y - tdiv(self.spec_size().y as int, 2)
        }
    }

    /// Whether `p` is within the hover radius of a corner.
    pub open spec fn spec_holds(self, corner: Corner, p: Point) -> bool {
        spec_near(
            self.spec_corner_x(corner),
            self.spec_corner_y(corner),
            p.x as int,
            p.y as int,
            self.hover_radius as int,
        )
    }

    /// The corner that a click at `p` takes hold of: of the corners within
    /// the hover radius, the first in the order bottom right, top left,
    /// bottom left, top right.
    pub open spec fn spec_clicked_corner(self, p: Point) -> Option<Corner> {
        if self.spec_holds(Corner::BottomRight, p) {
            Some(Corner::BottomRight)
        } else if self.spec_holds(Corner::TopLeft, p) {
            Some(Corner::TopLeft)
        } else if self.spec_holds(Corner::BottomLeft, p) {
            Some(Corner::BottomLeft)
        } else if self.spec_holds(Corner::TopRight, p) {
            Some(Corner::TopRight)
        } else {
            None
        }
    }

    /// The corner whose resize cursor is shown for the mouse at `p`: of the
    /// corners within the hover radius, the first in the order bottom
    /// right, bottom left, top right, top left.
    pub open spec fn spec_hovered_corner(self, p: Point) -> Option<Corner> {
        if self.spec_holds(Corner::BottomRight, p) {
            Some(Corner::BottomRight)
        } else if self.spec_holds(Corner::BottomLeft, p) {
            Some(Corner::BottomLeft)
        } else if self.spec_holds(Corner::TopRight, p) {
            Some(Corner::TopRight)
        } else if self.spec_holds(Corner::TopLeft, p) {
            Some(Corner::TopLeft)
        } else {
            None
        }
    }

    /// Size of the canvas: its size before any resize, times its scale.
    pub fn size(&self) -> (s: Point)
        ensures
            s == self.spec_size(),
    {
        Point {
            x: times(self.original_size.x, self.scale.x),
            y: times(self.original_size.y, self.scale.y),
        }
    }

    /// Whether `position` lies strictly within the canvas.
    pub fn within_rect(&self, position: Point) -> (b: bool)
        ensures
            b == spec_within(self.position, self.spec_size(), position),
    {
        within(self.position, self.size(), position)
    }

    /// Whether `p` is within the hover radius of a corner.
    pub fn holds(&self, corner: Corner, p: Point) -> (b: bool)
        ensures
            b == self.spec_holds(corner, p),
    {
        let size: Point = self.size();
        let hx: i128 = (size.x / 2) as i128;
        let hy: i128 = (size.y / 2) as i128;
        let right: bool = match corner {
            Corner::TopRight => true,
            Corner::BottomRight => true,
            _ => false,
        };
        let top: bool = match corner {
            Corner::TopLeft => true,
            Corner::TopRight => true,
            _ => false,
        };
        let cx: i128 = if right {
            self.position.x as i128 + hx
        } else {
            self.position.x as i128 - hx
        };
        let cy: i128 = if top {
            self.position.y as i128 + hy
        } else {
            self.position.y as i128 - hy
        };
        near(cx, cy, p.x, p.y, self.hover_radius)
    }

    /// The resize that a click at `position` begins: none unless the click
    /// is within the hover radius of a corner.
    pub fn clicked_on_plot_corner(&self, position: Point) -> (r: Option<ResizePlotWindow>)
        ensures
            r is Some <==> self.spec_clicked_corner(position) is Some,
            r is Some ==> r->Some_0 == (ResizePlotWindow {
                corner: self.spec_clicked_corner(position)->Some_0,
                previous_position: self.position,
                previous_scale: self.scale,
            }),
    {
        let corner: Corner = if self.holds(Corner::BottomRight, position) {
            Corner::BottomRight
        } else if self.holds(Corner::TopLeft, position) {
            Corner::TopLeft
        } else if self.holds(Corner::BottomLeft, position) {
            Corner::BottomLeft
        } else if self.holds(Corner::TopRight, position) {
            Corner::TopRight
        } else {
            return None;
        };
        Some(
            ResizePlotWindow {
                corner,
                previous_position: self.position,
                previous_scale: self.scale,
            },
        )
    }

    /// The corner whose resize cursor is to be shown for the mouse at
    /// `position`; none where the default cursor is.
    pub fn hovered_on_plot_edges(&self, position: Point) -> (r: Option<Corner>)
        ensures
            r == self.spec_hovered_corner(position),
    {
        if self.holds(Corner::BottomRight, position) {
            Some(Corner::BottomRight)
        } else if self.holds(Corner::BottomLeft, position) {
            Some(Corner::BottomLeft)
        } else if self.holds(Corner::TopRight, position) {
            Some(Corner::TopRight)
        } else if self.holds(Corner::TopLeft, position) {
            Some(Corner::TopLeft)
        } else {
            None
        }
    }

    /// Resizes the canvas for a drag of `delta` since the resize began, and
    /// returns its new size.
    pub fn resize(&mut self, resize: &ResizePlotWindow, delta: Point) -> (size: Point)
        ensures
            *final(self) == (GraphSprite { scale: resize.spec_scale_for(delta), ..*old(self) }),
            size == final(self).spec_size(),
    {
        self.scale = resize.scale_for(delta);
        self.size()
    }

    /// Ends a resize: the scale becomes the one that the next resize starts
    /// from.
    pub fn release(&mut self)
        ensures
            *final(self) == (GraphSprite { previous_scale: old(self).scale, ..*old(self) }),
    {
        self.previous_scale = self.scale;
    }
}

/// Where the mouse is, and where it was last pressed.
#[derive(Clone, Copy, Debug, PartialEq, Eq, Structural)]
pub struct Cursor {
    pub position: Point,
    pub pos_relative_to_click: Point,
    pub last_click_position: Point,
}

impl Default for Cursor {
    fn default() -> (c: Cursor)
        ensures
            c == (Cursor {
                position: Point { x: 0, y: 0 },
                pos_relative_to_click: Point { x: 0, y: 0 },
                last_click_position: Point { x: 0, y: 0 },
            }),
    {
        Cursor {
            position: Point { x: 0, y: 0 },
            pos_relative_to_click: Point { x: 0, y: 0 },
            last_click_position: Point { x: 0, y: 0 },
        }
    }
}

impl Cursor {
    /// The mouse moved to `position`.
    pub fn moved(&mut self, position: Point)
        ensures
            *final(self) == (Cursor {
                position,
                pos_relative_to_click: position.spec_minus(old(self).last_click_position),
                ..*old(self)
            }),
    {
        self.position = position;
        self.pos_relative_to_click = position.minus(self.last_click_position);
    }

    /// The mouse was pressed where it is.
    pub fn pressed(&mut self)
        ensures
            *final(self) == (Cursor {
                pos_relative_to_click: Point { x: 0, y: 0 },
                last_click_position: old(self).position,
                ..*old(self)
            }),
    {
        self.last_click_position = self.position;
        self.pos_relative_to_click = Point { x: 0, y: 0 };
    }
}

} // verus!
