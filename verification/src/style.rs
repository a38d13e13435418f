//! How curves, segments and markers look: colours, styles, options, and the
//! groups of data that a plot holds.
use crate::fixed::{tdiv, ONE};
use crate::geometry::Point;
use vstd::prelude::*;

verus! {

/// A colour: red, green, blue and opacity, each from zero to one.
#[derive(Clone, Copy, Debug, PartialEq, Eq, Structural)]
pub struct Color {
    pub red: i64,
    pub green: i64,
    pub blue: i64,
    pub alpha: i64,
}

/// One channel of a colour, from its eight bits: `c / 255`.
pub open spec fn spec_channel(c: int) -> int {
    tdiv(c * ONE, 255)
}

impl Color {
    /// The opaque colour with the given channels.
    pub fn rgb(red: i64, green: i64, blue: i64) -> (c: Color)
        ensures
            c == (Color { red, green, blue, alpha: ONE }),
    {
        Color { red, green, blue, alpha: ONE }
    }

    /// The colour with the given channels and opacity.
    pub fn rgba(red: i64, green: i64, blue: i64, alpha: i64) -> (c: Color)
        ensures
            c == (Color { red, green, blue, alpha }),
    {
        Color { red, green, blue, alpha }
    }

    /// The opaque colour `0xRRGGBB`.
    pub open spec fn spec_hex(code: u32) -> Color {
        Color {
            red: spec_channel((code as int / 65536) % 256) as i64,
            green: spec_channel((code as int / 256) % 256) as i64,
            blue: spec_channel(code as int % 256) as i64,
            alpha: ONE,
        }
    }

    /// The opaque colour `0xRRGGBB`; bits above the 24th are ignored.
    pub fn hex(code: u32) -> (c: Color)
        ensures
            c == Color::spec_hex(code),
    {
        Color {
            red: channel(((code / 65536) % 256) as u8),
            green: channel(((code / 256) % 256) as u8),
            blue: channel((code % 256) as u8),
            alpha: ONE,
        }
    }

    /// Black.
    pub fn black() -> (c: Color)
        ensures
            c == (Color { red: 0, green: 0, blue: 0, alpha: ONE }),
    {
        Color { red: 0, green: 0, blue: 0, alpha: ONE }
    }

    /// Medium gray.
    pub fn gray() -> (c: Color)
        ensures
            c == (Color { red: 500_000_000, green: 500_000_000, blue: 500_000_000, alpha: ONE }),
    {
        Color { red: 500_000_000, green: 500_000_000, blue: 500_000_000, alpha: ONE }
    }
}

/// One channel of a colour, from its eight bits.
fn channel(c: u8) -> (r: i64)
    ensures
        r == spec_channel(c as int),
{
    ((c as i64) * 1_000_000_000) / 255
}

/// The colours of the palette.
#[derive(Clone, Copy, Debug, PartialEq, Eq, Hash, Structural)]
pub enum PlotColor {
    Gray,
    Black,
    LightPink,
    Pink,
    Violet,
    Blue,
    Green,
    Salmon,
    Orange,
    Latte,
    Cream,
    Yellow,
}

/// Number of shades of each colour of the palette.
pub const SHADES: usize = 6;

impl PlotColor {
    /// Code `0xRRGGBB` of shade `shade` of the colour, from the lightest,
    /// 0, to the darkest, 5.
    pub open spec fn spec_shade(self, shade: int) -> u32 {
        match self {
            PlotColor::Gray => seq![
                0xd4d2ddu32,
                0xb4b3b9u32,
                0xaaa9b1u32,
                0x9f9ea4u32,
                0x66656au32,
                0x59585eu32,
            ][shade],
            PlotColor::Black => seq![
                0x38373cu32,
                0x323337u32,
                0x49484du32,
                0x323136u32,
                0x1c1c1cu32,
                0x111111u32,
            ][shade],
            PlotColor::LightPink => seq![
                0xf1b8bfu32,
                0xd08693u32,
                0xecbbbfu32,
                0xf2b9bfu32,
                0xfebdc5u32,
                0xdf9ea6u32,
            ][shade],
            PlotColor::Pink => seq![
                0xf05285u32,
                0xf9558au32,
                0xe74479u32,
                0xf85187u32,
                0xe9467du32,
                0xca1950u32,
            ][shade],
            PlotColor::Violet => seq![
                0x9e6ea2u32,
                0x94639au32,
                0x64356cu32,
                0x9d71a2u32,
                0x714576u32,
                0x4b2451u32,
            ][shade],
            PlotColor::Blue => seq![
                0x5197cau32,
                0x4a8dc1u32,
                0x4285bau32,
                0x226599u32,
                0x3b6d90u32,
                0x1c567eu32,
            ][shade],
            PlotColor::Green => seq![
                0xafce92u32,
                0xa2c986u32,
                0xb6dd9au32,
                0x8eb274u32,
                0x8eb274u32,
                0x366821u32,
            ][shade],
            PlotColor::Salmon => seq![
                0xf96960u32,
                0xe6564du32,
                0xfc655eu32,
                0xdf4442u32,
                0xdc4846u32,
                0xbb2727u32,
            ][shade],
            PlotColor::Orange => seq![
                0xf8ae6du32,
                0xffaf6au32,
                0xe78347u32,
                0xf28e50u32,
                0xe16f3bu32,
                0xcb6229u32,
            ][shade],
            PlotColor::Latte => seq![
                0xdbb993u32,
                0xe5c49bu32,
                0xdbbb92u32,
                0xd1ae86u32,
                0xbe9b71u32,
                0xb38e62u32,
            ][shade],
            PlotColor::Cream => seq![
                0xf7efe4u32,
                0xf6eddeu32,
                0xf5e9d9u32,
                0xf2e6d8u32,
                0xe9dbceu32,
                0xe8dcccu32,
            ][shade],
            PlotColor::Yellow => seq![
                0xfcd402u32,
                0xfcd305u32,
                0xfad008u32,
                0xefc000u32,
                0xf9c907u32,
                0xd8a600u32,
            ][shade],
        }
    }

    /// Place of the colour in the palette.
    pub open spec fn spec_index(self) -> int {
        match self {
            PlotColor::Gray => 0,
            PlotColor::Black => 1,
            PlotColor::LightPink => 2,
            PlotColor::Pink => 3,
            PlotColor::Violet => 4,
            PlotColor::Blue => 5,
            PlotColor::Green => 6,
            PlotColor::Salmon => 7,
            PlotColor::Orange => 8,
            PlotColor::Latte => 9,
            PlotColor::Cream => 10,
            PlotColor::Yellow => 11,
        }
    }

    /// Place of the colour in the palette.
    pub fn index(self) -> (i: usize)
        ensures
            i == self.spec_index(),
            i < 12,
    {
        match self {
            PlotColor::Gray => 0,
            PlotColor::Black => 1,
            PlotColor::LightPink => 2,
            PlotColor::Pink => 3,
            PlotColor::Violet => 4,
            PlotColor::Blue => 5,
            PlotColor::Green => 6,
            PlotColor::Salmon => 7,
            PlotColor::Orange => 8,
            PlotColor::Latte => 9,
            PlotColor::Cream => 10,
            PlotColor::Yellow => 11,
        }
    }

    /// The colour at place `i` of the palette.
    pub open spec fn spec_at(i: int) -> PlotColor {
        if i == 0 {
            PlotColor::Gray
        } else if i == 1 {
            PlotColor::Black
        } else if i == 2 {
            PlotColor::LightPink
        } else if i == 3 {
            PlotColor::Pink
        } else if i == 4 {
            PlotColor::Violet
        } else if i == 5 {
            PlotColor::Blue
        } else if i == 6 {
            PlotColor::Green
        } else if i == 7 {
            PlotColor::Salmon
        } else if i == 8 {
            PlotColor::Orange
        } else if i == 9 {
            PlotColor::Latte
        } else if i == 10 {
            PlotColor::Cream
        } else {
            PlotColor::Yellow
        }
    }

    /// The colour at place `i` of the palette; none from the twelfth place
    /// on.
    pub fn at(i: usize) -> (c: Option<PlotColor>)
        ensures
            c is Some <==> i < 12,
            c is Some ==> c->Some_0 == PlotColor::spec_at(i as int) && c->Some_0.spec_index() == i,
    {
        if i == 0 {
            Some(PlotColor::Gray)
        } else if i == 1 {
            Some(PlotColor::Black)
        } else if i == 2 {
            Some(PlotColor::LightPink)
        } else if i == 3 {
            Some(PlotColor::Pink)
        } else if i == 4 {
            Some(PlotColor::Violet)
        } else if i == 5 {
            Some(PlotColor::Blue)
        } else if i == 6 {
            Some(PlotColor::Green)
        } else if i == 7 {
            Some(PlotColor::Salmon)
        } else if i == 8 {
            Some(PlotColor::Orange)
        } else if i == 9 {
            Some(PlotColor::Latte)
        } else if i == 10 {
            Some(PlotColor::Cream)
        } else if i == 11 {
            Some(PlotColor::Yellow)
        } else {
            None
        }
    }

    /// The six shades of the colour, from the lightest to the darkest.
    pub open spec fn spec_shades(self) -> Seq<Color> {
        Seq::new(SHADES as nat, |s: int| Color::spec_hex(self.spec_shade(s)))
    }

    /// The six shades of the colour, from the lightest to the darkest.
    pub fn shades(self) -> (v: Vec<Color>)
        ensures
            v@ == self.spec_shades(),
    {
        let codes: [u32; 6] = match self {
            PlotColor::Gray => [0xd4d2dd, 0xb4b3b9, 0xaaa9b1, 0x9f9ea4, 0x66656a, 0x59585e],
            PlotColor::Black => [0x38373c, 0x323337, 0x49484d, 0x323136, 0x1c1c1c, 0x111111],
            PlotColor::LightPink => [0xf1b8bf, 0xd08693, 0xecbbbf, 0xf2b9bf, 0xfebdc5, 0xdf9ea6],
            PlotColor::Pink => [0xf05285, 0xf9558a, 0xe74479, 0xf85187, 0xe9467d, 0xca1950],
            PlotColor::Violet => [0x9e6ea2, 0x94639a, 0x64356c, 0x9d71a2, 0x714576, 0x4b2451],
            PlotColor::Blue => [0x5197ca, 0x4a8dc1, 0x4285ba, 0x226599, 0x3b6d90, 0x1c567e],
            PlotColor::Green => [0xafce92, 0xa2c986, 0xb6dd9a, 0x8eb274, 0x8eb274, 0x366821],
            PlotColor::Salmon => [0xf96960, 0xe6564d, 0xfc655e, 0xdf4442, 0xdc4846, 0xbb2727],
            PlotColor::Orange => [0xf8ae6d, 0xffaf6a, 0xe78347, 0xf28e50, 0xe16f3b, 0xcb6229],
            PlotColor::Latte => [0xdbb993, 0xe5c49b, 0xdbbb92, 0xd1ae86, 0xbe9b71, 0xb38e62],
            PlotColor::Cream => [0xf7efe4, 0xf6edde, 0xf5e9d9, 0xf2e6d8, 0xe9dbce, 0xe8dccc],
            PlotColor::Yellow => [0xfcd402, 0xfcd305, 0xfad008, 0xefc000, 0xf9c907, 0xd8a600],
        };
        let mut v: Vec<Color> = Vec::new();
        let mut s: usize = 0;
        while s < 6
            invariant
                0 <= s <= 6,
                v@.len() == s,
                forall|t: int| 0 <= t < 6 ==> #[trigger] codes@[t] == self.spec_shade(t),
                forall|t: int| 0 <= t < s ==> #[trigger] v@[t] == Color::spec_hex(self.spec_shade(t)),
            decreases 6 - s,
        {
            v.push(Color::hex(codes[s]));
            s = s + 1;
        }
        assert(v@ =~= self.spec_shades());
        v
    }
}

/// The palette: for each colour, at the place that `PlotColor::index`
/// gives, its six shades from the lightest to the darkest.
pub fn make_color_palette() -> (palette: Vec<Vec<Color>>)
    ensures
        palette@.len() == 12,
        forall|i: int| 0 <= i < 12 ==> (#[trigger] palette@[i])@ == PlotColor::spec_at(i).spec_shades(),
{
    let mut palette: Vec<Vec<Color>> = Vec::new();
    let mut i: usize = 0;
    while i < 12
        invariant
            0 <= i <= 12,
            palette@.len() == i,
            forall|j: int|
                0 <= j < i ==> (#[trigger] palette@[j])@ == PlotColor::spec_at(j).spec_shades(),
        decreases 12 - i,
    {
        match PlotColor::at(i) {
            Some(color) => {
                palette.push(color.shades());
            },
            None => {},
        }
        i = i + 1;
    }
    palette
}

/// The shape of the markers of a scatter plot.
#[derive(Clone, Copy, Debug, PartialEq, Eq, Structural)]
pub enum MarkerStyle {
    /// No marker is drawn.
    Hidden,
    Circle,
    Square,
    Triangle,
    Heart,
    Cross,
    Rhombus,
    Star,
    Moon,
    X,
}

impl MarkerStyle {
    /// The number by which the marker shader knows the shape.
    pub open spec fn spec_to_int32(self) -> int {
        match self {
            MarkerStyle::Hidden => -1,
            MarkerStyle::Square => 0,
            MarkerStyle::Heart => 1,
            MarkerStyle::Rhombus => 2,
            MarkerStyle::Triangle => 3,
            MarkerStyle::Star => 4,
            MarkerStyle::Moon => 5,
            MarkerStyle::Cross => 6,
            MarkerStyle::X => 7,
            MarkerStyle::Circle => 8,
        }
    }

    /// The number by which the marker shader knows the shape.
    pub fn to_int32(&self) -> (n: i32)
        ensures
            n == self.spec_to_int32(),
    {
        match self {
            MarkerStyle::Hidden => -1,
            MarkerStyle::Square => 0,
            MarkerStyle::Heart => 1,
            MarkerStyle::Triangle => 3,
            MarkerStyle::Rhombus => 2,
            MarkerStyle::Star => 4,
            MarkerStyle::Moon => 5,
            MarkerStyle::Cross => 6,
            MarkerStyle::X => 7,
            MarkerStyle::Circle => 8,
        }
    }
}

/// Whether the line of a curve or of a segment plot is drawn.
#[derive(Clone, Copy, Debug, PartialEq, Eq, Structural)]
pub enum LineStyle {
    /// No line is drawn.
    Hidden,
    Solid,
}

impl LineStyle {
    /// The number by which the shaders know the style.
    pub open spec fn spec_to_int32(self) -> int {
        match self {
            LineStyle::Hidden => -1,
            LineStyle::Solid => 0,
        }
    }

    /// The number by which the shaders know the style.
    pub fn to_int32(&self) -> (n: i32)
        ensures
            n == self.spec_to_int32(),
    {
        match self {
            LineStyle::Hidden => -1,
            LineStyle::Solid => 0,
        }
    }
}

/// An option of a plot call.
#[derive(Clone, Copy, Debug, PartialEq, Eq, Structural)]
pub enum Opt {
    /// Main colour of a curve or of segments.
    Color(Color),
    /// Thickness of a curve or of segments.
    Size(i64),
    /// Whether the line is drawn.
    LineStyle(LineStyle),
    /// Whether joints are drawn between the parts.
    Mech(bool),
    /// Number of parts of a function plot.
    NumPoints(usize),
    /// Whether a function is sampled anew in every frame.
    Animate(bool),
    /// Main colour of the markers.
    MarkerColor(Color),
    /// Size of the markers, kept between 0.2 and 2.
    MarkerSize(i64),
    /// Shape of the markers.
    MarkerStyle(MarkerStyle),
    /// Colour of the dot at the centre of a marker.
    MarkerInnerPointColor(Color),
    /// Whether the markers have a black border.
    Contour(bool),
}

/// The least size of a marker.
pub const MARKER_SIZE_MIN: i64 = 200_000_000;

/// The greatest size of a marker.
pub const MARKER_SIZE_MAX: i64 = 2_000_000_000;

/// A marker size brought between the least and the greatest.
pub open spec fn spec_marker_size(size: i64) -> i64 {
    if size < MARKER_SIZE_MIN {
        MARKER_SIZE_MIN
    } else if size > MARKER_SIZE_MAX {
        MARKER_SIZE_MAX
    } else {
        size
    }
}

/// How a function is drawn.  The function itself stays with the host, which
/// evaluates it.
#[derive(Clone, Copy, Debug, PartialEq, Eq, Structural)]
pub struct BezierData {
    /// Thickness of the curve.
    pub size: i64,
    pub line_style: LineStyle,
    pub color: Color,
    /// Whether joints are drawn between the parts.
    pub mech: bool,
    /// Number of samples.
    pub num_points: usize,
    /// Whether the function is sampled anew in every frame.
    pub show_animation: bool,
}

/// The look of a function plot where no option says otherwise.
pub open spec fn spec_default_bezier() -> BezierData {
    BezierData {
        size: ONE,
        line_style: LineStyle::Solid,
        color: Color { red: 200_000_000, green: 300_000_000, blue: 800_000_000, alpha: ONE },
        mech: false,
        num_points: 256,
        show_animation: false,
    }
}

impl Default for BezierData {
    fn default() -> (d: BezierData)
        ensures
            d == spec_default_bezier(),
    {
        BezierData {
            size: ONE,
            line_style: LineStyle::Solid,
            color: Color::rgb(200_000_000, 300_000_000, 800_000_000),
            mech: false,
            num_points: 256,
            show_animation: false,
        }
    }
}

impl BezierData {
    /// The data after one option: colour, size, line style, joints and
    /// animation are taken; the options of markers are not.
    pub open spec fn spec_with(self, option: Opt) -> BezierData {
        match option {
            Opt::Color(c) => BezierData { color: c, ..self },
            Opt::Size(s) => BezierData { size: s, ..self },
            Opt::LineStyle(l) => BezierData { line_style: l, ..self },
            Opt::Mech(m) => BezierData { mech: m, ..self },
            Opt::Animate(a) => BezierData { show_animation: a, ..self },
            _ => self,
        }
    }

    /// The data after the first `n` of the options, in their order.
    pub open spec fn spec_with_all(self, options: Seq<Opt>, n: int) -> BezierData
        decreases n,
    {
        if n <= 0 {
            self
        } else {
            self.spec_with_all(options, n - 1).spec_with(options[n - 1])
        }
    }

    /// Whether the option is one of a function plot.
    pub open spec fn spec_accepts(option: Opt) -> bool {
        option is Color || option is Size || option is LineStyle || option is Mech
            || option is Animate
    }

    /// Whether the option is one of a function plot.
    pub fn accepts(option: &Opt) -> (b: bool)
        ensures
            b == BezierData::spec_accepts(*option),
    {
        match option {
            Opt::Color(_) => true,
            Opt::Size(_) => true,
            Opt::LineStyle(_) => true,
            Opt::Mech(_) => true,
            Opt::Animate(_) => true,
            _ => false,
        }
    }
}

/// The points of a scatter plot and how their markers look.
#[derive(Clone, Debug, PartialEq, Eq)]
pub struct MarkerData {
    pub data: Vec<Point>,
    /// Main colour of the markers.
    pub color: Color,
    /// Colour of the dot at the centre of a marker.
    pub marker_point_color: Color,
    pub marker_style: MarkerStyle,
    /// Size of the markers, between 0.2 and 2.
    pub size: i64,
    /// Whether the markers have a black border.
    pub draw_contour: bool,
}

/// The look of markers where no option says otherwise.
pub open spec fn spec_default_marker_look() -> MarkerLook {
    MarkerLook {
        color: Color { red: 500_000_000, green: 500_000_000, blue: 100_000_000, alpha: ONE },
        marker_point_color: Color {
            red: 200_000_000,
            green: 300_000_000,
            blue: 800_000_000,
            alpha: ONE,
        },
        marker_style: MarkerStyle::Circle,
        size: ONE,
        draw_contour: false,
    }
}

/// How markers look: all of `MarkerData` but the points.
pub struct MarkerLook {
    pub color: Color,
    pub marker_point_color: Color,
    pub marker_style: MarkerStyle,
    pub size: i64,
    pub draw_contour: bool,
}

impl MarkerLook {
    /// The look after one option: the options of markers are taken, with
    /// the size brought between 0.2 and 2; the others are not.
    pub open spec fn spec_with(self, option: Opt) -> MarkerLook {
        match option {
            Opt::MarkerColor(c) => MarkerLook { color: c, ..self },
            Opt::MarkerSize(s) => MarkerLook { size: spec_marker_size(s), ..self },
            Opt::MarkerStyle(m) => MarkerLook { marker_style: m, ..self },
            Opt::MarkerInnerPointColor(c) => MarkerLook { marker_point_color: c, ..self },
            Opt::Contour(b) => MarkerLook { draw_contour: b, ..self },
            _ => self,
        }
    }

    /// The look after the first `n` of the options, in their order.
    pub open spec fn spec_with_all(self, options: Seq<Opt>, n: int) -> MarkerLook
        decreases n,
    {
        if n <= 0 {
            self
        } else {
            self.spec_with_all(options, n - 1).spec_with(options[n - 1])
        }
    }
}

impl MarkerData {
    /// How the markers look.
    pub open spec fn look(self) -> MarkerLook {
        MarkerLook {
            color: self.color,
            marker_point_color: self.marker_point_color,
            marker_style: self.marker_style,
            size: self.size,
            draw_contour: self.draw_contour,
        }
    }

    /// Markers of the default look at the given points.
    pub fn of(data: Vec<Point>) -> (d: MarkerData)
        ensures
            d.data@ == data@,
            d.look() == spec_default_marker_look(),
    {
        MarkerData {
            data,
            color: Color::rgb(500_000_000, 500_000_000, 100_000_000),
            marker_point_color: Color::rgb(200_000_000, 300_000_000, 800_000_000),
            marker_style: MarkerStyle::Circle,
            size: ONE,
            draw_contour: false,
        }
    }

    /// Takes one option.
    pub fn apply(&mut self, option: &Opt)
        ensures
            final(self).data@ == old(self).data@,
            final(self).look() == old(self).look().spec_with(*option),
    {
        match option {
            Opt::MarkerColor(c) => {
                self.color = *c;
            },
            Opt::MarkerSize(s) => {
                self.size = if *s < MARKER_SIZE_MIN {
                    MARKER_SIZE_MIN
                } else if *s > MARKER_SIZE_MAX {
                    MARKER_SIZE_MAX
                } else {
                    *s
                };
            },
            Opt::MarkerStyle(m) => {
                self.marker_style = *m;
            },
            Opt::MarkerInnerPointColor(c) => {
                self.marker_point_color = *c;
            },
            Opt::Contour(b) => {
                self.draw_contour = *b;
            },
            _ => {},
        }
    }
}

impl Default for MarkerData {
    fn default() -> (d: MarkerData)
        ensures
            d.data@.len() == 0,
            d.look() == spec_default_marker_look(),
    {
        MarkerData::of(Vec::new())
    }
}

/// The points of a segment plot and how its segments look.
#[derive(Clone, Debug, PartialEq, Eq)]
pub struct SegmentData {
    pub data: Vec<Point>,
    pub color: Color,
    /// Thickness of the segments.
    pub size: i64,
    pub line_style: LineStyle,
    pub draw_contour: bool,
    /// Whether joints are drawn between the segments.
    pub mech: bool,
}

/// How segments look: all of `SegmentData` but the points.
pub struct SegmentLook {
    pub color: Color,
    pub size: i64,
    pub line_style: LineStyle,
    pub draw_contour: bool,
    pub mech: bool,
}

/// The look of segments where no option says otherwise.
pub open spec fn spec_default_segment_look() -> SegmentLook {
    SegmentLook {
        color: Color::spec_hex(0x8eb274),
        size: ONE,
        line_style: LineStyle::Solid,
        draw_contour: false,
        mech: false,
    }
}

impl SegmentLook {
    /// The look after one option: colour, size, line style and joints are
    /// taken; the others are not.
    pub open spec fn spec_with(self, option: Opt) -> SegmentLook {
        match option {
            Opt::Color(c) => SegmentLook { color: c, ..self },
            Opt::Size(s) => SegmentLook { size: s, ..self },
            Opt::LineStyle(l) => SegmentLook { line_style: l, ..self },
            Opt::Mech(m) => SegmentLook { mech: m, ..self },
            _ => self,
        }
    }

    /// The look after the first `n` of the options, in their order.
    pub open spec fn spec_with_all(self, options: Seq<Opt>, n: int) -> SegmentLook
        decreases n,
    {
        if n <= 0 {
            self
        } else {
            self.spec_with_all(options, n - 1).spec_with(options[n - 1])
        }
    }
}

impl SegmentData {
    /// How the segments look.
    pub open spec fn look(self) -> SegmentLook {
        SegmentLook {
            color: self.color,
            size: self.size,
            line_style: self.line_style,
            draw_contour: self.draw_contour,
            mech: self.mech,
        }
    }

    /// Segments of the default look through the given points.
    pub fn of(data: Vec<Point>) -> (d: SegmentData)
        ensures
            d.data@ == data@,
            d.look() == spec_default_segment_look(),
    {
        SegmentData {
            data,
            color: Color::hex(0x8eb274),
            size: ONE,
            line_style: LineStyle::Solid,
            draw_contour: false,
            mech: false,
        }
    }

    /// Takes one option.
    pub fn apply(&mut self, option: &Opt)
        ensures
            final(self).data@ == old(self).data@,
            final(self).look() == old(self).look().spec_with(*option),
    {
        match option {
            Opt::Color(c) => {
                self.color = *c;
            },
            Opt::Size(s) => {
                self.size = *s;
            },
            Opt::LineStyle(l) => {
                self.line_style = *l;
            },
            Opt::Mech(m) => {
                self.mech = *m;
            },
            _ => {},
        }
    }
}

impl Default for SegmentData {
    fn default() -> (d: SegmentData)
        ensures
            d.data@.len() == 0,
            d.look() == spec_default_segment_look(),
    {
        SegmentData::of(Vec::new())
    }
}

/// What a plot shows: its scatter plots, its segment plots and its function
/// plots, each in the order in which they were added.
#[derive(Clone, Debug, PartialEq, Eq)]
pub struct PlotData {
    pub marker_groups: Vec<MarkerData>,
    pub segment_groups: Vec<SegmentData>,
    pub bezier_groups: Vec<BezierData>,
}

impl PlotData {
    /// Whether nothing is plotted.
    pub open spec fn is_empty(self) -> bool {
        self.marker_groups@.len() == 0 && self.segment_groups@.len() == 0
            && self.bezier_groups@.len() == 0
    }
}

impl Default for PlotData {
    fn default() -> (d: PlotData)
        ensures
            d.is_empty(),
    {
        PlotData {
            marker_groups: Vec::new(),
            segment_groups: Vec::new(),
            bezier_groups: Vec::new(),
        }
    }
}

} // verus!
