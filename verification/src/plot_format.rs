//! The shapes in which data comes to a plot, and the one shape in which the
//! plot keeps it: a sequence of points.
use crate::fixed::{clamp_wide, spec_from_int};
use crate::geometry::Point;
use vstd::prelude::*;

verus! {

/// Data in the shape in which a plot keeps it.
#[derive(Clone, Debug, PartialEq, Eq)]
pub struct PlotFormat {
    pub data: Vec<Point>,
}

/// Data that can be plotted: whatever gives a sequence of points.
pub trait Plotable {
    /// The points that the data stands for.
    spec fn spec_points(&self) -> Seq<Point>;

    /// The data as a sequence of points.
    fn into_plot_format(&self) -> (pf: PlotFormat)
        ensures
            pf.data@ == self.spec_points(),
    ;
}

/// The point with the whole-number coordinates `x` and `y`.
pub open spec fn spec_whole_point(x: int, y: int) -> Point {
    Point { x: spec_from_int(x) as i64, y: spec_from_int(y) as i64 }
}

/// The fixed-point number that stands for the whole number `v`.
fn whole(v: i128) -> (r: i64)
    requires
        -0xffff_ffff_ffff_ffff <= v <= 0xffff_ffff_ffff_ffff,
    ensures
        r == spec_from_int(v as int),
{
    clamp_wide(v * 1_000_000_000)
}

impl Plotable for Vec<Point> {
    open spec fn spec_points(&self) -> Seq<Point> {
        self@
    }

    fn into_plot_format(&self) -> (pf: PlotFormat) {
        let mut data: Vec<Point> = Vec::new();
        let mut i: usize = 0;
        while i < self.len()
            invariant
                0 <= i <= self.len(),
                data@ == self@.subrange(0, i as int),
            decreases self.len() - i,
        {
            data.push(self[i]);
            assert(data@ =~= self@.subrange(0, i + 1));
            i = i + 1;
        }
        assert(data@ =~= self@);
        PlotFormat { data }
    }
}

/// Values against their place in the sequence: value `i` is plotted at the
/// abscissa `i`.
impl Plotable for Vec<i64> {
    open spec fn spec_points(&self) -> Seq<Point> {
        Seq::new(self@.len(), |i: int| Point { x: spec_from_int(i) as i64, y: self@[i] })
    }

    fn into_plot_format(&self) -> (pf: PlotFormat) {
        let mut data: Vec<Point> = Vec::new();
        let mut i: usize = 0;
        while i < self.len()
            invariant
                0 <= i <= self.len(),
                data@.len() == i,
                forall|j: int|
                    0 <= j < i ==> #[trigger] data@[j] == (Point {
                        x: spec_from_int(j) as i64,
                        y: self@[j],
                    }),
            decreases self.len() - i,
        {
            data.push(Point { x: whole(i as i128), y: self[i] });
            i = i + 1;
        }
        assert(data@ =~= self.spec_points());
        PlotFormat { data }
    }
}

/// Pairs of whole numbers.
impl Plotable for Vec<(i64, i64)> {
    open spec fn spec_points(&self) -> Seq<Point> {
        Seq::new(self@.len(), |i: int| spec_whole_point(self@[i].0 as int, self@[i].1 as int))
    }

    fn into_plot_format(&self) -> (pf: PlotFormat) {
        let mut data: Vec<Point> = Vec::new();
        let mut i: usize = 0;
        while i < self.len()
            invariant
                0 <= i <= self.len(),
                data@.len() == i,
                forall|j: int|
                    0 <= j < i ==> #[trigger] data@[j] == spec_whole_point(
                        self@[j].0 as int,
                        self@[j].1 as int,
                    ),
            decreases self.len() - i,
        {
            let pair: (i64, i64) = self[i];
            data.push(Point { x: whole(pair.0 as i128), y: whole(pair.1 as i128) });
            i = i + 1;
        }
        assert(data@ =~= self.spec_points());
        PlotFormat { data }
    }
}

/// Pairs of whole numbers.
impl Plotable for Vec<(i32, i32)> {
    open spec fn spec_points(&self) -> Seq<Point> {
        Seq::new(self@.len(), |i: int| spec_whole_point(self@[i].0 as int, self@[i].1 as int))
    }

    fn into_plot_format(&self) -> (pf: PlotFormat) {
        let mut data: Vec<Point> = Vec::new();
        let mut i: usize = 0;
        while i < self.len()
            invariant
                0 <= i <= self.len(),
                data@.len() == i,
                forall|j: int|
                    0 <= j < i ==> #[trigger] data@[j] == spec_whole_point(
                        self@[j].0 as int,
                        self@[j].1 as int,
                    ),
            decreases self.len() - i,
        {
            let pair: (i32, i32) = self[i];
            data.push(Point { x: whole(pair.0 as i128), y: whole(pair.1 as i128) });
            i = i + 1;
        }
        assert(data@ =~= self.spec_points());
        PlotFormat { data }
    }
}

/// Pairs of whole numbers.
impl Plotable for Vec<(i16, i16)> {
    open spec fn spec_points(&self) -> Seq<Point> {
        Seq::new(self@.len(), |i: int| spec_whole_point(self@[i].0 as int, self@[i].1 as int))
    }

    fn into_plot_format(&self) -> (pf: PlotFormat) {
        let mut data: Vec<Point> = Vec::new();
        let mut i: usize = 0;
        while i < self.len()
            invariant
                0 <= i <= self.len(),
                data@.len() == i,
                forall|j: int|
                    0 <= j < i ==> #[trigger] data@[j] == spec_whole_point(
                        self@[j].0 as int,
                        self@[j].1 as int,
                    ),
            decreases self.len() - i,
        {
            let pair: (i16, i16) = self[i];
            data.push(Point { x: whole(pair.0 as i128), y: whole(pair.1 as i128) });
            i = i + 1;
        }
        assert(data@ =~= self.spec_points());
        PlotFormat { data }
    }
}

/// Pairs of whole numbers.
impl Plotable for Vec<(i8, i8)> {
    open spec fn spec_points(&self) -> Seq<Point> {
        Seq::new(self@.len(), |i: int| spec_whole_point(self@[i].0 as int, self@[i].1 as int))
    }

    fn into_plot_format(&self) -> (pf: PlotFormat) {
        let mut data: Vec<Point> = Vec::new();
        let mut i: usize = 0;
        while i < self.len()
            invariant
                0 <= i <= self.len(),
                data@.len() == i,
                forall|j: int|
                    0 <= j < i ==> #[trigger] data@[j] == spec_whole_point(
                        self@[j].0 as int,
                        self@[j].1 as int,
                    ),
            decreases self.len() - i,
        {
            let pair: (i8, i8) = self[i];
            data.push(Point { x: whole(pair.0 as i128), y: whole(pair.1 as i128) });
            i = i + 1;
        }
        assert(data@ =~= self.spec_points());
        PlotFormat { data }
    }
}

/// Pairs of whole numbers.
impl Plotable for Vec<(u8, u8)> {
    open spec fn spec_points(&self) -> Seq<Point> {
        Seq::new(self@.len(), |i: int| spec_whole_point(self@[i].0 as int, self@[i].1 as int))
    }

    fn into_plot_format(&self) -> (pf: PlotFormat) {
        let mut data: Vec<Point> = Vec::new();
        let mut i: usize = 0;
        while i < self.len()
            invariant
                0 <= i <= self.len(),
                data@.len() == i,
                forall|j: int|
                    0 <= j < i ==> #[trigger] data@[j] == spec_whole_point(
                        self@[j].0 as int,
                        self@[j].1 as int,
                    ),
            decreases self.len() - i,
        {
            let pair: (u8, u8) = self[i];
            data.push(Point { x: whole(pair.0 as i128), y: whole(pair.1 as i128) });
            i = i + 1;
        }
        assert(data@ =~= self.spec_points());
        PlotFormat { data }
    }
}

/// Pairs of whole numbers.
impl Plotable for Vec<(u16, u16)> {
    open spec fn spec_points(&self) -> Seq<Point> {
        Seq::new(self@.len(), |i: int| spec_whole_point(self@[i].0 as int, self@[i].1 as int))
    }

    fn into_plot_format(&self) -> (pf: PlotFormat) {
        let mut data: Vec<Point> = Vec::new();
        let mut i: usize = 0;
        while i < self.len()
            invariant
                0 <= i <= self.len(),
                data@.len() == i,
                forall|j: int|
                    0 <= j < i ==> #[trigger] data@[j] == spec_whole_point(
                        self@[j].0 as int,
                        self@[j].1 as int,
                    ),
            decreases self.len() - i,
        {
            let pair: (u16, u16) = self[i];
            data.push(Point { x: whole(pair.0 as i128), y: whole(pair.1 as i128) });
            i = i + 1;
        }
        assert(data@ =~= self.spec_points());
        PlotFormat { data }
    }
}

/// Pairs of whole numbers.
impl Plotable for Vec<(u32, u32)> {
    open spec fn spec_points(&self) -> Seq<Point> {
        Seq::new(self@.len(), |i: int| spec_whole_point(self@[i].0 as int, self@[i].1 as int))
    }

    fn into_plot_format(&self) -> (pf: PlotFormat) {
        let mut data: Vec<Point> = Vec::new();
        let mut i: usize = 0;
        while i < self.len()
            invariant
                0 <= i <= self.len(),
                data@.len() == i,
                forall|j: int|
                    0 <= j < i ==> #[trigger] data@[j] == spec_whole_point(
                        self@[j].0 as int,
                        self@[j].1 as int,
                    ),
            decreases self.len() - i,
        {
            let pair: (u32, u32) = self[i];
            data.push(Point { x: whole(pair.0 as i128), y: whole(pair.1 as i128) });
            i = i + 1;
        }
        assert(data@ =~= self.spec_points());
        PlotFormat { data }
    }
}

/// Pairs of whole numbers.
impl Plotable for Vec<(u64, u64)> {
    open spec fn spec_points(&self) -> Seq<Point> {
        Seq::new(self@.len(), |i: int| spec_whole_point(self@[i].0 as int, self@[i].1 as int))
    }

    fn into_plot_format(&self) -> (pf: PlotFormat) {
        let mut data: Vec<Point> = Vec::new();
        let mut i: usize = 0;
        while i < self.len()
            invariant
                0 <= i <= self.len(),
                data@.len() == i,
                forall|j: int|
                    0 <= j < i ==> #[trigger] data@[j] == spec_whole_point(
                        self@[j].0 as int,
                        self@[j].1 as int,
                    ),
            decreases self.len() - i,
        {
            let pair: (u64, u64) = self[i];
            data.push(Point { x: whole(pair.0 as i128), y: whole(pair.1 as i128) });
            i = i + 1;
        }
        assert(data@ =~= self.spec_points());
        PlotFormat { data }
    }
}

/// Pairs of whole numbers.
impl Plotable for Vec<(usize, usize)> {
    open spec fn spec_points(&self) -> Seq<Point> {
        Seq::new(self@.len(), |i: int| spec_whole_point(self@[i].0 as int, self@[i].1 as int))
    }

    fn into_plot_format(&self) -> (pf: PlotFormat) {
        let mut data: Vec<Point> = Vec::new();
        let mut i: usize = 0;
        while i < self.len()
            invariant
                0 <= i <= self.len(),
                data@.len() == i,
                forall|j: int|
                    0 <= j < i ==> #[trigger] data@[j] == spec_whole_point(
                        self@[j].0 as int,
                        self@[j].1 as int,
                    ),
            decreases self.len() - i,
        {
            let pair: (usize, usize) = self[i];
            data.push(Point { x: whole(pair.0 as i128), y: whole(pair.1 as i128) });
            i = i + 1;
        }
        assert(data@ =~= self.spec_points());
        PlotFormat { data }
    }
}

} // verus!
