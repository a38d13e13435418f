//! Tessellation of a segment plot: one quad around each segment between
//! consecutive points.
use crate::bezier::{spec_index, spec_normal, Ends, Position, MAX_SAMPLES};
use crate::error::PlotError;
use crate::fixed::{clamp64, clamp_wide, ONE};
use crate::geometry::{Line, Point};
use crate::plot::Plot;
use vstd::prelude::*;

verus! {

/// Half the width, in pixels, of the quad around a segment.
pub const SEGMENT_WIDTH: i64 = 5;

/// The mesh of a segment plot: four vertices and six indices for each
/// segment, each attribute in an array of its own.  The control attribute
/// of a vertex holds the first two corners of its quad.
#[derive(Debug)]
pub struct SegmentMesh {
    pub positions: Vec<Position>,
    pub normals: Vec<Position>,
    pub uvs: Vec<Point>,
    pub ends: Vec<Ends>,
    pub controls: Vec<Ends>,
    pub indices: Vec<u32>,
}

/// One coordinate of a corner of the quad around a segment: the coordinate
/// `end` of the end point, moved by the width along the normal and along
/// the segment, whose coordinates there are `normal` and `along`.  The
/// corners 0 and 2 lie on the side of the normal, 1 and 3 opposite; the
/// corners 0 and 1 lie behind the start, 2 and 3 beyond the end.
pub open spec fn spec_corner_part(end: int, normal: int, along: int, j: int) -> int {
    clamp64(
        end + (if j % 2 == 0 {
            SEGMENT_WIDTH * normal
        } else {
            -(SEGMENT_WIDTH * normal)
        }) + (if j < 2 {
            -(SEGMENT_WIDTH * along)
        } else {
            SEGMENT_WIDTH * along
        }),
    )
}

/// Corner `j` of the quad around the segment from `start` to `end`.
pub open spec fn spec_segment_corner(start: Point, end: Point, j: int) -> Point {
    let along = Line(start, end).spec_unit();
    let near = if j < 2 {
        start
    } else {
        end
    };
    Point {
        x: spec_corner_part(near.x as int, -along.y, along.x as int, j) as i64,
        y: spec_corner_part(near.y as int, along.x as int, along.y as int, j) as i64,
    }
}

/// End points on the screen of the segment of vertex `v`.
pub open spec fn spec_segment_ends(plot: Plot, data: Seq<Point>, v: int) -> Ends {
    Ends { start: plot.spec_to_local(data[v / 4]), end: plot.spec_to_local(data[v / 4 + 1]) }
}

/// Texture coordinate of vertex `v`: corner `v % 4` of quad `v / 4`.
pub open spec fn spec_segment_uv(plot: Plot, data: Seq<Point>, v: int) -> Point {
    spec_segment_corner(
        spec_segment_ends(plot, data, v).start,
        spec_segment_ends(plot, data, v).end,
        v % 4,
    )
}

/// Position of vertex `v`: its corner, at depth zero.
pub open spec fn spec_segment_position(plot: Plot, data: Seq<Point>, v: int) -> Position {
    Position { x: spec_segment_uv(plot, data, v).x, y: spec_segment_uv(plot, data, v).y, z: 0 }
}

/// Control attribute of vertex `v`: the corners 0 and 1 of its quad.
pub open spec fn spec_segment_control(plot: Plot, data: Seq<Point>, v: int) -> Ends {
    Ends {
        start: spec_segment_corner(
            spec_segment_ends(plot, data, v).start,
            spec_segment_ends(plot, data, v).end,
            0,
        ),
        end: spec_segment_corner(
            spec_segment_ends(plot, data, v).start,
            spec_segment_ends(plot, data, v).end,
            1,
        ),
    }
}

impl SegmentMesh {
    /// Whether the mesh holds the quads of the first `segments` segments
    /// through `data` on `plot`.
    pub open spec fn covers(self, plot: Plot, data: Seq<Point>, segments: int) -> bool {
        &&& self.positions@.len() == 4 * segments
        &&& self.normals@.len() == 4 * segments
        &&& self.uvs@.len() == 4 * segments
        &&& self.ends@.len() == 4 * segments
        &&& self.controls@.len() == 4 * segments
        &&& self.indices@.len() == 6 * segments
        &&& forall|v: int|
            0 <= v < 4 * segments ==> #[trigger] self.positions@[v] == spec_segment_position(
                plot,
                data,
                v,
            )
        &&& forall|v: int| 0 <= v < 4 * segments ==> #[trigger] self.normals@[v] == spec_normal()
        &&& forall|v: int|
            0 <= v < 4 * segments ==> #[trigger] self.uvs@[v] == spec_segment_uv(plot, data, v)
        &&& forall|v: int|
            0 <= v < 4 * segments ==> #[trigger] self.ends@[v] == spec_segment_ends(
                plot,
                data,
                v,
            )
        &&& forall|v: int|
            0 <= v < 4 * segments ==> #[trigger] self.controls@[v] == spec_segment_control(
                plot,
                data,
                v,
            )
        &&& forall|i: int|
            0 <= i < 6 * segments ==> #[trigger] self.indices@[i] == spec_index(i)
    }

    /// Whether the mesh is the tessellation of the segments through `data`
    /// on `plot`.
    pub open spec fn is_mesh_of(self, plot: Plot, data: Seq<Point>) -> bool {
        self.covers(plot, data, data.len() - 1)
    }
}

/// One coordinate of a corner of the quad around a segment.
fn corner_part(end: i64, normal: i64, along: i64, even: bool, behind: bool) -> (r: i64)
    requires
        -ONE <= normal <= ONE,
        -ONE <= along <= ONE,
    ensures
        forall|j: int|
            0 <= j < 4 && (j % 2 == 0) == even && (j < 2) == behind ==> r == spec_corner_part(
                end as int,
                normal as int,
                along as int,
                j,
            ),
{
    let n: i128 = (SEGMENT_WIDTH as i128) * (normal as i128);
    let a: i128 = (SEGMENT_WIDTH as i128) * (along as i128);
    let side: i128 = if even {
        n
    } else {
        -n
    };
    let reach: i128 = if behind {
        -a
    } else {
        a
    };
    clamp_wide(end as i128 + side + reach)
}

/// Corner `j` of the quad around the segment from `start` to `end`, whose
/// unit vector is `along`.
fn segment_corner(start: Point, end: Point, along: Point, j: usize) -> (c: Point)
    requires
        j < 4,
        along == Line(start, end).spec_unit(),
        -ONE <= along.x <= ONE,
        -ONE <= along.y <= ONE,
    ensures
        c == spec_segment_corner(start, end, j as int),
{
    let near: Point = if j < 2 {
        start
    } else {
        end
    };
    let even: bool = j % 2 == 0;
    let behind: bool = j < 2;
    Point {
        x: corner_part(near.x, -along.y, along.x, even, behind),
        y: corner_part(near.y, along.x, along.y, even, behind),
    }
}

/// Tessellates the segments through the points: one quad around each
/// segment, five pixels wide on each side and five pixels longer at each
/// end.
pub fn plot_segments(plot: &Plot, data: &Vec<Point>) -> (r: Result<SegmentMesh, PlotError>)
    requires
        plot.wf(),
    ensures
        data.len() < 2 <==> r == Err::<SegmentMesh, PlotError>(PlotError::InsufficientSamples),
        data.len() > MAX_SAMPLES <==> r == Err::<SegmentMesh, PlotError>(
            PlotError::TooManySamples,
        ),
        2 <= data.len() <= MAX_SAMPLES <==> r is Ok,
        r is Ok ==> r->Ok_0.is_mesh_of(*plot, data@),
{
    let n: usize = data.len();
    if n < 2 {
        return Err(PlotError::InsufficientSamples);
    }
    if n > MAX_SAMPLES {
        return Err(PlotError::TooManySamples);
    }
    let mut mesh = SegmentMesh {
        positions: Vec::new(),
        normals: Vec::new(),
        uvs: Vec::new(),
        ends: Vec::new(),
        controls: Vec::new(),
        indices: Vec::new(),
    };
    let mut k: usize = 0;
    while k < n - 1
        invariant
            plot.wf(),
            n == data.len(),
            2 <= n <= MAX_SAMPLES,
            0 <= k <= n - 1,
            mesh.covers(*plot, data@, k as int),
        decreases n - 1 - k,
    {
        let start: Point = plot.to_local(data[k]);
        let end: Point = plot.to_local(data[k + 1]);
        let along: Point = Line(start, end).unit();
        let c0: Point = segment_corner(start, end, along, 0);
        let c1: Point = segment_corner(start, end, along, 1);
        let c2: Point = segment_corner(start, end, along, 2);
        let c3: Point = segment_corner(start, end, along, 3);
        let ghost before = mesh;
        push_segment(&mut mesh, c0, c1, c2, c3, Ends { start, end }, k);
        proof {
            let base = 4 * k as int;
            assert forall|v: int| 0 <= v < 4 * (k + 1) implies #[trigger] mesh.positions@[v]
                == spec_segment_position(*plot, data@, v) by {
                if v >= base {
                    assert(v / 4 == k && v % 4 == v - base);
                } else {
                    assert(mesh.positions@[v] == before.positions@[v]);
                }
            }
            assert forall|v: int| 0 <= v < 4 * (k + 1) implies #[trigger] mesh.uvs@[v]
                == spec_segment_uv(*plot, data@, v) by {
                if v >= base {
                    assert(v / 4 == k && v % 4 == v - base);
                } else {
                    assert(mesh.uvs@[v] == before.uvs@[v]);
                }
            }
            assert forall|v: int| 0 <= v < 4 * (k + 1) implies #[trigger] mesh.normals@[v]
                == spec_normal() by {
                if v < base {
                    assert(mesh.normals@[v] == before.normals@[v]);
                }
            }
            assert forall|v: int| 0 <= v < 4 * (k + 1) implies #[trigger] mesh.ends@[v]
                == spec_segment_ends(*plot, data@, v) by {
                if v >= base {
                    assert(v / 4 == k);
                } else {
                    assert(mesh.ends@[v] == before.ends@[v]);
                }
            }
            assert forall|v: int| 0 <= v < 4 * (k + 1) implies #[trigger] mesh.controls@[v]
                == spec_segment_control(*plot, data@, v) by {
                if v >= base {
                    assert(v / 4 == k);
                } else {
                    assert(mesh.controls@[v] == before.controls@[v]);
                }
            }
            assert forall|i: int| 0 <= i < 6 * (k + 1) implies #[trigger] mesh.indices@[i]
                == spec_index(i) by {
                if i >= 6 * k {
                    assert(i / 6 == k && i % 6 == i - 6 * k);
                } else {
                    assert(mesh.indices@[i] == before.indices@[i]);
                }
            }
        }
        k = k + 1;
    }
    Ok(mesh)
}

/// Appends quad `k` to a mesh: its four corners, with the attributes that
/// its vertices share, and its two triangles.
fn push_segment(
    mesh: &mut SegmentMesh,
    c0: Point,
    c1: Point,
    c2: Point,
    c3: Point,
    ends: Ends,
    k: usize,
)
    requires
        k < MAX_SAMPLES,
    ensures
        final(mesh).positions@ == old(mesh).positions@ + seq![
            Position { x: c0.x, y: c0.y, z: 0 },
            Position { x: c1.x, y: c1.y, z: 0 },
            Position { x: c2.x, y: c2.y, z: 0 },
            Position { x: c3.x, y: c3.y, z: 0 },
        ],
        final(mesh).uvs@ == old(mesh).uvs@ + seq![c0, c1, c2, c3],
        final(mesh).normals@ == old(mesh).normals@ + seq![
            spec_normal(),
            spec_normal(),
            spec_normal(),
            spec_normal(),
        ],
        final(mesh).ends@ == old(mesh).ends@ + seq![ends, ends, ends, ends],
        final(mesh).controls@ == old(mesh).controls@ + seq![
            Ends { start: c0, end: c1 },
            Ends { start: c0, end: c1 },
            Ends { start: c0, end: c1 },
            Ends { start: c0, end: c1 },
        ],
        final(mesh).indices@ == old(mesh).indices@ + seq![
            (4 * k) as u32,
            (4 * k + 1) as u32,
            (4 * k + 2) as u32,
            (4 * k + 3) as u32,
            (4 * k + 2) as u32,
            (4 * k + 1) as u32,
        ],
{
    let normal = Position { x: 0, y: 0, z: ONE };
    let control = Ends { start: c0, end: c1 };
    mesh.positions.push(Position { x: c0.x, y: c0.y, z: 0 });
    mesh.positions.push(Position { x: c1.x, y: c1.y, z: 0 });
    mesh.positions.push(Position { x: c2.x, y: c2.y, z: 0 });
    mesh.positions.push(Position { x: c3.x, y: c3.y, z: 0 });
    mesh.uvs.push(c0);
    mesh.uvs.push(c1);
    mesh.uvs.push(c2);
    mesh.uvs.push(c3);
    mesh.normals.push(normal);
    mesh.normals.push(normal);
    mesh.normals.push(normal);
    mesh.normals.push(normal);
    mesh.ends.push(ends);
    mesh.ends.push(ends);
    mesh.ends.push(ends);
    mesh.ends.push(ends);
    mesh.controls.push(control);
    mesh.controls.push(control);
    mesh.controls.push(control);
    mesh.controls.push(control);
    let base: u32 = (4 * k) as u32;
    mesh.indices.push(base);
    mesh.indices.push(base + 1);
    mesh.indices.push(base + 2);
    mesh.indices.push(base + 3);
    mesh.indices.push(base + 2);
    mesh.indices.push(base + 1);
    assert(mesh.positions@ =~= old(mesh).positions@ + seq![
        Position { x: c0.x, y: c0.y, z: 0 },
        Position { x: c1.x, y: c1.y, z: 0 },
        Position { x: c2.x, y: c2.y, z: 0 },
        Position { x: c3.x, y: c3.y, z: 0 },
    ]);
    assert(mesh.uvs@ =~= old(mesh).uvs@ + seq![c0, c1, c2, c3]);
    assert(mesh.normals@ =~= old(mesh).normals@ + seq![
        spec_normal(),
        spec_normal(),
        spec_normal(),
        spec_normal(),
    ]);
    assert(mesh.ends@ =~= old(mesh).ends@ + seq![ends, ends, ends, ends]);
    assert(mesh.controls@ =~= old(mesh).controls@ + seq![control, control, control, control]);
    assert(mesh.indices@ =~= old(mesh).indices@ + seq![
        (4 * k) as u32,
        (4 * k + 1) as u32,
        (4 * k + 2) as u32,
        (4 * k + 3) as u32,
        (4 * k + 2) as u32,
        (4 * k + 1) as u32,
    ]);
}

} // verus!
