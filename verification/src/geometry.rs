use vstd::prelude::*;
use crate::pixel::{rgba, spec_rgba};

verus! {

/// One point of a primitive: a packed 32-bit colour and a position.
///
/// Positions are fixed-point, in hundredths of a world unit; the geometry
/// tables live on a small exact grid, and the host converts to the device's
/// floating-point vertex layout at the hardware boundary.
#[derive(Clone, Copy, Debug, PartialEq, Eq, Structural)]
pub struct Vertex {
    /// Packed colour, in the layout `spec_rgba` describes.
    pub color: u32,
    /// Horizontal position, hundredths of a unit.
    pub x: i32,
    /// Vertical position, hundredths of a unit.
    pub y: i32,
    /// Depth, hundredths of a unit; one primitive keeps a single depth.
    pub z: i32,
}

/// The three corners of the plain triangle.
pub open spec fn triangle_table() -> Seq<Vertex> {
    seq![
        Vertex { color: spec_rgba(210, 0, 238, 0), x: 35i32, y: 0i32, z: -1000i32 },
        Vertex { color: spec_rgba(210, 10, 238, 0), x: -35i32, y: 0i32, z: -1000i32 },
        Vertex { color: spec_rgba(210, 0, 238, 0), x: 0i32, y: 50i32, z: -1000i32 },
    ]
}

/// The three corners of the right triangle.
pub open spec fn triangle_2_table() -> Seq<Vertex> {
    seq![
        Vertex { color: spec_rgba(247, 190, 3, 0), x: 0i32, y: 0i32, z: -1000i32 },
        Vertex { color: spec_rgba(247, 190, 3, 0), x: -50i32, y: 0i32, z: -1000i32 },
        Vertex { color: spec_rgba(247, 190, 3, 0), x: 0i32, y: 50i32, z: -1000i32 },
    ]
}

/// The square as two explicit triangles (six vertices, the diagonal pair
/// written twice).
pub open spec fn square_table() -> Seq<Vertex> {
    seq![
        Vertex { color: spec_rgba(14, 212, 106, 0), x: -15i32, y: -15i32, z: -1000i32 },
        Vertex { color: spec_rgba(14, 212, 106, 0), x: -15i32, y: 15i32, z: -1000i32 },
        Vertex { color: spec_rgba(14, 212, 106, 0), x: 15i32, y: 15i32, z: -1000i32 },
        Vertex { color: spec_rgba(14, 212, 106, 0), x: 15i32, y: 15i32, z: -1000i32 },
        Vertex { color: spec_rgba(14, 212, 106, 0), x: 15i32, y: -15i32, z: -1000i32 },
        Vertex { color: spec_rgba(14, 212, 106, 0), x: -15i32, y: -15i32, z: -1000i32 },
    ]
}

/// The rectangle as two explicit triangles (six vertices).
pub open spec fn rectangle_table() -> Seq<Vertex> {
    seq![
        Vertex { color: spec_rgba(247, 190, 3, 0), x: -15i32, y: -30i32, z: -1000i32 },
        Vertex { color: spec_rgba(247, 190, 3, 0), x: -15i32, y: 30i32, z: -1000i32 },
        Vertex { color: spec_rgba(247, 190, 3, 0), x: 15i32, y: 30i32, z: -1000i32 },
        Vertex { color: spec_rgba(247, 190, 3, 0), x: 15i32, y: 30i32, z: -1000i32 },
        Vertex { color: spec_rgba(247, 190, 3, 0), x: 15i32, y: -30i32, z: -1000i32 },
        Vertex { color: spec_rgba(247, 190, 3, 0), x: -15i32, y: -30i32, z: -1000i32 },
    ]
}

/// The rectangle's four distinct corners, for indexed drawing: the doubled
/// diagonal vertices of the plain table appear once each.
pub open spec fn rectangle_indexed_table() -> Seq<Vertex> {
    seq![
        Vertex { color: spec_rgba(247, 190, 3, 0), x: -15i32, y: -30i32, z: -1000i32 },
        Vertex { color: spec_rgba(14, 212, 106, 0), x: -15i32, y: 30i32, z: -1000i32 },
        Vertex { color: spec_rgba(247, 190, 3, 0), x: 15i32, y: 30i32, z: -1000i32 },
        Vertex { color: spec_rgba(210, 0, 238, 0), x: 15i32, y: -30i32, z: -1000i32 },
    ]
}

/// The index list that builds the rectangle's two triangles from its four
/// corners.
pub open spec fn rectangle_index_table() -> Seq<u16> {
    seq![0u16, 1u16, 2u16, 2u16, 3u16, 0u16]
}

/// Every index names a vertex of a table of length `n`.
pub open spec fn indices_in_range(idx: Seq<u16>, n: nat) -> bool {
    forall|i: int| 0 <= i < idx.len() ==> (#[trigger] idx[i]) < n
}

/// The vertices a draw call actually consumes when an index list is given:
/// each index replaced by the vertex it names.
pub open spec fn resolve_indices(verts: Seq<Vertex>, idx: Seq<u16>) -> Seq<Vertex> {
    idx.map_values(|k: u16| verts[k as int])
}

/// Twice the signed area of the triangle `(a, b, p)`: negative when `p`
/// lies clockwise of the directed edge from `a` to `b`.
pub open spec fn edge_side(ax: int, ay: int, bx: int, by: int, px: int, py: int) -> int {
    (bx - ax) * (py - ay) - (by - ay) * (px - ax)
}

/// Whether the point `(px, py)` lies inside the clockwise-wound triangle
/// `(a, b, c)`, boundary included: on or clockwise of each directed edge.
pub open spec fn triangle_contains(a: Vertex, b: Vertex, c: Vertex, px: int, py: int) -> bool {
    &&& edge_side(a.x as int, a.y as int, b.x as int, b.y as int, px, py) <= 0
    &&& edge_side(b.x as int, b.y as int, c.x as int, c.y as int, px, py) <= 0
    &&& edge_side(c.x as int, c.y as int, a.x as int, a.y as int, px, py) <= 0
}

/// The plain triangle's corners.
pub fn triangle() -> (v: Vec<Vertex>)
    ensures
        v@ == triangle_table(),
{
    let mut v: Vec<Vertex> = Vec::new();
    v.push(Vertex { color: rgba(210, 0, 238, 0), x: 35i32, y: 0i32, z: -1000i32 });
    v.push(Vertex { color: rgba(210, 10, 238, 0), x: -35i32, y: 0i32, z: -1000i32 });
    v.push(Vertex { color: rgba(210, 0, 238, 0), x: 0i32, y: 50i32, z: -1000i32 });
    proof {
        assert(v@ =~= triangle_table());
    }
    v
}

/// The right triangle's corners.
pub fn triangle_2() -> (v: Vec<Vertex>)
    ensures
        v@ == triangle_2_table(),
{
    let mut v: Vec<Vertex> = Vec::new();
    v.push(Vertex { color: rgba(247, 190, 3, 0), x: 0i32, y: 0i32, z: -1000i32 });
    v.push(Vertex { color: rgba(247, 190, 3, 0), x: -50i32, y: 0i32, z: -1000i32 });
    v.push(Vertex { color: rgba(247, 190, 3, 0), x: 0i32, y: 50i32, z: -1000i32 });
    proof {
        assert(v@ =~= triangle_2_table());
    }
    v
}

/// The square as two explicit triangles.
pub fn square() -> (v: Vec<Vertex>)
    ensures
        v@ == square_table(),
{
    let mut v: Vec<Vertex> = Vec::new();
    v.push(Vertex { color: rgba(14, 212, 106, 0), x: -15i32, y: -15i32, z: -1000i32 });
    v.push(Vertex { color: rgba(14, 212, 106, 0), x: -15i32, y: 15i32, z: -1000i32 });
    v.push(Vertex { color: rgba(14, 212, 106, 0), x: 15i32, y: 15i32, z: -1000i32 });
    v.push(Vertex { color: rgba(14, 212, 106, 0), x: 15i32, y: 15i32, z: -1000i32 });
    v.push(Vertex { color: rgba(14, 212, 106, 0), x: 15i32, y: -15i32, z: -1000i32 });
    v.push(Vertex { color: rgba(14, 212, 106, 0), x: -15i32, y: -15i32, z: -1000i32 });
    proof {
        assert(v@ =~= square_table());
    }
    v
}

/// The rectangle as two explicit triangles.
pub fn rectangle() -> (v: Vec<Vertex>)
    ensures
        v@ == rectangle_table(),
{
    let mut v: Vec<Vertex> = Vec::new();
    v.push(Vertex { color: rgba(247, 190, 3, 0), x: -15i32, y: -30i32, z: -1000i32 });
    v.push(Vertex { color: rgba(247, 190, 3, 0), x: -15i32, y: 30i32, z: -1000i32 });
    v.push(Vertex { color: rgba(247, 190, 3, 0), x: 15i32, y: 30i32, z: -1000i32 });
    v.push(Vertex { color: rgba(247, 190, 3, 0), x: 15i32, y: 30i32, z: -1000i32 });
    v.push(Vertex { color: rgba(247, 190, 3, 0), x: 15i32, y: -30i32, z: -1000i32 });
    v.push(Vertex { color: rgba(247, 190, 3, 0), x: -15i32, y: -30i32, z: -1000i32 });
    proof {
        assert(v@ =~= rectangle_table());
    }
    v
}

/// The rectangle's four distinct corners, for indexed drawing.
pub fn rectangle_indexed() -> (v: Vec<Vertex>)
    ensures
        v@ == rectangle_indexed_table(),
{
    let mut v: Vec<Vertex> = Vec::new();
    v.push(Vertex { color: rgba(247, 190, 3, 0), x: -15i32, y: -30i32, z: -1000i32 });
    v.push(Vertex { color: rgba(14, 212, 106, 0), x: -15i32, y: 30i32, z: -1000i32 });
    v.push(Vertex { color: rgba(247, 190, 3, 0), x: 15i32, y: 30i32, z: -1000i32 });
    v.push(Vertex { color: rgba(210, 0, 238, 0), x: 15i32, y: -30i32, z: -1000i32 });
    proof {
        assert(v@ =~= rectangle_indexed_table());
    }
    v
}

/// The index list for the indexed rectangle; every index is in range of the
/// four-corner table.
pub fn rectangle_indices() -> (v: Vec<u16>)
    ensures
        v@ == rectangle_index_table(),
        indices_in_range(v@, rectangle_indexed_table().len()),
{
    let mut v: Vec<u16> = Vec::new();
    v.push(0);
    v.push(1);
    v.push(2);
    v.push(2);
    v.push(3);
    v.push(0);
    proof {
        assert(v@ =~= rectangle_index_table());
    }
    v
}

/// The six indices of the indexed rectangle resolve to exactly two
/// triangles that share the rectangle's diagonal vertex pair, and the six
/// resolved corners stand at the same positions as the plain six-vertex
/// rectangle table.
pub proof fn lemma_indexed_rectangle_resolution()
    ensures
        ({
            let v = resolve_indices(rectangle_indexed_table(), rectangle_index_table());
            let r = rectangle_table();
            &&& v.len() == 6
            &&& v[3] == v[2]
            &&& v[5] == v[0]
            &&& forall|i: int|
                0 <= i < 6 ==> (#[trigger] v[i]).x == r[i].x && v[i].y == r[i].y && v[i].z == r[i].z
        }),
{
    let v = resolve_indices(rectangle_indexed_table(), rectangle_index_table());
    let t = rectangle_indexed_table();
    assert(v =~= seq![t[0], t[1], t[2], t[2], t[3], t[0]]);
}

/// The two triangles of the indexed rectangle tile it exactly once: a point
/// lies in the rectangle spanned by the table's corners iff it lies in one
/// of the two resolved triangles, and in both triangles only on the shared
/// diagonal between the corners the two triangles have in common.
pub proof fn lemma_indexed_rectangle_covers(px: int, py: int)
    ensures
        ({
            let v = resolve_indices(rectangle_indexed_table(), rectangle_index_table());
            let in_first = triangle_contains(v[0], v[1], v[2], px, py);
            let in_second = triangle_contains(v[3], v[4], v[5], px, py);
            &&& (in_first || in_second) <==> (-15 <= px <= 15 && -30 <= py <= 30)
            &&& (in_first && in_second) <==> (-15 <= px <= 15 && py == 2 * px)
        }),
{
    let v = resolve_indices(rectangle_indexed_table(), rectangle_index_table());
    let t = rectangle_indexed_table();
    assert(v =~= seq![t[0], t[1], t[2], t[2], t[3], t[0]]);
    assert(edge_side(-15, -30, -15, 30, px, py) == -60 * (px + 15));
    assert(edge_side(-15, 30, 15, 30, px, py) == 30 * (py - 30));
    assert(edge_side(15, 30, -15, -30, px, py) == 60 * px - 30 * py);
    assert(edge_side(15, 30, 15, -30, px, py) == 60 * (px - 15));
    assert(edge_side(15, -30, -15, -30, px, py) == -30 * (py + 30));
    assert(edge_side(-15, -30, 15, 30, px, py) == 30 * py - 60 * px);
}

} // verus!
