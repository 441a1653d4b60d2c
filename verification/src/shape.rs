//! Shape kinds, the index lists that draw them, and index buffers as bytes.
use vstd::prelude::*;

verus! {

/// The kinds of primitive that have a render pipeline of their own.
#[derive(Clone, Copy, Debug, PartialEq, Eq, Hash, Structural)]
pub enum ShapeType {
    /// Rectangles with rounded corners and borders.
    ROUND,
    /// Circles and regular polygons.
    Circle,
    /// Polygons given by their points.
    POINT,
    /// Textured quads (text and images).
    TEXTURE,
}

/// The shapes that a shape board draws.
#[derive(Clone, Copy, Debug, PartialEq, Eq, Structural)]
pub enum ShapeKind {
    Rectangle,
    Circle,
    RegularPolygon,
    Polygon,
}

/// The pipeline kind that draws a shape: rectangles are drawn as rounded
/// rectangles, circles and regular polygons by the circle pipeline, and
/// polygons from their points.
pub open spec fn spec_get_type(shape: ShapeKind) -> ShapeType {
    match shape {
        ShapeKind::Rectangle => ShapeType::ROUND,
        ShapeKind::Circle => ShapeType::Circle,
        ShapeKind::RegularPolygon => ShapeType::Circle,
        ShapeKind::Polygon => ShapeType::POINT,
    }
}

/// The pipeline kind that draws a shape.
pub fn get_type(shape: ShapeKind) -> (t: ShapeType)
    ensures
        t == spec_get_type(shape),
{
    match shape {
        ShapeKind::Rectangle => ShapeType::ROUND,
        ShapeKind::Circle => ShapeType::Circle,
        ShapeKind::RegularPolygon => ShapeType::Circle,
        ShapeKind::Polygon => ShapeType::POINT,
    }
}

/// The vertex types of the GPU pipelines.
#[derive(Clone, Copy, Debug, PartialEq, Eq, Structural)]
pub enum VertexKind {
    CircleVertex,
    RectVertex,
    PointVertex,
    TextureVertex,
}

/// The pipeline kind that a vertex type feeds.
pub open spec fn spec_get_shape_type(vertex: VertexKind) -> ShapeType {
    match vertex {
        VertexKind::CircleVertex => ShapeType::Circle,
        VertexKind::RectVertex => ShapeType::ROUND,
        VertexKind::PointVertex => ShapeType::POINT,
        VertexKind::TextureVertex => ShapeType::TEXTURE,
    }
}

/// The pipeline kind that a vertex type feeds.
pub fn get_shape_type(vertex: VertexKind) -> (t: ShapeType)
    ensures
        t == spec_get_shape_type(vertex),
{
    match vertex {
        VertexKind::CircleVertex => ShapeType::Circle,
        VertexKind::RectVertex => ShapeType::ROUND,
        VertexKind::PointVertex => ShapeType::POINT,
        VertexKind::TextureVertex => ShapeType::TEXTURE,
    }
}

/// Each pipeline kind is fed by exactly one vertex type.
pub proof fn lemma_vertex_kinds_distinct(a: VertexKind, b: VertexKind)
    ensures
        spec_get_shape_type(a) == spec_get_shape_type(b) ==> a == b,
{
}

/// Indices that draw a quad as a triangle strip.
pub fn rect_index() -> (r: [u16; 4])
    ensures
        r@ == seq![0u16, 2, 1, 3],
{
    [0, 2, 1, 3]
}

/// Indices that draw the outline of a quad as a line strip.
pub fn rect_line_index() -> (r: [u16; 5])
    ensures
        r@ == seq![0u16, 1, 3, 2, 0],
{
    [0, 1, 3, 2, 0]
}

/// The number of triangles in the fan over `m` points: `m - 2`, or none
/// when there are fewer than two points.
pub open spec fn fan_triangles(m: int) -> int {
    if m >= 2 {
        m - 2
    } else {
        0
    }
}

/// The fan of triangles over the points `0..m`: triangle `k` is
/// `(0, k + 1, k + 2)`.
pub open spec fn fan(m: int) -> Seq<u16> {
    Seq::new(
        (3 * fan_triangles(m)) as nat,
        |j: int|
            if j % 3 == 0 {
                0u16
            } else if j % 3 == 1 {
                (j / 3 + 1) as u16
            } else {
                (j / 3 + 2) as u16
            },
    )
}

/// The indices that fill a polygon of `n` points as a triangle fan around
/// point 0. The point count is taken as a `u16`, as the index type is.
/// There must be at least 3 points, their count must not be a multiple of
/// 65536, and the capacity `(n - 3) * 2 + n` must fit in `usize`.
pub fn fan_indices(n: usize) -> (indices: Vec<u16>)
    requires
        n >= 3,
        n % 0x10000 != 0,
        (n - 3) * 2 + n <= usize::MAX,
    ensures
        indices@ == fan((n % 0x10000) as int),
{
    let vertex_nums = (n - 3) * 2 + n;
    let mut indices: Vec<u16> = Vec::with_capacity(vertex_nums);
    let m = (n % 0x10000) as u16;
    assert(m as int == n % 0x10000);
    let mut i: u16 = 1;
    while i < m - 1
        invariant
            1 <= i,
            m >= 1,
            (m >= 2 && i <= m - 1) || (m == 1 && i == 1),
            m as int == n % 0x10000,
            indices@ == fan((i + 1) as int),
        decreases m - i,
    {
        let ghost before = indices@;
        indices.push(0);
        indices.push(i);
        let next = i + 1;
        indices.push(next);
        proof {
            assert(indices@ =~= fan((next + 1) as int)) by {
                assert(before =~= fan((i + 1) as int));
                let f = fan((next + 1) as int);
                assert forall|j: int| 0 <= j < f.len() implies indices@[j] == f[j] by {
                    if j < before.len() {
                        assert(indices@[j] == before[j]);
                    } else {
                        assert(j / 3 == i - 1);
                    }
                }
            }
        }
        i = next;
    }
    proof {
        if m >= 2 {
            assert(i == m - 1);
            assert(indices@ == fan(m as int));
        } else {
            assert(fan_triangles((i + 1) as int) == 0);
            assert(fan_triangles(m as int) == 0);
            assert(indices@ =~= fan(m as int));
        }
    }
    indices
}

/// Every index of the fan names one of the `m` points, and the fan holds
/// `3 * (m - 2)` indices.
pub proof fn lemma_fan_in_range(m: int)
    requires
        2 <= m <= 0xffff,
    ensures
        fan(m).len() == 3 * (m - 2),
        forall|j: int| 0 <= j < fan(m).len() ==> (#[trigger] fan(m)[j]) < m,
{
    assert forall|j: int| 0 <= j < fan(m).len() implies (#[trigger] fan(m)[j]) < m by {
        assert(j / 3 < m - 2);
    }
}

/// Whether byte pair `i` of `bytes` holds `v`, little-endian or big-endian.
pub open spec fn pair_holds(bytes: Seq<u8>, i: int, v: u16, little: bool) -> bool {
    if little {
        bytes[2 * i] + 256 * bytes[2 * i + 1] == v
    } else {
        bytes[2 * i + 1] + 256 * bytes[2 * i] == v
    }
}

/// Whether the byte pairs of `bytes` hold `values`, all in one byte order.
pub open spec fn all_pairs_hold(bytes: Seq<u8>, values: Seq<u16>, little: bool) -> bool {
    forall|i: int| 0 <= i < values.len() ==> #[trigger] pair_holds(bytes, i, values[i], little)
}

/// The bytes of `indices` in memory, through `bytemuck::cast_slice`: two
/// bytes per index, each index in the byte order of the machine (the same
/// order for all of them).
#[verifier::external_body]
fn index_bytes(indices: &[u16]) -> (bytes: Vec<u8>)
    ensures
        bytes@.len() == 2 * indices@.len(),
        all_pairs_hold(bytes@, indices@, true) || all_pairs_hold(bytes@, indices@, false),
{
    bytemuck::cast_slice::<u16, u8>(indices).to_vec()
}

/// An index list as the bytes that go into a GPU buffer.
pub struct IndexBuffer {
    pub bytes: Vec<u8>,
    pub num_indices: u32,
}

/// The index buffer for `indices`: their bytes in memory and their count
/// (as a `u32`, which keeps the low 32 bits).
pub fn index_buffer(indices: &[u16]) -> (buffer: IndexBuffer)
    ensures
        buffer.bytes@.len() == 2 * indices@.len(),
        all_pairs_hold(buffer.bytes@, indices@, true) || all_pairs_hold(buffer.bytes@, indices@, false),
        buffer.num_indices == indices@.len() as u32,
{
    let bytes = index_bytes(indices);
    let num_indices = indices.len() as u32;
    IndexBuffer { bytes, num_indices }
}

} // verus!
