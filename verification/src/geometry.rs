use vstd::prelude::*;
use crate::uniforms::{HALF_BITS, MINUS_HALF_BITS};

verus! {

/// A corner of the unit cube. Each coordinate is the bit pattern of a
/// single-precision float.
#[derive(Clone, Copy, Debug, PartialEq, Eq)]
pub struct Vertex {
    pub position: [u32; 3],
}

pub const CUBE_VERTEX_COUNT: usize = 24;

/// Indices of the triangle list: six faces of two triangles.
pub const CUBE_INDEX_COUNT: u32 = 36;

pub const CUBE_EDGE_INDEX_COUNT: usize = 24;

/// The coordinate half a unit up (`true`) or down the axis.
pub open spec fn spec_half(up: bool) -> u32 {
    if up {
        HALF_BITS
    } else {
        MINUS_HALF_BITS
    }
}

/// The corner on the given side of each axis.
pub open spec fn spec_corner(x: bool, y: bool, z: bool) -> Seq<u32> {
    seq![spec_half(x), spec_half(y), spec_half(z)]
}

/// The corners of the cube's faces, four to a face: front, back, top,
/// bottom, right, left.
pub open spec fn spec_cube_corners() -> Seq<Seq<u32>> {
    seq![
        spec_corner(false, false, true),
        spec_corner(true, false, true),
        spec_corner(true, true, true),
        spec_corner(false, true, true),
        spec_corner(false, false, false),
        spec_corner(true, false, false),
        spec_corner(true, true, false),
        spec_corner(false, true, false),
        spec_corner(false, true, false),
        spec_corner(true, true, false),
        spec_corner(true, true, true),
        spec_corner(false, true, true),
        spec_corner(false, false, false),
        spec_corner(true, false, false),
        spec_corner(true, false, true),
        spec_corner(false, false, true),
        spec_corner(true, false, false),
        spec_corner(true, true, false),
        spec_corner(true, true, true),
        spec_corner(true, false, true),
        spec_corner(false, false, false),
        spec_corner(false, true, false),
        spec_corner(false, true, true),
        spec_corner(false, false, true),
    ]
}

fn corner(x: bool, y: bool, z: bool) -> (v: Vertex)
    ensures
        v.position@ == spec_corner(x, y, z),
{
    let px: u32 = if x { HALF_BITS } else { MINUS_HALF_BITS };
    let py: u32 = if y { HALF_BITS } else { MINUS_HALF_BITS };
    let pz: u32 = if z { HALF_BITS } else { MINUS_HALF_BITS };
    let position: [u32; 3] = [px, py, pz];
    assert(position@ =~= spec_corner(x, y, z));
    Vertex { position }
}

/// The 24 vertices of the cube.
pub fn cube_vertices() -> (vertices: Vec<Vertex>)
    ensures
        vertices@.len() == CUBE_VERTEX_COUNT,
        forall|i: int|
            0 <= i < CUBE_VERTEX_COUNT ==> (#[trigger] vertices@[i]).position@
                == spec_cube_corners()[i],
{
    let mut vertices: Vec<Vertex> = Vec::with_capacity(CUBE_VERTEX_COUNT);
    vertices.push(corner(false, false, true));
    vertices.push(corner(true, false, true));
    vertices.push(corner(true, true, true));
    vertices.push(corner(false, true, true));
    vertices.push(corner(false, false, false));
    vertices.push(corner(true, false, false));
    vertices.push(corner(true, true, false));
    vertices.push(corner(false, true, false));
    vertices.push(corner(false, true, false));
    vertices.push(corner(true, true, false));
    vertices.push(corner(true, true, true));
    vertices.push(corner(false, true, true));
    vertices.push(corner(false, false, false));
    vertices.push(corner(true, false, false));
    vertices.push(corner(true, false, true));
    vertices.push(corner(false, false, true));
    vertices.push(corner(true, false, false));
    vertices.push(corner(true, true, false));
    vertices.push(corner(true, true, true));
    vertices.push(corner(true, false, true));
    vertices.push(corner(false, false, false));
    vertices.push(corner(false, true, false));
    vertices.push(corner(false, true, true));
    vertices.push(corner(false, false, true));
    vertices
}

/// The words of the vertex buffer: the three coordinates of each vertex, in
/// vertex order.
pub fn vertex_words(vertices: &[Vertex]) -> (words: Vec<u32>)
    ensures
        words@.len() == 3 * vertices@.len(),
        forall|k: int|
            0 <= k < words@.len() ==> #[trigger] words@[k] == vertices@[k / 3].position@[k % 3],
{
    let mut words: Vec<u32> = Vec::new();
    let mut i: usize = 0;
    while i < vertices.len()
        invariant
            i <= vertices@.len(),
            words@.len() == 3 * i,
            forall|k: int|
                0 <= k < words@.len() ==> #[trigger] words@[k] == vertices@[k / 3].position@[k % 3],
        decreases vertices@.len() - i,
    {
        let v = vertices[i];
        words.push(v.position[0]);
        words.push(v.position[1]);
        words.push(v.position[2]);
        i += 1;
    }
    words
}

/// Index `k` of the triangle list: face `k / 6` is drawn as the two
/// triangles 0-1-2 and 0-2-3 of its four corners.
pub open spec fn spec_cube_index(k: int) -> int {
    let within = k % 6;
    4 * (k / 6) + if within == 3 {
        0
    } else if within >= 4 {
        within - 2
    } else {
        within
    }
}

/// Index `k` of the line list: edge `k / 2` from its first end (`k` even)
/// to its second. Edges 0 to 3 go round the front face, 4 to 7 round the
/// back face, and 8 to 11 join each front corner to the one behind it.
pub open spec fn spec_cube_edge_index(k: int) -> int {
    let edge = k / 2;
    let second = k % 2;
    if edge < 4 {
        (edge + second) % 4
    } else if edge < 8 {
        4 + (edge - 4 + second) % 4
    } else {
        edge - 8 + 4 * second
    }
}

/// The 36 indices of the cube's twelve triangles.
pub fn cube_indices() -> (indices: Vec<u16>)
    ensures
        indices@.len() == CUBE_INDEX_COUNT,
        forall|k: int| 0 <= k < CUBE_INDEX_COUNT ==> #[trigger] indices@[k] == spec_cube_index(k),
{
    let mut indices: Vec<u16> = Vec::with_capacity(CUBE_INDEX_COUNT as usize);
    let mut face: u16 = 0;
    while face < 6
        invariant
            face <= 6,
            indices@.len() == 6 * face,
            forall|k: int| 0 <= k < indices@.len() ==> #[trigger] indices@[k] == spec_cube_index(k),
        decreases 6 - face,
    {
        let base: u16 = 4 * face;
        indices.push(base);
        indices.push(base + 1);
        indices.push(base + 2);
        indices.push(base);
        indices.push(base + 2);
        indices.push(base + 3);
        face += 1;
    }
    indices
}

/// The 24 indices of the cube's twelve edges, for a wireframe.
pub fn cube_edge_indices() -> (indices: Vec<u16>)
    ensures
        indices@.len() == CUBE_EDGE_INDEX_COUNT,
        forall|k: int|
            0 <= k < CUBE_EDGE_INDEX_COUNT ==> #[trigger] indices@[k] == spec_cube_edge_index(k),
{
    let mut indices: Vec<u16> = Vec::with_capacity(CUBE_EDGE_INDEX_COUNT);
    let mut edge: u16 = 0;
    while edge < 12
        invariant
            edge <= 12,
            indices@.len() == 2 * edge,
            forall|k: int|
                0 <= k < indices@.len() ==> #[trigger] indices@[k] == spec_cube_edge_index(k),
        decreases 12 - edge,
    {
        if edge < 4 {
            indices.push(edge);
            indices.push((edge + 1) % 4);
        } else if edge < 8 {
            indices.push(edge);
            indices.push(4 + (edge - 3) % 4);
        } else {
            indices.push(edge - 8);
            indices.push(edge - 4);
        }
        edge += 1;
    }
    indices
}

/// Every index of the triangle list names one of the 24 vertices, and every
/// index of the line list one of the first eight.
pub proof fn lemma_indices_in_range(k: int)
    ensures
        0 <= k < CUBE_INDEX_COUNT ==> 0 <= spec_cube_index(k) < CUBE_VERTEX_COUNT,
        0 <= k < CUBE_EDGE_INDEX_COUNT ==> 0 <= spec_cube_edge_index(k) < 8,
{
}

/// Corner `c` of a face, of its four.
pub open spec fn spec_face_corner(face: int, c: int) -> Seq<u32> {
    spec_cube_corners()[4 * face + c]
}

/// The axis that a face is square to: z for front and back, y for top and
/// bottom, x for right and left.
pub open spec fn spec_face_axis(face: int) -> int {
    if face < 2 {
        2
    } else if face < 4 {
        1
    } else {
        0
    }
}

/// The corners of a face lie in one plane across its axis: the four share
/// that coordinate.
pub proof fn lemma_faces_are_flat(face: int, c: int)
    requires
        0 <= face < 6,
        0 <= c < 4,
    ensures
        spec_face_corner(face, c)[spec_face_axis(face)] == spec_face_corner(
            face,
            0,
        )[spec_face_axis(face)],
{
    assert(face == 0 || face == 1 || face == 2 || face == 3 || face == 4 || face == 5);
    assert(c == 0 || c == 1 || c == 2 || c == 3);
}

} // verus!
