//! The vertex and index data of the two demos, and the interleaved attribute
//! layout that describes it to the graphics pipeline.
//!
//! Both demos interleave five 32-bit floats per vertex: the cube stores
//! position x, y, z followed by texture u, v; the triangle stores position
//! x, y followed by color r, g, b. This module keeps the data in exact
//! integer form, in thousandths of the unit the shaders see; the host divides
//! by 1000 when it fills the GPU buffer. The byte layout implied by each
//! attribute's offset and stride must match that interleaving exactly — a
//! mismatch corrupts rendering silently — so the layout facts are stated and
//! proved here rather than checked at run time.

use vstd::prelude::*;

verus! {

/// 32-bit floats in one interleaved vertex record, in both demos.
pub const FLOATS_PER_VERTEX: u32 = 5;

/// Bytes of one 32-bit float.
pub const FLOAT_SIZE_BYTES: u32 = 4;

/// Bytes of one interleaved vertex record.
pub const VERTEX_STRIDE_BYTES: u32 = 20;

/// Vertices in the cube's buffer: four per face, so that each face can carry
/// its own texture coordinates.
pub const CUBE_VERTEX_COUNT: u32 = 24;

/// Entries in the cube's index buffer: two triangles per face.
pub const CUBE_INDEX_COUNT: u32 = 36;

/// Vertices in the triangle demo's buffer.
pub const TRIANGLE_VERTEX_COUNT: u32 = 3;

/// One vertex attribute of an interleaved buffer, as handed to the pipeline:
/// how many float components it has, where the first lies within a record,
/// and how far apart consecutive records are.
#[derive(Clone, Copy, Debug, PartialEq, Eq, Structural)]
pub struct VertexAttribute {
    pub components: u32,
    pub offset_bytes: u32,
    pub stride_bytes: u32,
    pub normalized: bool,
}

impl VertexAttribute {
    /// The attribute's components lie on float boundaries and inside one
    /// record; the demos never normalize.
    pub open spec fn wf(self) -> bool {
        &&& 1 <= self.components
        &&& self.offset_bytes % FLOAT_SIZE_BYTES == 0
        &&& self.stride_bytes % FLOAT_SIZE_BYTES == 0
        &&& self.offset_bytes + FLOAT_SIZE_BYTES * self.components <= self.stride_bytes
        &&& !self.normalized
    }

    /// The index, within the buffer seen as a flat array of 32-bit floats,
    /// of component `k` of this attribute for vertex `v`.
    pub open spec fn float_slot(self, v: int, k: int) -> int {
        (v * self.stride_bytes as int + self.offset_bytes as int) / FLOAT_SIZE_BYTES as int + k
    }
}

/// One cube vertex record: position x, y, z then texture u, v, all in
/// thousandths (positions span -1.0 to 1.0, texture coordinates 0.0 to 1.0).
#[derive(Clone, Copy, Debug, PartialEq, Eq, Structural)]
pub struct CubeVertex {
    pub px: i32,
    pub py: i32,
    pub pz: i32,
    pub tu: i32,
    pub tv: i32,
}

/// Component `k` of a cube record in interleaving order.
pub open spec fn cube_component(r: CubeVertex, k: int) -> i32 {
    if k == 0 {
        r.px
    } else if k == 1 {
        r.py
    } else if k == 2 {
        r.pz
    } else if k == 3 {
        r.tu
    } else {
        r.tv
    }
}

/// The cube's vertex records, four per face in the order top, left, right,
/// front, back, bottom.
pub open spec fn cube_vertex(v: int) -> CubeVertex {
    if v == 0 {
        CubeVertex { px: -1000i32, py: 1000i32, pz: -1000i32, tu: 0i32, tv: 0i32 }
    } else if v == 1 {
        CubeVertex { px: -1000i32, py: 1000i32, pz: 1000i32, tu: 0i32, tv: 1000i32 }
    } else if v == 2 {
        CubeVertex { px: 1000i32, py: 1000i32, pz: 1000i32, tu: 1000i32, tv: 1000i32 }
    } else if v == 3 {
        CubeVertex { px: 1000i32, py: 1000i32, pz: -1000i32, tu: 1000i32, tv: 0i32 }
    } else if v == 4 {
        CubeVertex { px: -1000i32, py: 1000i32, pz: 1000i32, tu: 0i32, tv: 0i32 }
    } else if v == 5 {
        CubeVertex { px: -1000i32, py: -1000i32, pz: 1000i32, tu: 1000i32, tv: 0i32 }
    } else if v == 6 {
        CubeVertex { px: -1000i32, py: -1000i32, pz: -1000i32, tu: 1000i32, tv: 1000i32 }
    } else if v == 7 {
        CubeVertex { px: -1000i32, py: 1000i32, pz: -1000i32, tu: 0i32, tv: 1000i32 }
    } else if v == 8 {
        CubeVertex { px: 1000i32, py: 1000i32, pz: 1000i32, tu: 1000i32, tv: 1000i32 }
    } else if v == 9 {
        CubeVertex { px: 1000i32, py: -1000i32, pz: 1000i32, tu: 0i32, tv: 1000i32 }
    } else if v == 10 {
        CubeVertex { px: 1000i32, py: -1000i32, pz: -1000i32, tu: 0i32, tv: 0i32 }
    } else if v == 11 {
        CubeVertex { px: 1000i32, py: 1000i32, pz: -1000i32, tu: 1000i32, tv: 0i32 }
    } else if v == 12 {
        CubeVertex { px: 1000i32, py: 1000i32, pz: 1000i32, tu: 1000i32, tv: 1000i32 }
    } else if v == 13 {
        CubeVertex { px: 1000i32, py: -1000i32, pz: 1000i32, tu: 1000i32, tv: 0i32 }
    } else if v == 14 {
        CubeVertex { px: -1000i32, py: -1000i32, pz: 1000i32, tu: 0i32, tv: 0i32 }
    } else if v == 15 {
        CubeVertex { px: -1000i32, py: 1000i32, pz: 1000i32, tu: 0i32, tv: 1000i32 }
    } else if v == 16 {
        CubeVertex { px: 1000i32, py: 1000i32, pz: -1000i32, tu: 0i32, tv: 0i32 }
    } else if v == 17 {
        CubeVertex { px: 1000i32, py: -1000i32, pz: -1000i32, tu: 0i32, tv: 1000i32 }
    } else if v == 18 {
        CubeVertex { px: -1000i32, py: -1000i32, pz: -1000i32, tu: 1000i32, tv: 1000i32 }
    } else if v == 19 {
        CubeVertex { px: -1000i32, py: 1000i32, pz: -1000i32, tu: 1000i32, tv: 0i32 }
    } else if v == 20 {
        CubeVertex { px: -1000i32, py: -1000i32, pz: -1000i32, tu: 1000i32, tv: 1000i32 }
    } else if v == 21 {
        CubeVertex { px: -1000i32, py: -1000i32, pz: 1000i32, tu: 1000i32, tv: 0i32 }
    } else if v == 22 {
        CubeVertex { px: 1000i32, py: -1000i32, pz: 1000i32, tu: 0i32, tv: 0i32 }
    } else {
        CubeVertex { px: 1000i32, py: -1000i32, pz: -1000i32, tu: 0i32, tv: 1000i32 }
    }
}

/// The cube's 24 vertex records.
pub open spec fn cube_vertices() -> Seq<CubeVertex> {
    Seq::new(24, |v: int| cube_vertex(v))
}

/// The cube's vertex buffer as the flat array of 120 floats the GPU sees.
pub open spec fn cube_floats() -> Seq<i32> {
    Seq::new(120, |i: int| cube_component(cube_vertex(i / 5), i % 5))
}

/// Entry `i` of the cube's index buffer: twelve triangles, two per face, in
/// the order top, left, right, front, back, bottom.
pub open spec fn cube_index(i: int) -> u16 {
    if i == 0 {
        0u16
    } else if i == 1 {
        1u16
    } else if i == 2 {
        2u16
    } else if i == 3 {
        0u16
    } else if i == 4 {
        2u16
    } else if i == 5 {
        3u16
    } else if i == 6 {
        5u16
    } else if i == 7 {
        4u16
    } else if i == 8 {
        6u16
    } else if i == 9 {
        6u16
    } else if i == 10 {
        4u16
    } else if i == 11 {
        7u16
    } else if i == 12 {
        8u16
    } else if i == 13 {
        9u16
    } else if i == 14 {
        10u16
    } else if i == 15 {
        8u16
    } else if i == 16 {
        10u16
    } else if i == 17 {
        11u16
    } else if i == 18 {
        13u16
    } else if i == 19 {
        12u16
    } else if i == 20 {
        14u16
    } else if i == 21 {
        15u16
    } else if i == 22 {
        14u16
    } else if i == 23 {
        12u16
    } else if i == 24 {
        16u16
    } else if i == 25 {
        17u16
    } else if i == 26 {
        18u16
    } else if i == 27 {
        16u16
    } else if i == 28 {
        18u16
    } else if i == 29 {
        19u16
    } else if i == 30 {
        21u16
    } else if i == 31 {
        20u16
    } else if i == 32 {
        22u16
    } else if i == 33 {
        22u16
    } else if i == 34 {
        20u16
    } else {
        23u16
    }
}

/// The cube's 36 index entries.
pub open spec fn cube_indices() -> Seq<u16> {
    Seq::new(36, |i: int| cube_index(i))
}

/// The layout of the cube's position attribute: three floats at the start of
/// each 20-byte record.
pub open spec fn cube_position_attr() -> VertexAttribute {
    VertexAttribute {
        components: 3u32,
        offset_bytes: 0u32,
        stride_bytes: VERTEX_STRIDE_BYTES,
        normalized: false,
    }
}

/// The layout of the cube's texture-coordinate attribute: two floats, 12
/// bytes into each 20-byte record.
pub open spec fn cube_texcoord_attr() -> VertexAttribute {
    VertexAttribute {
        components: 2u32,
        offset_bytes: 12u32,
        stride_bytes: VERTEX_STRIDE_BYTES,
        normalized: false,
    }
}

/// The cube's position attribute, as the host hands it to the pipeline.
pub fn cube_position_attribute() -> (a: VertexAttribute)
    ensures
        a == cube_position_attr(),
        a.wf(),
{
    VertexAttribute { components: 3, offset_bytes: 0, stride_bytes: VERTEX_STRIDE_BYTES, normalized: false }
}

/// The cube's texture-coordinate attribute, as the host hands it to the
/// pipeline.
pub fn cube_texcoord_attribute() -> (a: VertexAttribute)
    ensures
        a == cube_texcoord_attr(),
        a.wf(),
{
    VertexAttribute { components: 2, offset_bytes: 12, stride_bytes: VERTEX_STRIDE_BYTES, normalized: false }
}

/// The cube vertex record at position `v` of the buffer.
pub fn cube_vertex_at(v: usize) -> (r: CubeVertex)
    requires
        v < 24,
    ensures
        r == cube_vertex(v as int),
{
    if v == 0 {
        CubeVertex { px: -1000, py: 1000, pz: -1000, tu: 0, tv: 0 }
    } else if v == 1 {
        CubeVertex { px: -1000, py: 1000, pz: 1000, tu: 0, tv: 1000 }
    } else if v == 2 {
        CubeVertex { px: 1000, py: 1000, pz: 1000, tu: 1000, tv: 1000 }
    } else if v == 3 {
        CubeVertex { px: 1000, py: 1000, pz: -1000, tu: 1000, tv: 0 }
    } else if v == 4 {
        CubeVertex { px: -1000, py: 1000, pz: 1000, tu: 0, tv: 0 }
    } else if v == 5 {
        CubeVertex { px: -1000, py: -1000, pz: 1000, tu: 1000, tv: 0 }
    } else if v == 6 {
        CubeVertex { px: -1000, py: -1000, pz: -1000, tu: 1000, tv: 1000 }
    } else if v == 7 {
        CubeVertex { px: -1000, py: 1000, pz: -1000, tu: 0, tv: 1000 }
    } else if v == 8 {
        CubeVertex { px: 1000, py: 1000, pz: 1000, tu: 1000, tv: 1000 }
    } else if v == 9 {
        CubeVertex { px: 1000, py: -1000, pz: 1000, tu: 0, tv: 1000 }
    } else if v == 10 {
        CubeVertex { px: 1000, py: -1000, pz: -1000, tu: 0, tv: 0 }
    } else if v == 11 {
        CubeVertex { px: 1000, py: 1000, pz: -1000, tu: 1000, tv: 0 }
    } else if v == 12 {
        CubeVertex { px: 1000, py: 1000, pz: 1000, tu: 1000, tv: 1000 }
    } else if v == 13 {
        CubeVertex { px: 1000, py: -1000, pz: 1000, tu: 1000, tv: 0 }
    } else if v == 14 {
        CubeVertex { px: -1000, py: -1000, pz: 1000, tu: 0, tv: 0 }
    } else if v == 15 {
        CubeVertex { px: -1000, py: 1000, pz: 1000, tu: 0, tv: 1000 }
    } else if v == 16 {
        CubeVertex { px: 1000, py: 1000, pz: -1000, tu: 0, tv: 0 }
    } else if v == 17 {
        CubeVertex { px: 1000, py: -1000, pz: -1000, tu: 0, tv: 1000 }
    } else if v == 18 {
        CubeVertex { px: -1000, py: -1000, pz: -1000, tu: 1000, tv: 1000 }
    } else if v == 19 {
        CubeVertex { px: -1000, py: 1000, pz: -1000, tu: 1000, tv: 0 }
    } else if v == 20 {
        CubeVertex { px: -1000, py: -1000, pz: -1000, tu: 1000, tv: 1000 }
    } else if v == 21 {
        CubeVertex { px: -1000, py: -1000, pz: 1000, tu: 1000, tv: 0 }
    } else if v == 22 {
        CubeVertex { px: 1000, py: -1000, pz: 1000, tu: 0, tv: 0 }
    } else {
        CubeVertex { px: 1000, py: -1000, pz: -1000, tu: 0, tv: 1000 }
    }
}

/// Builds the cube's interleaved vertex buffer: 120 values, vertex `v`'s
/// record occupying positions `5 * v` to `5 * v + 4`.
pub fn cube_vertex_data() -> (data: Vec<i32>)
    ensures
        data@ == cube_floats(),
        data@.len() == 120,
{
    let mut data: Vec<i32> = Vec::new();
    let mut v: usize = 0;
    while v < 24
        invariant
            v <= 24,
            data@.len() == 5 * v,
            forall|j: int| 0 <= j < data@.len() ==> data@[j] == cube_floats()[j],
        decreases 24 - v,
    {
        let r = cube_vertex_at(v);
        data.push(r.px);
        data.push(r.py);
        data.push(r.pz);
        data.push(r.tu);
        data.push(r.tv);
        proof {
            let base = 5 * v as int;
            assert forall|k: int| 0 <= k < 5 implies cube_floats()[base + k] == cube_component(
                cube_vertex(v as int),
                k,
            ) by {
                vstd::arithmetic::div_mod::lemma_fundamental_div_mod_converse(
                    base + k,
                    5,
                    v as int,
                    k,
                );
            }
        }
        v = v + 1;
    }
    proof {
        assert(data@ =~= cube_floats());
    }
    data
}

/// The index-buffer entry at position `i`.
pub fn cube_index_at(i: usize) -> (r: u16)
    requires
        i < 36,
    ensures
        r == cube_index(i as int),
{
    if i == 0 {
        0
    } else if i == 1 {
        1
    } else if i == 2 {
        2
    } else if i == 3 {
        0
    } else if i == 4 {
        2
    } else if i == 5 {
        3
    } else if i == 6 {
        5
    } else if i == 7 {
        4
    } else if i == 8 {
        6
    } else if i == 9 {
        6
    } else if i == 10 {
        4
    } else if i == 11 {
        7
    } else if i == 12 {
        8
    } else if i == 13 {
        9
    } else if i == 14 {
        10
    } else if i == 15 {
        8
    } else if i == 16 {
        10
    } else if i == 17 {
        11
    } else if i == 18 {
        13
    } else if i == 19 {
        12
    } else if i == 20 {
        14
    } else if i == 21 {
        15
    } else if i == 22 {
        14
    } else if i == 23 {
        12
    } else if i == 24 {
        16
    } else if i == 25 {
        17
    } else if i == 26 {
        18
    } else if i == 27 {
        16
    } else if i == 28 {
        18
    } else if i == 29 {
        19
    } else if i == 30 {
        21
    } else if i == 31 {
        20
    } else if i == 32 {
        22
    } else if i == 33 {
        22
    } else if i == 34 {
        20
    } else {
        23
    }
}

/// Builds the cube's index buffer: 36 entries, each one a valid position in
/// the 24-entry vertex buffer.
pub fn cube_index_data() -> (data: Vec<u16>)
    ensures
        data@ == cube_indices(),
        data@.len() == 36,
        forall|i: int| 0 <= i < 36 ==> data@[i] < CUBE_VERTEX_COUNT,
{
    let mut data: Vec<u16> = Vec::new();
    let mut i: usize = 0;
    while i < 36
        invariant
            i <= 36,
            data@.len() == i,
            forall|j: int| 0 <= j < data@.len() ==> data@[j] == cube_index(j),
        decreases 36 - i,
    {
        data.push(cube_index_at(i));
        i = i + 1;
    }
    proof {
        assert(data@ =~= cube_indices());
        lemma_cube_indices_wind_ccw();
    }
    data
}

/// Whether the triangle at position `t` of the index buffer winds
/// counter-clockwise as seen from outside the cube: the right-handed normal
/// of its vertex loop points to the same side of the cube as the face the
/// triangle lies on. Every face plane has positive distance from the cube's
/// center, so that holds exactly when the normal has positive dot product
/// with the position of the triangle's first corner.
pub open spec fn cube_triangle_ccw(t: int) -> bool {
    let a = cube_vertex(cube_index(3 * t) as int);
    let b = cube_vertex(cube_index(3 * t + 1) as int);
    let c = cube_vertex(cube_index(3 * t + 2) as int);
    let ux = b.px - a.px;
    let uy = b.py - a.py;
    let uz = b.pz - a.pz;
    let vx = c.px - a.px;
    let vy = c.py - a.py;
    let vz = c.pz - a.pz;
    let nx = uy * vz - uz * vy;
    let ny = uz * vx - ux * vz;
    let nz = ux * vy - uy * vx;
    nx * a.px + ny * a.py + nz * a.pz > 0
}

/// Closes one instance of `cube_triangle_ccw` from the triangle's corner
/// coordinates and its precomputed loop normal, handed in as plain integers
/// so that every product the proof needs is over known values.
proof fn lemma_ccw_corners(
    t: int,
    apx: int, apy: int, apz: int,
    bpx: int, bpy: int, bpz: int,
    cpx: int, cpy: int, cpz: int,
    nx: int, ny: int, nz: int,
)
    requires
        0 <= t < 12,
        cube_vertex(cube_index(3 * t) as int).px == apx,
        cube_vertex(cube_index(3 * t) as int).py == apy,
        cube_vertex(cube_index(3 * t) as int).pz == apz,
        cube_vertex(cube_index(3 * t + 1) as int).px == bpx,
        cube_vertex(cube_index(3 * t + 1) as int).py == bpy,
        cube_vertex(cube_index(3 * t + 1) as int).pz == bpz,
        cube_vertex(cube_index(3 * t + 2) as int).px == cpx,
        cube_vertex(cube_index(3 * t + 2) as int).py == cpy,
        cube_vertex(cube_index(3 * t + 2) as int).pz == cpz,
        nx == (bpy - apy) * (cpz - apz) - (bpz - apz) * (cpy - apy),
        ny == (bpz - apz) * (cpx - apx) - (bpx - apx) * (cpz - apz),
        nz == (bpx - apx) * (cpy - apy) - (bpy - apy) * (cpx - apx),
        nx * apx + ny * apy + nz * apz > 0,
    ensures
        cube_triangle_ccw(t),
{
}

/// Law: every entry of the cube's index buffer addresses one of the 24
/// vertices, and each of the twelve consecutive index triples winds
/// counter-clockwise with respect to its face's outward normal — the winding
/// the pipeline is told to treat as front-facing when it culls back faces.
pub proof fn lemma_cube_indices_wind_ccw()
    ensures
        forall|i: int| 0 <= i < 36 ==> cube_index(i) < CUBE_VERTEX_COUNT,
        forall|t: int| 0 <= t < 12 ==> cube_triangle_ccw(t),
{
    assert forall|i: int| 0 <= i < 36 implies cube_index(i) < CUBE_VERTEX_COUNT by {
        assert(cube_index(i) < 24);
    }
    assert forall|t: int| 0 <= t < 12 implies cube_triangle_ccw(t) by {
        if t == 0 {
            lemma_ccw_corners(0, -1000, 1000, -1000, -1000, 1000, 1000, 1000, 1000, 1000, 0,
                4000000, 0);
        } else if t == 1 {
            lemma_ccw_corners(1, -1000, 1000, -1000, 1000, 1000, 1000, 1000, 1000, -1000, 0,
                4000000, 0);
        } else if t == 2 {
            lemma_ccw_corners(2, -1000, -1000, 1000, -1000, 1000, 1000, -1000, -1000, -1000,
                -4000000, 0, 0);
        } else if t == 3 {
            lemma_ccw_corners(3, -1000, -1000, -1000, -1000, 1000, 1000, -1000, 1000, -1000,
                -4000000, 0, 0);
        } else if t == 4 {
            lemma_ccw_corners(4, 1000, 1000, 1000, 1000, -1000, 1000, 1000, -1000, -1000,
                4000000, 0, 0);
        } else if t == 5 {
            lemma_ccw_corners(5, 1000, 1000, 1000, 1000, -1000, -1000, 1000, 1000, -1000,
                4000000, 0, 0);
        } else if t == 6 {
            lemma_ccw_corners(6, 1000, -1000, 1000, 1000, 1000, 1000, -1000, -1000, 1000, 0, 0,
                4000000);
        } else if t == 7 {
            lemma_ccw_corners(7, -1000, 1000, 1000, -1000, -1000, 1000, 1000, 1000, 1000, 0, 0,
                4000000);
        } else if t == 8 {
            lemma_ccw_corners(8, 1000, 1000, -1000, 1000, -1000, -1000, -1000, -1000, -1000, 0,
                0, -4000000);
        } else if t == 9 {
            lemma_ccw_corners(9, 1000, 1000, -1000, -1000, -1000, -1000, -1000, 1000, -1000, 0,
                0, -4000000);
        } else if t == 10 {
            lemma_ccw_corners(10, -1000, -1000, 1000, -1000, -1000, -1000, 1000, -1000, 1000,
                0, -4000000, 0);
        } else {
            lemma_ccw_corners(11, 1000, -1000, 1000, -1000, -1000, -1000, 1000, -1000, -1000,
                0, -4000000, 0);
        }
    }
}

/// Law: the cube's attribute layout reads back exactly the records the
/// buffer was authored from. For every vertex `v`, the three floats the
/// position attribute addresses are that record's position components, and
/// the two floats the texture attribute addresses are its texture
/// components; together the two attributes cover the record exactly.
pub proof fn lemma_cube_attribute_layout(v: int)
    requires
        0 <= v < 24,
    ensures
        forall|k: int| 0 <= k < 3 ==> cube_position_attr().float_slot(v, k) == 5 * v + k,
        forall|k: int| 0 <= k < 2 ==> cube_texcoord_attr().float_slot(v, k) == 5 * v + 3 + k,
        cube_floats()[5 * v] == cube_vertex(v).px,
        cube_floats()[5 * v + 1] == cube_vertex(v).py,
        cube_floats()[5 * v + 2] == cube_vertex(v).pz,
        cube_floats()[5 * v + 3] == cube_vertex(v).tu,
        cube_floats()[5 * v + 4] == cube_vertex(v).tv,
{
    assert forall|k: int| 0 <= k < 3 implies cube_position_attr().float_slot(v, k) == 5 * v
        + k by {
        vstd::arithmetic::div_mod::lemma_fundamental_div_mod_converse(20 * v, 4, 5 * v, 0);
        assert(v * 20 == 20 * v) by (nonlinear_arith);
    }
    assert forall|k: int| 0 <= k < 2 implies cube_texcoord_attr().float_slot(v, k) == 5 * v + 3
        + k by {
        vstd::arithmetic::div_mod::lemma_fundamental_div_mod_converse(
            20 * v + 12,
            4,
            5 * v + 3,
            0,
        );
        assert(v * 20 == 20 * v) by (nonlinear_arith);
    }
    assert forall|k: int| 0 <= k < 5 implies cube_floats()[5 * v + k] == cube_component(
        cube_vertex(v),
        k,
    ) by {
        vstd::arithmetic::div_mod::lemma_fundamental_div_mod_converse(5 * v + k, 5, v, k);
    }
}

/// One triangle-demo vertex record: position x, y then color r, g, b, all in
/// thousandths.
#[derive(Clone, Copy, Debug, PartialEq, Eq, Structural)]
pub struct TriangleVertex {
    pub px: i32,
    pub py: i32,
    pub cr: i32,
    pub cg: i32,
    pub cb: i32,
}

/// Component `k` of a triangle record in interleaving order.
pub open spec fn triangle_component(r: TriangleVertex, k: int) -> i32 {
    if k == 0 {
        r.px
    } else if k == 1 {
        r.py
    } else if k == 2 {
        r.cr
    } else if k == 3 {
        r.cg
    } else {
        r.cb
    }
}

/// The triangle demo's three vertex records: an upward-pointing triangle
/// with yellow, violet and green corners.
pub open spec fn triangle_vertex(v: int) -> TriangleVertex {
    if v == 0 {
        TriangleVertex { px: 0i32, py: 500i32, cr: 1000i32, cg: 1000i32, cb: 0i32 }
    } else if v == 1 {
        TriangleVertex { px: -500i32, py: -500i32, cr: 700i32, cg: 0i32, cb: 1000i32 }
    } else {
        TriangleVertex { px: 500i32, py: -500i32, cr: 100i32, cg: 1000i32, cb: 600i32 }
    }
}

/// The triangle's vertex buffer as the flat array of 15 floats the GPU sees.
pub open spec fn triangle_floats() -> Seq<i32> {
    Seq::new(15, |i: int| triangle_component(triangle_vertex(i / 5), i % 5))
}

/// The layout of the triangle's position attribute: two floats at the start
/// of each 20-byte record.
pub open spec fn triangle_position_attr() -> VertexAttribute {
    VertexAttribute {
        components: 2u32,
        offset_bytes: 0u32,
        stride_bytes: VERTEX_STRIDE_BYTES,
        normalized: false,
    }
}

/// The layout of the triangle's color attribute: three floats, 8 bytes into
/// each 20-byte record.
pub open spec fn triangle_color_attr() -> VertexAttribute {
    VertexAttribute {
        components: 3u32,
        offset_bytes: 8u32,
        stride_bytes: VERTEX_STRIDE_BYTES,
        normalized: false,
    }
}

/// The triangle's position attribute, as the host hands it to the pipeline.
pub fn triangle_position_attribute() -> (a: VertexAttribute)
    ensures
        a == triangle_position_attr(),
        a.wf(),
{
    VertexAttribute { components: 2, offset_bytes: 0, stride_bytes: VERTEX_STRIDE_BYTES, normalized: false }
}

/// The triangle's color attribute, as the host hands it to the pipeline.
pub fn triangle_color_attribute() -> (a: VertexAttribute)
    ensures
        a == triangle_color_attr(),
        a.wf(),
{
    VertexAttribute { components: 3, offset_bytes: 8, stride_bytes: VERTEX_STRIDE_BYTES, normalized: false }
}

/// The triangle vertex record at position `v` of the buffer.
pub fn triangle_vertex_at(v: usize) -> (r: TriangleVertex)
    requires
        v < 3,
    ensures
        r == triangle_vertex(v as int),
{
    if v == 0 {
        TriangleVertex { px: 0, py: 500, cr: 1000, cg: 1000, cb: 0 }
    } else if v == 1 {
        TriangleVertex { px: -500, py: -500, cr: 700, cg: 0, cb: 1000 }
    } else {
        TriangleVertex { px: 500, py: -500, cr: 100, cg: 1000, cb: 600 }
    }
}

/// Builds the triangle's interleaved vertex buffer: 15 values, vertex `v`'s
/// record occupying positions `5 * v` to `5 * v + 4`.
pub fn triangle_vertex_data() -> (data: Vec<i32>)
    ensures
        data@ == triangle_floats(),
        data@.len() == 15,
{
    let mut data: Vec<i32> = Vec::new();
    let mut v: usize = 0;
    while v < 3
        invariant
            v <= 3,
            data@.len() == 5 * v,
            forall|j: int| 0 <= j < data@.len() ==> data@[j] == triangle_floats()[j],
        decreases 3 - v,
    {
        let r = triangle_vertex_at(v);
        data.push(r.px);
        data.push(r.py);
        data.push(r.cr);
        data.push(r.cg);
        data.push(r.cb);
        proof {
            let base = 5 * v as int;
            assert forall|k: int| 0 <= k < 5 implies triangle_floats()[base + k]
                == triangle_component(triangle_vertex(v as int), k) by {
                vstd::arithmetic::div_mod::lemma_fundamental_div_mod_converse(
                    base + k,
                    5,
                    v as int,
                    k,
                );
            }
        }
        v = v + 1;
    }
    proof {
        assert(data@ =~= triangle_floats());
    }
    data
}

} // verus!
