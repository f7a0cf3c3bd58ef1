//! The demo's hardcoded meshes.
//!
//! Each shape is a vertex list together with the primitive mode it is
//! drawn in. Positions sit on the unit lattice (every coordinate of
//! the default shapes is -1, 0 or 1), and the application shell
//! multiplies them by the shape's size before building the GPU tessellation.
//! The triangle and the quad colour their corners through the normal
//! attribute; the cube leaves normals zero.

use vstd::prelude::*;

use crate::rendering::Vertex;

verus! {

/// The primitive mode a vertex list is drawn in.
#[derive(Clone, Copy, Debug, PartialEq, Eq, Structural)]
pub enum Mode {
    Point,
    Line,
    LineStrip,
    Triangle,
    TriangleFan,
    TriangleStrip,
}

/// A vertex list and the primitive mode it is drawn in.
#[derive(Clone, Debug, PartialEq)]
pub struct Mesh {
    pub vertices: Vec<Vertex>,
    pub mode: Mode,
}

/// Shorthand for a vertex in the mesh tables.
pub open spec fn vert(
    pos: (i32, i32, i32),
    normal: (i32, i32, i32),
    tex_coord: (i32, i32),
) -> Vertex {
    Vertex { pos, normal, tex_coord }
}

/// The default triangle: one corner up, two down, each tinted through
/// its normal.
pub open spec fn triangle_vertices() -> Seq<Vertex> {
    seq![
        vert((0i32, 1i32, 0i32), (230i32, 30i32, 30i32), (0i32, 0i32)),
        vert((1i32, -1i32, 0i32), (30i32, 230i32, 30i32), (0i32, 0i32)),
        vert((-1i32, -1i32, 0i32), (30i32, 30i32, 230i32), (0i32, 0i32)),
    ]
}

/// The default quad: the four corners of a square in fan order, tinted
/// through their normals and carrying the square's texture corners.
pub open spec fn quad_vertices() -> Seq<Vertex> {
    seq![
        vert((-1i32, -1i32, 0i32), (255i32, 0i32, 0i32), (0i32, 0i32)),
        vert((1i32, -1i32, 0i32), (0i32, 255i32, 0i32), (1i32, 0i32)),
        vert((1i32, 1i32, 0i32), (255i32, 255i32, 0i32), (1i32, 1i32)),
        vert((-1i32, 1i32, 0i32), (30i32, 30i32, 255i32), (0i32, 1i32)),
    ]
}

/// The default cube: six faces of two triangles each, listed face by
/// face, with zero normals and per-face texture corners.
pub open spec fn cube_vertices() -> Seq<Vertex> {
    seq![
        vert((-1i32, -1i32, -1i32), (0i32, 0i32, 0i32), (0i32, 0i32)),
        vert((1i32, -1i32, -1i32), (0i32, 0i32, 0i32), (1i32, 0i32)),
        vert((1i32, 1i32, -1i32), (0i32, 0i32, 0i32), (1i32, 1i32)),
        vert((1i32, 1i32, -1i32), (0i32, 0i32, 0i32), (1i32, 1i32)),
        vert((-1i32, 1i32, -1i32), (0i32, 0i32, 0i32), (0i32, 1i32)),
        vert((-1i32, -1i32, -1i32), (0i32, 0i32, 0i32), (0i32, 0i32)),
        vert((-1i32, -1i32, 1i32), (0i32, 0i32, 0i32), (0i32, 0i32)),
        vert((1i32, -1i32, 1i32), (0i32, 0i32, 0i32), (1i32, 0i32)),
        vert((1i32, 1i32, 1i32), (0i32, 0i32, 0i32), (1i32, 1i32)),
        vert((1i32, 1i32, 1i32), (0i32, 0i32, 0i32), (1i32, 1i32)),
        vert((-1i32, 1i32, 1i32), (0i32, 0i32, 0i32), (0i32, 1i32)),
        vert((-1i32, -1i32, 1i32), (0i32, 0i32, 0i32), (0i32, 0i32)),
        vert((-1i32, 1i32, 1i32), (0i32, 0i32, 0i32), (1i32, 0i32)),
        vert((-1i32, 1i32, -1i32), (0i32, 0i32, 0i32), (1i32, 1i32)),
        vert((-1i32, -1i32, -1i32), (0i32, 0i32, 0i32), (0i32, 1i32)),
        vert((-1i32, -1i32, -1i32), (0i32, 0i32, 0i32), (0i32, 1i32)),
        vert((-1i32, -1i32, 1i32), (0i32, 0i32, 0i32), (0i32, 0i32)),
        vert((-1i32, 1i32, 1i32), (0i32, 0i32, 0i32), (1i32, 0i32)),
        vert((1i32, 1i32, 1i32), (0i32, 0i32, 0i32), (1i32, 0i32)),
        vert((1i32, 1i32, -1i32), (0i32, 0i32, 0i32), (1i32, 1i32)),
        vert((1i32, -1i32, -1i32), (0i32, 0i32, 0i32), (0i32, 1i32)),
        vert((1i32, -1i32, -1i32), (0i32, 0i32, 0i32), (0i32, 1i32)),
        vert((1i32, -1i32, 1i32), (0i32, 0i32, 0i32), (0i32, 0i32)),
        vert((1i32, 1i32, 1i32), (0i32, 0i32, 0i32), (1i32, 0i32)),
        vert((-1i32, -1i32, -1i32), (0i32, 0i32, 0i32), (0i32, 1i32)),
        vert((1i32, -1i32, -1i32), (0i32, 0i32, 0i32), (1i32, 1i32)),
        vert((1i32, -1i32, 1i32), (0i32, 0i32, 0i32), (1i32, 0i32)),
        vert((1i32, -1i32, 1i32), (0i32, 0i32, 0i32), (1i32, 0i32)),
        vert((-1i32, -1i32, 1i32), (0i32, 0i32, 0i32), (0i32, 0i32)),
        vert((-1i32, -1i32, -1i32), (0i32, 0i32, 0i32), (0i32, 1i32)),
        vert((-1i32, 1i32, -1i32), (0i32, 0i32, 0i32), (0i32, 1i32)),
        vert((1i32, 1i32, -1i32), (0i32, 0i32, 0i32), (1i32, 1i32)),
        vert((1i32, 1i32, 1i32), (0i32, 0i32, 0i32), (1i32, 0i32)),
        vert((1i32, 1i32, 1i32), (0i32, 0i32, 0i32), (1i32, 0i32)),
        vert((-1i32, 1i32, 1i32), (0i32, 0i32, 0i32), (0i32, 0i32)),
        vert((-1i32, 1i32, -1i32), (0i32, 0i32, 0i32), (0i32, 1i32)),
    ]
}

/// The position coordinate on a given axis: 0 is x, 1 is y, 2 is z.
pub open spec fn coord(p: (i32, i32, i32), axis: int) -> i32 {
    if axis == 0 {
        p.0
    } else if axis == 1 {
        p.1
    } else {
        p.2
    }
}

/// The axis a cube face is flat on: the first two faces on z, the next
/// two on x, the last two on y.
pub open spec fn face_axis(f: int) -> int {
    if f < 2 {
        2
    } else if f < 4 {
        0
    } else {
        1
    }
}

/// The side of the cube a face sits on: even faces at -1, odd at 1.
pub open spec fn face_sign(f: int) -> i32 {
    if f % 2 == 0 {
        -1i32
    } else {
        1i32
    }
}

/// The cube's vertices come in six consecutive groups of six, one per
/// face: each face is flat, with its fixed coordinate equal to the
/// face's sign, so the six groups tile the six sides of the cube.
pub proof fn lemma_cube_faces()
    ensures
        cube_vertices().len() == 36,
        forall|k: int|
            0 <= k < 36 ==> coord(
                (#[trigger] cube_vertices()[k]).pos,
                face_axis(k / 6),
            ) == face_sign(k / 6),
{
    assert forall|k: int| 0 <= k < 36 implies coord(
        (#[trigger] cube_vertices()[k]).pos,
        face_axis(k / 6),
    ) == face_sign(k / 6) by {
        assert(0 <= k / 6 < 6);
    }
}

/// Every cube vertex sits on a corner of the unit cube: positions are
/// -1 or 1 on each axis, normals are zero, and texture coordinates are
/// 0 or 1.
pub proof fn lemma_cube_vertices_unit()
    ensures
        forall|k: int|
            0 <= k < cube_vertices().len() ==> {
                let v = #[trigger] cube_vertices()[k];
                &&& (v.pos.0 == -1 || v.pos.0 == 1)
                &&& (v.pos.1 == -1 || v.pos.1 == 1)
                &&& (v.pos.2 == -1 || v.pos.2 == 1)
                &&& v.normal == (0i32, 0i32, 0i32)
                &&& (v.tex_coord.0 == 0 || v.tex_coord.0 == 1)
                &&& (v.tex_coord.1 == 0 || v.tex_coord.1 == 1)
            },
{
}

/// The default triangle mesh, drawn as separate triangles.
pub fn triangle() -> (m: Mesh)
    ensures
        m.mode == Mode::Triangle,
        m.vertices@ == triangle_vertices(),
{
    let mut v: Vec<Vertex> = Vec::new();
    v.push(Vertex::from((0, 1, 0), (230, 30, 30), (0, 0)));
    v.push(Vertex::from((1, -1, 0), (30, 230, 30), (0, 0)));
    v.push(Vertex::from((-1, -1, 0), (30, 30, 230), (0, 0)));
    proof {
        assert(v@ =~= triangle_vertices());
    }
    Mesh { vertices: v, mode: Mode::Triangle }
}

/// The default quad mesh, drawn as a triangle fan.
pub fn quad() -> (m: Mesh)
    ensures
        m.mode == Mode::TriangleFan,
        m.vertices@ == quad_vertices(),
{
    let mut v: Vec<Vertex> = Vec::new();
    v.push(Vertex::from((-1, -1, 0), (255, 0, 0), (0, 0)));
    v.push(Vertex::from((1, -1, 0), (0, 255, 0), (1, 0)));
    v.push(Vertex::from((1, 1, 0), (255, 255, 0), (1, 1)));
    v.push(Vertex::from((-1, 1, 0), (30, 30, 255), (0, 1)));
    proof {
        assert(v@ =~= quad_vertices());
    }
    Mesh { vertices: v, mode: Mode::TriangleFan }
}

/// The default cube mesh, drawn as separate triangles.
pub fn cube() -> (m: Mesh)
    ensures
        m.mode == Mode::Triangle,
        m.vertices@ == cube_vertices(),
{
    let mut v: Vec<Vertex> = Vec::new();
    v.push(Vertex::from((-1, -1, -1), (0, 0, 0), (0, 0)));
    v.push(Vertex::from((1, -1, -1), (0, 0, 0), (1, 0)));
    v.push(Vertex::from((1, 1, -1), (0, 0, 0), (1, 1)));
    v.push(Vertex::from((1, 1, -1), (0, 0, 0), (1, 1)));
    v.push(Vertex::from((-1, 1, -1), (0, 0, 0), (0, 1)));
    v.push(Vertex::from((-1, -1, -1), (0, 0, 0), (0, 0)));
    v.push(Vertex::from((-1, -1, 1), (0, 0, 0), (0, 0)));
    v.push(Vertex::from((1, -1, 1), (0, 0, 0), (1, 0)));
    v.push(Vertex::from((1, 1, 1), (0, 0, 0), (1, 1)));
    v.push(Vertex::from((1, 1, 1), (0, 0, 0), (1, 1)));
    v.push(Vertex::from((-1, 1, 1), (0, 0, 0), (0, 1)));
    v.push(Vertex::from((-1, -1, 1), (0, 0, 0), (0, 0)));
    v.push(Vertex::from((-1, 1, 1), (0, 0, 0), (1, 0)));
    v.push(Vertex::from((-1, 1, -1), (0, 0, 0), (1, 1)));
    v.push(Vertex::from((-1, -1, -1), (0, 0, 0), (0, 1)));
    v.push(Vertex::from((-1, -1, -1), (0, 0, 0), (0, 1)));
    v.push(Vertex::from((-1, -1, 1), (0, 0, 0), (0, 0)));
    v.push(Vertex::from((-1, 1, 1), (0, 0, 0), (1, 0)));
    v.push(Vertex::from((1, 1, 1), (0, 0, 0), (1, 0)));
    v.push(Vertex::from((1, 1, -1), (0, 0, 0), (1, 1)));
    v.push(Vertex::from((1, -1, -1), (0, 0, 0), (0, 1)));
    v.push(Vertex::from((1, -1, -1), (0, 0, 0), (0, 1)));
    v.push(Vertex::from((1, -1, 1), (0, 0, 0), (0, 0)));
    v.push(Vertex::from((1, 1, 1), (0, 0, 0), (1, 0)));
    v.push(Vertex::from((-1, -1, -1), (0, 0, 0), (0, 1)));
    v.push(Vertex::from((1, -1, -1), (0, 0, 0), (1, 1)));
    v.push(Vertex::from((1, -1, 1), (0, 0, 0), (1, 0)));
    v.push(Vertex::from((1, -1, 1), (0, 0, 0), (1, 0)));
    v.push(Vertex::from((-1, -1, 1), (0, 0, 0), (0, 0)));
    v.push(Vertex::from((-1, -1, -1), (0, 0, 0), (0, 1)));
    v.push(Vertex::from((-1, 1, -1), (0, 0, 0), (0, 1)));
    v.push(Vertex::from((1, 1, -1), (0, 0, 0), (1, 1)));
    v.push(Vertex::from((1, 1, 1), (0, 0, 0), (1, 0)));
    v.push(Vertex::from((1, 1, 1), (0, 0, 0), (1, 0)));
    v.push(Vertex::from((-1, 1, 1), (0, 0, 0), (0, 0)));
    v.push(Vertex::from((-1, 1, -1), (0, 0, 0), (0, 1)));
    proof {
        assert(v@ =~= cube_vertices());
    }
    Mesh { vertices: v, mode: Mode::Triangle }
}

} // verus!
