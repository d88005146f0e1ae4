//! Vertex layouts: imgui's draw vertex and the vertex the luminance shader
//! reads. Coordinates are carried as the bit patterns of their `f32` values,
//! so a conversion that moves them is exact by construction.
use vstd::prelude::*;

verus! {

/// An imgui draw vertex: position, texture coordinate (each two `f32` bit
/// patterns) and an RGBA color of four bytes.
#[derive(Clone, Copy, Debug, PartialEq, Eq)]
pub struct DrawVert {
    pub pos: [u32; 2],
    pub uv: [u32; 2],
    pub col: [u8; 4],
}

/// The vertex of the shader's `pos`, `col` and `uv` attributes, in that
/// memory order; the color bytes are read as normalized.
#[derive(Clone, Copy, Debug, PartialEq, Eq)]
pub struct Vertex {
    pub position: [u32; 2],
    pub color: [u8; 4],
    pub tex_coord: [u32; 2],
}

/// The shader vertex that carries exactly the values of an imgui vertex.
pub open spec fn vertex_of(v: DrawVert) -> Vertex {
    Vertex { position: v.pos, color: v.col, tex_coord: v.uv }
}

impl From<DrawVert> for Vertex {
    fn from(v: DrawVert) -> (r: Vertex)
        ensures
            r == vertex_of(v),
    {
        Vertex { position: v.pos, color: v.col, tex_coord: v.uv }
    }
}

impl vstd::std_specs::convert::FromSpecImpl<DrawVert> for Vertex {
    open spec fn obeys_from_spec() -> bool {
        true
    }

    open spec fn from_spec(v: DrawVert) -> Vertex {
        vertex_of(v)
    }
}

/// Converts a draw list's vertex buffer element by element, keeping the
/// order and every position, texture coordinate and color value.
pub fn convert_vertices(vtx: &Vec<DrawVert>) -> (r: Vec<Vertex>)
    ensures
        r@.len() == vtx@.len(),
        forall|i: int| 0 <= i < vtx@.len() ==> #[trigger] r@[i] == vertex_of(vtx@[i]),
{
    let mut r: Vec<Vertex> = Vec::with_capacity(vtx.len());
    let mut i: usize = 0;
    while i < vtx.len()
        invariant
            i <= vtx@.len(),
            r@.len() == i,
            forall|k: int| 0 <= k < i ==> #[trigger] r@[k] == vertex_of(vtx@[k]),
        decreases vtx@.len() - i,
    {
        r.push(Vertex::from(vtx[i]));
        i = i + 1;
    }
    r
}

} // verus!
