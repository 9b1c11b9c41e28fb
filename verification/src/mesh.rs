//! Vertex and mesh data: pure values until uploaded, with the device-side
//! buffer contents modeled as the exact word sequences handed to the GPU.

use vstd::prelude::*;
use crate::BITS_HALF;
use crate::BITS_NEG_ONE;
use crate::BITS_ONE;

verus! {

/// One vertex: position, normal, texture coordinate and color, each scalar
/// a single-precision bit pattern.  The field order and widths are a
/// contract shared with the shading pipeline's vertex layout.
#[derive(Debug, Clone, Copy, PartialEq, Eq)]
pub struct Vertex {
    pub position: [u32; 3],
    pub normal: [u32; 3],
    pub uv: [u32; 2],
    pub color: [u32; 3],
}

impl Vertex {
    /// The eleven words of this vertex in buffer order: position, normal,
    /// texture coordinate, color.
    pub open spec fn words(self) -> Seq<u32> {
        self.position@ + self.normal@ + self.uv@ + self.color@
    }

    pub fn new(position: [u32; 3], normal: [u32; 3], uv: [u32; 2], color: [u32; 3]) -> (v:
        Vertex)
        ensures
            v == (Vertex { position, normal, uv, color }),
    {
        Vertex { position, normal, uv, color }
    }
}

/// The words of a vertex sequence in buffer order.
pub open spec fn vertex_words(vs: Seq<Vertex>) -> Seq<u32>
    decreases vs.len(),
{
    if vs.len() == 0 {
        Seq::empty()
    } else {
        vertex_words(vs.drop_last()) + vs.last().words()
    }
}

/// The exact vertex-buffer contents for the given vertices.
pub fn vertex_buffer_words(vertices: &Vec<Vertex>) -> (r: Vec<u32>)
    ensures
        r@ == vertex_words(vertices@),
{
    let mut out: Vec<u32> = Vec::new();
    let mut i: usize = 0;
    while i < vertices.len()
        invariant
            i <= vertices@.len(),
            out@ == vertex_words(vertices@.take(i as int)),
        decreases vertices@.len() - i,
    {
        let v = vertices[i];
        let ghost before = out@;
        out.push(v.position[0]);
        out.push(v.position[1]);
        out.push(v.position[2]);
        out.push(v.normal[0]);
        out.push(v.normal[1]);
        out.push(v.normal[2]);
        out.push(v.uv[0]);
        out.push(v.uv[1]);
        out.push(v.color[0]);
        out.push(v.color[1]);
        out.push(v.color[2]);
        proof {
            assert(out@ =~= before + v.words());
            assert(vertices@.take(i + 1 as int).drop_last() =~= vertices@.take(i as int));
            assert(vertices@.take(i + 1 as int).last() == vertices@[i as int]);
        }
        i = i + 1;
    }
    proof {
        assert(vertices@.take(vertices@.len() as int) =~= vertices@);
    }
    out
}

/// Copy a word vector; the device-side copy of an index buffer.
pub fn copy_words(v: &Vec<u32>) -> (r: Vec<u32>)
    ensures
        r@ == v@,
{
    let mut out: Vec<u32> = Vec::new();
    let mut i: usize = 0;
    while i < v.len()
        invariant
            i <= v@.len(),
            out@ == v@.take(i as int),
        decreases v@.len() - i,
    {
        out.push(v[i]);
        proof {
            assert(out@ =~= v@.take(i + 1 as int));
        }
        i = i + 1;
    }
    proof {
        assert(v@.take(v@.len() as int) =~= v@);
    }
    out
}

/// Bit pattern of the IEEE single-precision value minus one half.
pub const BITS_NEG_HALF: u32 = 0xBF000000;

/// The two triangles of one quad, counter-clockwise.
pub open spec fn quad_indices_spec() -> Seq<u32> {
    seq![0u32, 1u32, 2u32, 2u32, 3u32, 0u32]
}

/// The four corners of a unit cube's front face, half a unit from the
/// origin, facing positive z, one primary or secondary color each.
pub open spec fn front_face_vertices_spec() -> Seq<Vertex> {
    let o = BITS_ONE;
    let z = 0u32;
    let h = BITS_HALF;
    let n = BITS_NEG_HALF;
    seq![
        Vertex { position: [n, n, h], normal: [z, z, o], uv: [z, z], color: [o, z, z] },
        Vertex { position: [h, n, h], normal: [z, z, o], uv: [o, z], color: [z, o, z] },
        Vertex { position: [h, h, h], normal: [z, z, o], uv: [o, o], color: [z, z, o] },
        Vertex { position: [n, h, h], normal: [z, z, o], uv: [z, o], color: [o, o, z] },
    ]
}

/// The four corners of a full-screen quad, one unit from the origin,
/// facing positive z, colored white.
pub open spec fn quad_vertices_spec() -> Seq<Vertex> {
    let o = BITS_ONE;
    let z = 0u32;
    let n = BITS_NEG_ONE;
    seq![
        Vertex { position: [n, n, z], normal: [z, z, o], uv: [z, z], color: [o, o, o] },
        Vertex { position: [o, n, z], normal: [z, z, o], uv: [o, z], color: [o, o, o] },
        Vertex { position: [o, o, z], normal: [z, z, o], uv: [o, o], color: [o, o, o] },
        Vertex { position: [n, o, z], normal: [z, z, o], uv: [z, o], color: [o, o, o] },
    ]
}

/// A triangle-list mesh.  Invariant: every index addresses a vertex, and
/// both counts fit the index type the draw call uses.
#[derive(Debug, Clone, PartialEq, Eq)]
pub struct Mesh {
    pub vertices: Vec<Vertex>,
    pub indices: Vec<u32>,
    pub vertex_buffer: Option<Vec<u32>>,
    pub index_buffer: Option<Vec<u32>>,
}

impl Mesh {
    pub open spec fn wf(self) -> bool {
        &&& forall|i: int|
            0 <= i < self.indices@.len() ==> (self.indices@[i] as int) < self.vertices@.len()
        &&& self.vertices@.len() <= u32::MAX
        &&& self.indices@.len() <= u32::MAX
    }

    /// A mesh whose device-side buffers, once present, hold exactly the
    /// mesh's own data.
    pub open spec fn buffers_match(self) -> bool {
        &&& self.vertex_buffer is Some ==> self.vertex_buffer->0@ == vertex_words(self.vertices@)
        &&& self.index_buffer is Some ==> self.index_buffer->0@ == self.indices@
    }

    pub fn new(vertices: Vec<Vertex>, indices: Vec<u32>) -> (m: Mesh)
        requires
            forall|i: int| 0 <= i < indices@.len() ==> (indices@[i] as int) < vertices@.len(),
            vertices@.len() <= u32::MAX,
            indices@.len() <= u32::MAX,
        ensures
            m.vertices == vertices,
            m.indices == indices,
            m.vertex_buffer is None,
            m.index_buffer is None,
            m.wf(),
            m.buffers_match(),
    {
        Mesh { vertices, indices, vertex_buffer: None, index_buffer: None }
    }

    /// A unit cube's front face alone: four vertices and one quad of
    /// indices.
    pub fn cube() -> (m: Mesh)
        ensures
            m.vertices@ == front_face_vertices_spec(),
            m.indices@ == quad_indices_spec(),
            m.wf(),
            m.vertex_buffer is None,
            m.index_buffer is None,
    {
        let o = BITS_ONE;
        let z = 0u32;
        let h = BITS_HALF;
        let n = BITS_NEG_HALF;
        let vertices: Vec<Vertex> = vec![
            Vertex::new([n, n, h], [z, z, o], [z, z], [o, z, z]),
            Vertex::new([h, n, h], [z, z, o], [o, z], [z, o, z]),
            Vertex::new([h, h, h], [z, z, o], [o, o], [z, z, o]),
            Vertex::new([n, h, h], [z, z, o], [z, o], [o, o, z]),
        ];
        let indices: Vec<u32> = vec![0, 1, 2, 2, 3, 0];
        proof {
            assert(vertices@ =~= front_face_vertices_spec());
            assert(indices@ =~= quad_indices_spec());
        }
        Mesh::new(vertices, indices)
    }

    /// A full-screen quad in the z-zero plane.
    pub fn quad() -> (m: Mesh)
        ensures
            m.vertices@ == quad_vertices_spec(),
            m.indices@ == quad_indices_spec(),
            m.wf(),
            m.vertex_buffer is None,
            m.index_buffer is None,
    {
        let o = BITS_ONE;
        let z = 0u32;
        let n = BITS_NEG_ONE;
        let vertices: Vec<Vertex> = vec![
            Vertex::new([n, n, z], [z, z, o], [z, z], [o, o, o]),
            Vertex::new([o, n, z], [z, z, o], [o, z], [o, o, o]),
            Vertex::new([o, o, z], [z, z, o], [o, o], [o, o, o]),
            Vertex::new([n, o, z], [z, z, o], [z, o], [o, o, o]),
        ];
        let indices: Vec<u32> = vec![0, 1, 2, 2, 3, 0];
        proof {
            assert(vertices@ =~= quad_vertices_spec());
            assert(indices@ =~= quad_indices_spec());
        }
        Mesh::new(vertices, indices)
    }

    /// Upload the mesh data: the device-side buffers become exact copies of
    /// the vertex words and the indices.
    pub fn upload(&mut self)
        ensures
            final(self).vertices == old(self).vertices,
            final(self).indices == old(self).indices,
            final(self).vertex_buffer is Some,
            final(self).vertex_buffer->0@ == vertex_words(old(self).vertices@),
            final(self).index_buffer is Some,
            final(self).index_buffer->0@ == old(self).indices@,
            final(self).buffers_match(),
            old(self).wf() ==> final(self).wf(),
    {
        let vw = vertex_buffer_words(&self.vertices);
        let iw = copy_words(&self.indices);
        self.vertex_buffer = Some(vw);
        self.index_buffer = Some(iw);
    }
}

} // verus!
