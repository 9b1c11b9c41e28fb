//! Parametric mesh generators: deterministic functions from shape
//! parameters to meshes.  Every generated mesh satisfies the geometry
//! invariant: each triangle index addresses a vertex.  Callers must supply
//! positive segment and subdivision counts.

use vstd::prelude::*;
use crate::mesh::Mesh;
use crate::mesh::Vertex;
use crate::numeric::add_bits;
use crate::numeric::cos_sin_bits;
use crate::numeric::div_bits;
use crate::numeric::f_add;
use crate::numeric::f_cos_sin;
use crate::numeric::f_div;
use crate::numeric::f_mul;
use crate::numeric::f_neg;
use crate::numeric::f_of_u32;
use crate::numeric::float_of_u32;
use crate::numeric::mul_bits;
use crate::numeric::neg_bits;
use crate::BITS_HALF;
use crate::BITS_NEG_ONE;
use crate::BITS_ONE;
use crate::BITS_ZERO;

verus! {

/// Bit pattern of the IEEE single-precision value two.
pub const BITS_TWO: u32 = 0x40000000;

/// Bit pattern of the IEEE single-precision value pi.
pub const BITS_PI: u32 = 0x40490FDB;

/// Bit pattern of the IEEE single-precision value two pi.
pub const BITS_TWO_PI: u32 = 0x40C90FDB;

/// The largest accepted segment, ring or subdivision count; keeps every
/// vertex index and index count inside the 32-bit index type.
pub const MAX_SEGMENTS: u32 = 16384;

/// The twenty-four cube vertices: four per face, six faces, in the order
/// front, back, right, left, top, bottom; `s` is half the edge length.
pub open spec fn cube_vertices_spec(size: u32) -> Seq<Vertex> {
    let s = mul_bits(size, BITS_HALF);
    let n = neg_bits(s);
    let o = BITS_ONE;
    let z = BITS_ZERO;
    let m = neg_bits(o);
    seq![
        Vertex { position: [n, n, s], normal: [z, z, o], uv: [z, z], color: [o, z, z] },
        Vertex { position: [s, n, s], normal: [z, z, o], uv: [o, z], color: [o, z, z] },
        Vertex { position: [s, s, s], normal: [z, z, o], uv: [o, o], color: [o, z, z] },
        Vertex { position: [n, s, s], normal: [z, z, o], uv: [z, o], color: [o, z, z] },
        Vertex { position: [s, n, n], normal: [z, z, m], uv: [z, z], color: [z, o, z] },
        Vertex { position: [n, n, n], normal: [z, z, m], uv: [o, z], color: [z, o, z] },
        Vertex { position: [n, s, n], normal: [z, z, m], uv: [o, o], color: [z, o, z] },
        Vertex { position: [s, s, n], normal: [z, z, m], uv: [z, o], color: [z, o, z] },
        Vertex { position: [s, n, s], normal: [o, z, z], uv: [z, z], color: [z, z, o] },
        Vertex { position: [s, n, n], normal: [o, z, z], uv: [o, z], color: [z, z, o] },
        Vertex { position: [s, s, n], normal: [o, z, z], uv: [o, o], color: [z, z, o] },
        Vertex { position: [s, s, s], normal: [o, z, z], uv: [z, o], color: [z, z, o] },
        Vertex { position: [n, n, n], normal: [m, z, z], uv: [z, z], color: [o, o, z] },
        Vertex { position: [n, n, s], normal: [m, z, z], uv: [o, z], color: [o, o, z] },
        Vertex { position: [n, s, s], normal: [m, z, z], uv: [o, o], color: [o, o, z] },
        Vertex { position: [n, s, n], normal: [m, z, z], uv: [z, o], color: [o, o, z] },
        Vertex { position: [n, s, s], normal: [z, o, z], uv: [z, z], color: [o, z, o] },
        Vertex { position: [s, s, s], normal: [z, o, z], uv: [o, z], color: [o, z, o] },
        Vertex { position: [s, s, n], normal: [z, o, z], uv: [o, o], color: [o, z, o] },
        Vertex { position: [n, s, n], normal: [z, o, z], uv: [z, o], color: [o, z, o] },
        Vertex { position: [n, n, n], normal: [z, m, z], uv: [z, z], color: [z, o, o] },
        Vertex { position: [s, n, n], normal: [z, m, z], uv: [o, z], color: [z, o, o] },
        Vertex { position: [s, n, s], normal: [z, m, z], uv: [o, o], color: [z, o, o] },
        Vertex { position: [n, n, s], normal: [z, m, z], uv: [z, o], color: [z, o, o] },
    ]
}

/// The thirty-six cube indices: two counter-clockwise triangles per face.
pub open spec fn cube_indices_spec() -> Seq<u32> {
    seq![
        0u32, 1u32, 2u32, 2u32, 3u32, 0u32,
        4u32, 5u32, 6u32, 6u32, 7u32, 4u32,
        8u32, 9u32, 10u32, 10u32, 11u32, 8u32,
        12u32, 13u32, 14u32, 14u32, 15u32, 12u32,
        16u32, 17u32, 18u32, 18u32, 19u32, 16u32,
        20u32, 21u32, 22u32, 22u32, 23u32, 20u32,
    ]
}

/// A cube of the given edge length centered at the origin: twenty-four
/// vertices (four per face) and thirty-six indices (six per face).
pub fn create_cube(size: u32) -> (r: Mesh)
    ensures
        r.vertices@ == cube_vertices_spec(size),
        r.indices@ == cube_indices_spec(),
        r.vertices@.len() == 24,
        r.indices@.len() == 36,
        r.wf(),
        r.vertex_buffer is None,
        r.index_buffer is None,
{
    let s = f_mul(size, BITS_HALF);
    let n = f_neg(s);
    let o = BITS_ONE;
    let z = BITS_ZERO;
    let m = f_neg(o);
    proof {
        assert(m == neg_bits(BITS_ONE));
    }
    let vertices: Vec<Vertex> = vec![
        Vertex::new([n, n, s], [z, z, o], [z, z], [o, z, z]),
        Vertex::new([s, n, s], [z, z, o], [o, z], [o, z, z]),
        Vertex::new([s, s, s], [z, z, o], [o, o], [o, z, z]),
        Vertex::new([n, s, s], [z, z, o], [z, o], [o, z, z]),
        Vertex::new([s, n, n], [z, z, m], [z, z], [z, o, z]),
        Vertex::new([n, n, n], [z, z, m], [o, z], [z, o, z]),
        Vertex::new([n, s, n], [z, z, m], [o, o], [z, o, z]),
        Vertex::new([s, s, n], [z, z, m], [z, o], [z, o, z]),
        Vertex::new([s, n, s], [o, z, z], [z, z], [z, z, o]),
        Vertex::new([s, n, n], [o, z, z], [o, z], [z, z, o]),
        Vertex::new([s, s, n], [o, z, z], [o, o], [z, z, o]),
        Vertex::new([s, s, s], [o, z, z], [z, o], [z, z, o]),
        Vertex::new([n, n, n], [m, z, z], [z, z], [o, o, z]),
        Vertex::new([n, n, s], [m, z, z], [o, z], [o, o, z]),
        Vertex::new([n, s, s], [m, z, z], [o, o], [o, o, z]),
        Vertex::new([n, s, n], [m, z, z], [z, o], [o, o, z]),
        Vertex::new([n, s, s], [z, o, z], [z, z], [o, z, o]),
        Vertex::new([s, s, s], [z, o, z], [o, z], [o, z, o]),
        Vertex::new([s, s, n], [z, o, z], [o, o], [o, z, o]),
        Vertex::new([n, s, n], [z, o, z], [z, o], [o, z, o]),
        Vertex::new([n, n, n], [z, m, z], [z, z], [z, o, o]),
        Vertex::new([s, n, n], [z, m, z], [o, z], [z, o, o]),
        Vertex::new([s, n, s], [z, m, z], [o, o], [z, o, o]),
        Vertex::new([n, n, s], [z, m, z], [z, o], [z, o, o]),
    ];
    let indices: Vec<u32> = vec![
        0, 1, 2, 2, 3, 0,
        4, 5, 6, 6, 7, 4,
        8, 9, 10, 10, 11, 8,
        12, 13, 14, 14, 15, 12,
        16, 17, 18, 18, 19, 16,
        20, 21, 22, 22, 23, 20,
    ];
    proof {
        assert(vertices@ =~= cube_vertices_spec(size));
        assert(indices@ =~= cube_indices_spec());
        assert(forall|i: int|
            0 <= i < indices@.len() ==> (indices@[i] as int) < vertices@.len());
    }
    Mesh::new(vertices, indices)
}

/// One plane vertex: positions spread linearly over the subdivision grid
/// in the z-zero plane, facing positive z, colored white.
pub open spec fn plane_vertex_spec(width: u32, height: u32, sx: u32, sy: u32, y: int, x: int) -> Vertex {
    let u = div_bits(float_of_u32(x as u32), float_of_u32(sx));
    let v = div_bits(float_of_u32(y as u32), float_of_u32(sy));
    let px = add_bits(neg_bits(div_bits(width, BITS_TWO)), mul_bits(width, u));
    let py = add_bits(neg_bits(div_bits(height, BITS_TWO)), mul_bits(height, v));
    Vertex {
        position: [px, py, BITS_ZERO],
        normal: [BITS_ZERO, BITS_ZERO, BITS_ONE],
        uv: [u, v],
        color: [BITS_ONE, BITS_ONE, BITS_ONE],
    }
}

/// The first `upto_x` vertices of plane row `y`.
pub open spec fn plane_row_spec(width: u32, height: u32, sx: u32, sy: u32, y: int, upto_x: int) -> Seq<Vertex>
    decreases upto_x,
{
    if upto_x <= 0 {
        Seq::empty()
    } else {
        plane_row_spec(width, height, sx, sy, y, upto_x - 1).push(
            plane_vertex_spec(width, height, sx, sy, y, upto_x - 1),
        )
    }
}

/// The vertices of the first `upto_y` plane rows, each row `sx + 1` wide.
pub open spec fn plane_vertices_spec(width: u32, height: u32, sx: u32, sy: u32, upto_y: int) -> Seq<Vertex>
    decreases upto_y,
{
    if upto_y <= 0 {
        Seq::empty()
    } else {
        plane_vertices_spec(width, height, sx, sy, upto_y - 1) + plane_row_spec(
            width,
            height,
            sx,
            sy,
            upto_y - 1,
            sx as int + 1,
        )
    }
}

/// The six indices of grid quad (`y`, `x`) over rows of stride `sx + 1`:
/// two triangles between row `y` and row `y + 1`.
pub open spec fn grid_quad_spec(sx: u32, y: int, x: int) -> Seq<u32> {
    let base = y * (sx as int + 1) + x;
    let nr = base + sx as int + 1;
    seq![
        base as u32,
        nr as u32,
        (base + 1) as u32,
        (base + 1) as u32,
        nr as u32,
        (nr + 1) as u32,
    ]
}

/// The indices of the first `upto_x` quads of grid row `y`.
pub open spec fn grid_idx_row_spec(sx: u32, y: int, upto_x: int) -> Seq<u32>
    decreases upto_x,
{
    if upto_x <= 0 {
        Seq::empty()
    } else {
        grid_idx_row_spec(sx, y, upto_x - 1) + grid_quad_spec(sx, y, upto_x - 1)
    }
}

/// The indices of the first `upto_y` grid rows, each of `sx` quads.
pub open spec fn grid_indices_spec(sx: u32, upto_y: int) -> Seq<u32>
    decreases upto_y,
{
    if upto_y <= 0 {
        Seq::empty()
    } else {
        grid_indices_spec(sx, upto_y - 1) + grid_idx_row_spec(sx, upto_y - 1, sx as int)
    }
}

/// Push the six indices of grid quad (`y`, `x`) with stride `sx + 1` and
/// show they stay below the vertex count of a grid with `rows` vertex rows.
fn push_grid_quad(indices: &mut Vec<u32>, sx: u32, rows: u32, y: u32, x: u32)
    requires
        1 <= sx <= MAX_SEGMENTS,
        rows <= MAX_SEGMENTS + 1,
        y + 2 <= rows,
        x < sx,
        forall|j: int|
            0 <= j < old(indices)@.len() ==> (old(indices)@[j] as int) < (rows as int) * (
            sx as int + 1),
    ensures
        final(indices)@ == old(indices)@ + grid_quad_spec(sx, y as int, x as int),
        forall|j: int|
            0 <= j < final(indices)@.len() ==> (final(indices)@[j] as int) < (rows as int) * (
            sx as int + 1),
{
    proof {
        assert((y as int) * (sx as int + 1) + (x as int) + (sx as int + 1) + 1 < (rows as int) * (
        sx as int + 1) && (rows as int) * (sx as int + 1) <= 0x20000000) by (nonlinear_arith)
            requires
                1 <= sx <= 0x4000,
                rows <= 0x4001,
                y + 2 <= rows,
                x < sx,
        ;
    }
    let base = y * (sx + 1) + x;
    let nr = base + sx + 1;
    let ghost before = indices@;
    indices.push(base);
    indices.push(nr);
    indices.push(base + 1);
    indices.push(base + 1);
    indices.push(nr);
    indices.push(nr + 1);
    proof {
        assert(indices@ =~= before + grid_quad_spec(sx, y as int, x as int));
    }
}

/// A plane of the given extents in the z-zero plane, subdivided into a
/// grid: `(sx + 1) * (sy + 1)` vertices and `6 * sx * sy` indices.
pub fn create_plane(width: u32, height: u32, subdivisions_x: u32, subdivisions_y: u32) -> (r: Mesh)
    requires
        1 <= subdivisions_x <= MAX_SEGMENTS,
        1 <= subdivisions_y <= MAX_SEGMENTS,
    ensures
        r.vertices@ == plane_vertices_spec(
            width,
            height,
            subdivisions_x,
            subdivisions_y,
            subdivisions_y as int + 1,
        ),
        r.indices@ == grid_indices_spec(subdivisions_x, subdivisions_y as int),
        r.vertices@.len() == (subdivisions_y as int + 1) * (subdivisions_x as int + 1),
        r.indices@.len() == 6 * (subdivisions_x as int) * (subdivisions_y as int),
        r.wf(),
        r.vertex_buffer is None,
        r.index_buffer is None,
{
    let sx = subdivisions_x;
    let sy = subdivisions_y;
    let mut vertices: Vec<Vertex> = Vec::new();
    let mut y: u32 = 0;
    while y < sy + 1
        invariant
            1 <= sx <= MAX_SEGMENTS,
            1 <= sy <= MAX_SEGMENTS,
            y <= sy + 1,
            vertices@ == plane_vertices_spec(width, height, sx, sy, y as int),
            vertices@.len() == (y as int) * (sx as int + 1),
        decreases sy + 1 - y,
    {
        let v = f_div(f_of_u32(y), f_of_u32(sy));
        let py = f_add(f_neg(f_div(height, BITS_TWO)), f_mul(height, v));
        let mut x: u32 = 0;
        while x < sx + 1
            invariant
                1 <= sx <= MAX_SEGMENTS,
                1 <= sy <= MAX_SEGMENTS,
                y <= sy,
                x <= sx + 1,
                v == div_bits(float_of_u32(y), float_of_u32(sy)),
                py == add_bits(neg_bits(div_bits(height, BITS_TWO)), mul_bits(height, v)),
                vertices@ == plane_vertices_spec(width, height, sx, sy, y as int) + plane_row_spec(
                    width,
                    height,
                    sx,
                    sy,
                    y as int,
                    x as int,
                ),
                vertices@.len() == (y as int) * (sx as int + 1) + (x as int),
            decreases sx + 1 - x,
        {
            let u = f_div(f_of_u32(x), f_of_u32(sx));
            let px = f_add(f_neg(f_div(width, BITS_TWO)), f_mul(width, u));
            vertices.push(
                Vertex::new(
                    [px, py, BITS_ZERO],
                    [BITS_ZERO, BITS_ZERO, BITS_ONE],
                    [u, v],
                    [BITS_ONE, BITS_ONE, BITS_ONE],
                ),
            );
            proof {
                assert(vertices@ =~= plane_vertices_spec(width, height, sx, sy, y as int)
                    + plane_row_spec(width, height, sx, sy, y as int, x as int + 1));
            }
            x = x + 1;
        }
        proof {
            assert(((y as int) + 1) * (sx as int + 1) == (y as int) * (sx as int + 1) + (sx as int
                + 1)) by (nonlinear_arith);
        }
        y = y + 1;
    }
    let mut indices: Vec<u32> = Vec::new();
    let mut qy: u32 = 0;
    while qy < sy
        invariant
            1 <= sx <= MAX_SEGMENTS,
            1 <= sy <= MAX_SEGMENTS,
            qy <= sy,
            indices@ == grid_indices_spec(sx, qy as int),
            forall|j: int|
                0 <= j < indices@.len() ==> (indices@[j] as int) < ((sy as int) + 1) * (sx as int
                    + 1),
        decreases sy - qy,
    {
        let mut qx: u32 = 0;
        while qx < sx
            invariant
                1 <= sx <= MAX_SEGMENTS,
                1 <= sy <= MAX_SEGMENTS,
                qy < sy,
                qx <= sx,
                indices@ == grid_indices_spec(sx, qy as int) + grid_idx_row_spec(
                    sx,
                    qy as int,
                    qx as int,
                ),
                forall|j: int|
                    0 <= j < indices@.len() ==> (indices@[j] as int) < ((sy as int) + 1) * (
                    sx as int + 1),
            decreases sx - qx,
        {
            push_grid_quad(&mut indices, sx, sy + 1, qy, qx);
            qx = qx + 1;
        }
        qy = qy + 1;
    }
    proof {
        lemma_grid_indices_len(sx, sy as int);
        assert(((sy as int) + 1) * (sx as int + 1) <= 0x20000000 && 6 * (sx as int) * (sy as int)
            <= 0x70000000) by (nonlinear_arith)
            requires
                1 <= sx <= 0x4000,
                1 <= sy <= 0x4000,
        ;
    }
    Mesh::new(vertices, indices)
}

/// One sphere vertex: position on the sphere of the given radius at the
/// latitude of `ring` and the longitude of `seg`, the normal the
/// normalized position, the color derived from the position.
pub open spec fn sphere_vertex_spec(radius: u32, segments: u32, rings: u32, ring: int, seg: int) -> Vertex {
    let phi = div_bits(mul_bits(BITS_PI, float_of_u32(ring as u32)), float_of_u32(rings));
    let cs_phi = cos_sin_bits(phi);
    let theta = div_bits(mul_bits(BITS_TWO_PI, float_of_u32(seg as u32)), float_of_u32(segments));
    let cs_theta = cos_sin_bits(theta);
    let x = mul_bits(cs_phi.1, cs_theta.0);
    let y = cs_phi.0;
    let z = mul_bits(cs_phi.1, cs_theta.1);
    let u = div_bits(float_of_u32(seg as u32), float_of_u32(segments));
    let v = div_bits(float_of_u32(ring as u32), float_of_u32(rings));
    Vertex {
        position: [mul_bits(x, radius), mul_bits(y, radius), mul_bits(z, radius)],
        normal: [x, y, z],
        uv: [u, v],
        color: [
            mul_bits(add_bits(x, BITS_ONE), BITS_HALF),
            mul_bits(add_bits(y, BITS_ONE), BITS_HALF),
            mul_bits(add_bits(z, BITS_ONE), BITS_HALF),
        ],
    }
}

/// The first `upto_seg` vertices of sphere ring `ring`.
pub open spec fn sphere_row_spec(radius: u32, segments: u32, rings: u32, ring: int, upto_seg: int) -> Seq<Vertex>
    decreases upto_seg,
{
    if upto_seg <= 0 {
        Seq::empty()
    } else {
        sphere_row_spec(radius, segments, rings, ring, upto_seg - 1).push(
            sphere_vertex_spec(radius, segments, rings, ring, upto_seg - 1),
        )
    }
}

/// The vertices of the first `upto_ring` sphere rings, each `segments + 1`
/// wide.
pub open spec fn sphere_vertices_spec(radius: u32, segments: u32, rings: u32, upto_ring: int) -> Seq<Vertex>
    decreases upto_ring,
{
    if upto_ring <= 0 {
        Seq::empty()
    } else {
        sphere_vertices_spec(radius, segments, rings, upto_ring - 1) + sphere_row_spec(
            radius,
            segments,
            rings,
            upto_ring - 1,
            segments as int + 1,
        )
    }
}

/// A unit sphere scaled by `radius`: latitude rings by longitude segments,
/// with analytically derived normals.
pub fn create_sphere(radius: u32, segments: u32, rings: u32) -> (r: Mesh)
    requires
        1 <= segments <= MAX_SEGMENTS,
        1 <= rings <= MAX_SEGMENTS,
    ensures
        r.vertices@ == sphere_vertices_spec(radius, segments, rings, rings as int + 1),
        r.indices@ == grid_indices_spec(segments, rings as int),
        r.vertices@.len() == (rings as int + 1) * (segments as int + 1),
        r.indices@.len() == 6 * (segments as int) * (rings as int),
        r.wf(),
        r.vertex_buffer is None,
        r.index_buffer is None,
{
    let mut vertices: Vec<Vertex> = Vec::new();
    let mut ring: u32 = 0;
    while ring < rings + 1
        invariant
            1 <= segments <= MAX_SEGMENTS,
            1 <= rings <= MAX_SEGMENTS,
            ring <= rings + 1,
            vertices@ == sphere_vertices_spec(radius, segments, rings, ring as int),
            vertices@.len() == (ring as int) * (segments as int + 1),
        decreases rings + 1 - ring,
    {
        let phi = f_div(f_mul(BITS_PI, f_of_u32(ring)), f_of_u32(rings));
        let cs_phi = f_cos_sin(phi);
        let v = f_div(f_of_u32(ring), f_of_u32(rings));
        let mut seg: u32 = 0;
        while seg < segments + 1
            invariant
                1 <= segments <= MAX_SEGMENTS,
                1 <= rings <= MAX_SEGMENTS,
                ring <= rings,
                seg <= segments + 1,
                phi == div_bits(mul_bits(BITS_PI, float_of_u32(ring)), float_of_u32(rings)),
                cs_phi == cos_sin_bits(phi),
                v == div_bits(float_of_u32(ring), float_of_u32(rings)),
                vertices@ == sphere_vertices_spec(radius, segments, rings, ring as int)
                    + sphere_row_spec(radius, segments, rings, ring as int, seg as int),
                vertices@.len() == (ring as int) * (segments as int + 1) + (seg as int),
            decreases segments + 1 - seg,
        {
            let theta = f_div(f_mul(BITS_TWO_PI, f_of_u32(seg)), f_of_u32(segments));
            let cs_theta = f_cos_sin(theta);
            let x = f_mul(cs_phi.1, cs_theta.0);
            let y = cs_phi.0;
            let z = f_mul(cs_phi.1, cs_theta.1);
            let u = f_div(f_of_u32(seg), f_of_u32(segments));
            let color = [
                f_mul(f_add(x, BITS_ONE), BITS_HALF),
                f_mul(f_add(y, BITS_ONE), BITS_HALF),
                f_mul(f_add(z, BITS_ONE), BITS_HALF),
            ];
            vertices.push(
                Vertex::new(
                    [f_mul(x, radius), f_mul(y, radius), f_mul(z, radius)],
                    [x, y, z],
                    [u, v],
                    color,
                ),
            );
            proof {
                assert(vertices@ =~= sphere_vertices_spec(radius, segments, rings, ring as int)
                    + sphere_row_spec(radius, segments, rings, ring as int, seg as int + 1));
            }
            seg = seg + 1;
        }
        proof {
            assert(((ring as int) + 1) * (segments as int + 1) == (ring as int) * (segments as int
                + 1) + (segments as int + 1)) by (nonlinear_arith);
        }
        ring = ring + 1;
    }
    let mut indices: Vec<u32> = Vec::new();
    let mut qy: u32 = 0;
    while qy < rings
        invariant
            1 <= segments <= MAX_SEGMENTS,
            1 <= rings <= MAX_SEGMENTS,
            qy <= rings,
            indices@ == grid_indices_spec(segments, qy as int),
            forall|j: int|
                0 <= j < indices@.len() ==> (indices@[j] as int) < ((rings as int) + 1) * (
                segments as int + 1),
        decreases rings - qy,
    {
        let mut qx: u32 = 0;
        while qx < segments
            invariant
                1 <= segments <= MAX_SEGMENTS,
                1 <= rings <= MAX_SEGMENTS,
                qy < rings,
                qx <= segments,
                indices@ == grid_indices_spec(segments, qy as int) + grid_idx_row_spec(
                    segments,
                    qy as int,
                    qx as int,
                ),
                forall|j: int|
                    0 <= j < indices@.len() ==> (indices@[j] as int) < ((rings as int) + 1) * (
                    segments as int + 1),
            decreases segments - qx,
        {
            push_grid_quad(&mut indices, segments, rings + 1, qy, qx);
            qx = qx + 1;
        }
        qy = qy + 1;
    }
    proof {
        lemma_grid_indices_len(segments, rings as int);
        assert(((rings as int) + 1) * (segments as int + 1) <= 0x20000000 && 6 * (segments as int)
            * (rings as int) <= 0x70000000) by (nonlinear_arith)
            requires
                1 <= segments <= 0x4000,
                1 <= rings <= 0x4000,
        ;
    }
    Mesh::new(vertices, indices)
}

/// One cylinder side vertex at the longitude of `seg`, on the bottom rim
/// when `ring` is zero and on the top rim when it is one.
pub open spec fn cylinder_vertex_spec(radius: u32, height: u32, segments: u32, ring: int, seg: int) -> Vertex {
    let hh = div_bits(height, BITS_TWO);
    let yb = if ring == 0 {
        neg_bits(hh)
    } else {
        hh
    };
    let theta = div_bits(mul_bits(BITS_TWO_PI, float_of_u32(seg as u32)), float_of_u32(segments));
    let cs = cos_sin_bits(theta);
    let u = div_bits(float_of_u32(seg as u32), float_of_u32(segments));
    Vertex {
        position: [mul_bits(cs.0, radius), yb, mul_bits(cs.1, radius)],
        normal: [cs.0, BITS_ZERO, cs.1],
        uv: [u, float_of_u32(ring as u32)],
        color: [BITS_ONE, BITS_ONE, BITS_ONE],
    }
}

/// The first `upto_seg` vertices of cylinder rim `ring`.
pub open spec fn cylinder_row_spec(radius: u32, height: u32, segments: u32, ring: int, upto_seg: int) -> Seq<Vertex>
    decreases upto_seg,
{
    if upto_seg <= 0 {
        Seq::empty()
    } else {
        cylinder_row_spec(radius, height, segments, ring, upto_seg - 1).push(
            cylinder_vertex_spec(radius, height, segments, ring, upto_seg - 1),
        )
    }
}

/// The two cap-center vertices: bottom first, then top.
pub open spec fn cylinder_caps_spec(height: u32) -> Seq<Vertex> {
    let hh = div_bits(height, BITS_TWO);
    seq![
        Vertex {
            position: [BITS_ZERO, neg_bits(hh), BITS_ZERO],
            normal: [BITS_ZERO, BITS_NEG_ONE, BITS_ZERO],
            uv: [BITS_HALF, BITS_HALF],
            color: [BITS_ONE, BITS_ONE, BITS_ONE],
        },
        Vertex {
            position: [BITS_ZERO, hh, BITS_ZERO],
            normal: [BITS_ZERO, BITS_ONE, BITS_ZERO],
            uv: [BITS_HALF, BITS_HALF],
            color: [BITS_ONE, BITS_ONE, BITS_ONE],
        },
    ]
}

/// All cylinder vertices: the bottom rim, the top rim, then the two cap
/// centers.
pub open spec fn cylinder_vertices_spec(radius: u32, height: u32, segments: u32) -> Seq<Vertex> {
    cylinder_row_spec(radius, height, segments, 0, segments as int + 1) + cylinder_row_spec(
        radius,
        height,
        segments,
        1,
        segments as int + 1,
    ) + cylinder_caps_spec(height)
}

/// A cylinder of the given radius and height: two rims of side vertices
/// plus two cap centers, and one quad of side indices per segment.
pub fn create_cylinder(radius: u32, height: u32, segments: u32) -> (r: Mesh)
    requires
        1 <= segments <= MAX_SEGMENTS,
    ensures
        r.vertices@ == cylinder_vertices_spec(radius, height, segments),
        r.indices@ == grid_idx_row_spec(segments, 0, segments as int),
        r.vertices@.len() == 2 * (segments as int + 1) + 2,
        r.indices@.len() == 6 * (segments as int),
        r.wf(),
        r.vertex_buffer is None,
        r.index_buffer is None,
{
    let hh = f_div(height, BITS_TWO);
    let neg_hh = f_neg(hh);
    let mut vertices: Vec<Vertex> = Vec::new();
    let mut ring: u32 = 0;
    while ring < 2
        invariant
            1 <= segments <= MAX_SEGMENTS,
            ring <= 2,
            hh == div_bits(height, BITS_TWO),
            neg_hh == neg_bits(hh),
            ring == 0 ==> vertices@ == Seq::<Vertex>::empty(),
            ring == 1 ==> vertices@ == cylinder_row_spec(
                radius,
                height,
                segments,
                0,
                segments as int + 1,
            ),
            ring == 2 ==> vertices@ == cylinder_row_spec(
                radius,
                height,
                segments,
                0,
                segments as int + 1,
            ) + cylinder_row_spec(radius, height, segments, 1, segments as int + 1),
            vertices@.len() == (ring as int) * (segments as int + 1),
        decreases 2 - ring,
    {
        let yb = if ring == 0 {
            neg_hh
        } else {
            hh
        };
        let v = f_of_u32(ring);
        let ghost row_start = vertices@;
        let mut seg: u32 = 0;
        while seg < segments + 1
            invariant
                1 <= segments <= MAX_SEGMENTS,
                ring < 2,
                seg <= segments + 1,
                hh == div_bits(height, BITS_TWO),
                neg_hh == neg_bits(hh),
                yb == (if ring == 0 {
                    neg_bits(div_bits(height, BITS_TWO))
                } else {
                    div_bits(height, BITS_TWO)
                }),
                v == float_of_u32(ring),
                vertices@ == row_start + cylinder_row_spec(
                    radius,
                    height,
                    segments,
                    ring as int,
                    seg as int,
                ),
                row_start.len() == (ring as int) * (segments as int + 1),
                vertices@.len() == row_start.len() + (seg as int),
            decreases segments + 1 - seg,
        {
            let theta = f_div(f_mul(BITS_TWO_PI, f_of_u32(seg)), f_of_u32(segments));
            let cs = f_cos_sin(theta);
            let u = f_div(f_of_u32(seg), f_of_u32(segments));
            vertices.push(
                Vertex::new(
                    [f_mul(cs.0, radius), yb, f_mul(cs.1, radius)],
                    [cs.0, BITS_ZERO, cs.1],
                    [u, v],
                    [BITS_ONE, BITS_ONE, BITS_ONE],
                ),
            );
            proof {
                assert(vertices@ =~= row_start + cylinder_row_spec(
                    radius,
                    height,
                    segments,
                    ring as int,
                    seg as int + 1,
                ));
            }
            seg = seg + 1;
        }
        proof {
            assert(((ring as int) + 1) * (segments as int + 1) == (ring as int) * (segments as int
                + 1) + (segments as int + 1)) by (nonlinear_arith);
        }
        ring = ring + 1;
    }
    let mut indices: Vec<u32> = Vec::new();
    let mut qx: u32 = 0;
    while qx < segments
        invariant
            1 <= segments <= MAX_SEGMENTS,
            qx <= segments,
            indices@ == grid_idx_row_spec(segments, 0, qx as int),
            forall|j: int|
                0 <= j < indices@.len() ==> (indices@[j] as int) < 2 * (segments as int + 1),
        decreases segments - qx,
    {
        push_grid_quad(&mut indices, segments, 2, 0, qx);
        qx = qx + 1;
    }
    vertices.push(
        Vertex::new(
            [BITS_ZERO, neg_hh, BITS_ZERO],
            [BITS_ZERO, BITS_NEG_ONE, BITS_ZERO],
            [BITS_HALF, BITS_HALF],
            [BITS_ONE, BITS_ONE, BITS_ONE],
        ),
    );
    vertices.push(
        Vertex::new(
            [BITS_ZERO, hh, BITS_ZERO],
            [BITS_ZERO, BITS_ONE, BITS_ZERO],
            [BITS_HALF, BITS_HALF],
            [BITS_ONE, BITS_ONE, BITS_ONE],
        ),
    );
    proof {
        assert(vertices@ =~= cylinder_vertices_spec(radius, height, segments));
        lemma_grid_idx_row_len(segments, 0, segments as int);
    }
    Mesh::new(vertices, indices)
}

/// The indices of `upto_y` full grid rows number six per quad.
pub proof fn lemma_grid_indices_len(sx: u32, upto_y: int)
    requires
        upto_y >= 0,
    ensures
        grid_indices_spec(sx, upto_y).len() == 6 * (sx as int) * upto_y,
    decreases upto_y,
{
    if upto_y > 0 {
        lemma_grid_indices_len(sx, upto_y - 1);
        lemma_grid_idx_row_len(sx, upto_y - 1, sx as int);
        assert(grid_indices_spec(sx, upto_y) == grid_indices_spec(sx, upto_y - 1)
            + grid_idx_row_spec(sx, upto_y - 1, sx as int));
        assert(6 * (sx as int) * upto_y == 6 * (sx as int) * (upto_y - 1) + 6 * (sx as int))
            by (nonlinear_arith);
        assert(grid_indices_spec(sx, upto_y).len() == 6 * (sx as int) * upto_y);
    } else {
        assert(upto_y == 0);
        assert(grid_indices_spec(sx, upto_y).len() == 0);
        assert(6 * (sx as int) * upto_y == 0) by (nonlinear_arith)
            requires
                upto_y == 0,
        ;
    }
}

/// Each grid row of `upto_x` quads contributes six indices per quad.
pub proof fn lemma_grid_idx_row_len(sx: u32, y: int, upto_x: int)
    requires
        upto_x >= 0,
    ensures
        grid_idx_row_spec(sx, y, upto_x).len() == 6 * upto_x,
    decreases upto_x,
{
    if upto_x > 0 {
        lemma_grid_idx_row_len(sx, y, upto_x - 1);
    }
}

} // verus!
