//! A renderable object: mesh, material and model transform, plus its
//! device-side state.  The device-side buffers are lazily absent until an
//! explicit upload; afterwards only the model transform may change per
//! frame, which rewrites the model uniform buffer and reallocates nothing.

use vstd::prelude::*;
use crate::mat4::euler_xyz_bits;
use crate::mat4::mat_mul_bits;
use crate::mat4::scale_bits;
use crate::mat4::translation_bits;
use crate::mat4::Mat4;
use crate::material::material_buffer_words;
use crate::material::material_words;
use crate::material::Material;
use crate::mesh::copy_words;
use crate::mesh::vertex_buffer_words;
use crate::mesh::vertex_words;
use crate::mesh::Mesh;
use crate::mesh_gen::create_cube;
use crate::mesh_gen::create_cylinder;
use crate::mesh_gen::create_plane;
use crate::mesh_gen::create_sphere;
use crate::mesh_gen::cube_indices_spec;
use crate::mesh_gen::cube_vertices_spec;
use crate::mesh_gen::cylinder_vertices_spec;
use crate::mesh_gen::grid_idx_row_spec;
use crate::mesh_gen::grid_indices_spec;
use crate::mesh_gen::plane_vertices_spec;
use crate::mesh_gen::sphere_vertices_spec;
use crate::mesh_gen::MAX_SEGMENTS;
use crate::numeric::div_bits;
use crate::numeric::f_div;
use crate::numeric::f_of_u32;
use crate::numeric::float_of_u32;

verus! {

/// Bit pattern of the IEEE single-precision value one hundred; descriptor
/// dimensions are fixed-point hundredths.
pub const BITS_HUNDRED: u32 = 0x42C80000;

/// The device-side resources of one uploaded object: the exact contents of
/// its vertex, index, material-uniform and model-uniform buffers.
#[derive(Debug, Clone, PartialEq, Eq)]
pub struct GpuResources {
    pub vertex_words: Vec<u32>,
    pub index_words: Vec<u32>,
    pub material_words: Vec<u32>,
    pub model_words: Vec<u32>,
}

/// A drawable object.  Device-side state is absent until `upload` runs;
/// a missing resource means the object is skipped, not an error.
#[derive(Debug, Clone, PartialEq, Eq)]
pub struct RenderObject {
    pub mesh: Mesh,
    pub material: Material,
    pub transform: Mat4,
    pub gpu: Option<GpuResources>,
}

impl RenderObject {
    /// The object has all device-side resources.
    pub open spec fn loaded(self) -> bool {
        self.gpu is Some
    }

    /// Once uploaded, the device-side buffers hold exactly the mesh data,
    /// the material uniform and the current model transform.
    pub open spec fn wf(self) -> bool {
        &&& self.mesh.wf()
        &&& self.gpu is Some ==> {
            &&& self.gpu->0.vertex_words@ == vertex_words(self.mesh.vertices@)
            &&& self.gpu->0.index_words@ == self.mesh.indices@
            &&& self.gpu->0.material_words@ == material_words(self.material)
            &&& self.gpu->0.model_words@ == self.transform.m@
        }
    }

    pub fn new(mesh: Mesh, material: Material, transform: Mat4) -> (o: RenderObject)
        requires
            mesh.wf(),
        ensures
            o.mesh == mesh,
            o.material == material,
            o.transform == transform,
            o.gpu is None,
            o.wf(),
            !o.loaded(),
    {
        RenderObject { mesh, material, transform, gpu: None }
    }

    /// Upload mesh and material data: afterwards every device-side buffer
    /// holds exactly the corresponding data.
    pub fn upload(&mut self)
        requires
            old(self).wf(),
        ensures
            final(self).mesh == old(self).mesh,
            final(self).material == old(self).material,
            final(self).transform == old(self).transform,
            final(self).loaded(),
            final(self).wf(),
    {
        let vertex_words = vertex_buffer_words(&self.mesh.vertices);
        let index_words = copy_words(&self.mesh.indices);
        let material_words = material_buffer_words(&self.material);
        let model_words = self.transform.to_words();
        self.gpu = Some(GpuResources { vertex_words, index_words, material_words, model_words });
    }

    /// Set the model transform.  If the object is uploaded, the model
    /// uniform buffer is rewritten in place; nothing is reallocated and no
    /// other buffer changes.
    pub fn update_transform(&mut self, transform: Mat4)
        ensures
            final(self).mesh == old(self).mesh,
            final(self).material == old(self).material,
            final(self).transform == transform,
            old(self).gpu is None ==> final(self).gpu is None,
            old(self).gpu is Some ==> {
                &&& final(self).gpu is Some
                &&& final(self).gpu->0.vertex_words == old(self).gpu->0.vertex_words
                &&& final(self).gpu->0.index_words == old(self).gpu->0.index_words
                &&& final(self).gpu->0.material_words == old(self).gpu->0.material_words
                &&& final(self).gpu->0.model_words@ == transform.m@
            },
            old(self).wf() ==> final(self).wf(),
    {
        self.transform = transform;
        let gpu = self.gpu.take();
        match gpu {
            None => {},
            Some(mut g) => {
                g.model_words = self.transform.to_words();
                self.gpu = Some(g);
            },
        }
    }

    /// The model uniform buffer contents, present once uploaded.
    pub fn model_uniform_words(&self) -> (r: Option<&Vec<u32>>)
        ensures
            self.gpu is Some <==> r is Some,
            r is Some ==> r->0@ == self.gpu->0.model_words@,
    {
        match &self.gpu {
            Some(g) => Some(&g.model_words),
            None => None,
        }
    }
}

/// Law: reading back an uploaded object's model uniform buffer yields
/// exactly the transform last written.
pub proof fn lemma_model_uniform_round_trip(o: RenderObject)
    requires
        o.wf(),
        o.loaded(),
    ensures
        o.gpu->0.model_words@ == o.transform.m@,
{
}

/// The procedural mesh shapes; dimensions are fixed-point hundredths.
#[derive(Debug, Clone, Copy, PartialEq, Eq, Structural)]
pub enum MeshType {
    Cube { size: u32 },
    Sphere { radius: u32, segments: u32, rings: u32 },
    Plane { width: u32, height: u32, subdivisions_x: u32, subdivisions_y: u32 },
    Cylinder { radius: u32, height: u32, segments: u32 },
}

impl MeshType {
    /// Segment, ring and subdivision counts must be positive and bounded.
    pub open spec fn counts_valid(self) -> bool {
        match self {
            MeshType::Cube { .. } => true,
            MeshType::Sphere { segments, rings, .. } => 1 <= segments <= MAX_SEGMENTS && 1
                <= rings <= MAX_SEGMENTS,
            MeshType::Plane { subdivisions_x, subdivisions_y, .. } => 1 <= subdivisions_x
                <= MAX_SEGMENTS && 1 <= subdivisions_y <= MAX_SEGMENTS,
            MeshType::Cylinder { segments, .. } => 1 <= segments <= MAX_SEGMENTS,
        }
    }
}

/// A shape dimension given in fixed-point hundredths, as the bit pattern
/// of the single-precision value it denotes.
pub open spec fn hundredths(x: u32) -> u32 {
    div_bits(float_of_u32(x), BITS_HUNDRED)
}

/// The vertices the descriptor's shape generates.
pub open spec fn descriptor_vertices_spec(mesh_type: MeshType) -> Seq<crate::mesh::Vertex> {
    match mesh_type {
        MeshType::Cube { size } => cube_vertices_spec(hundredths(size)),
        MeshType::Sphere { radius, segments, rings } => sphere_vertices_spec(
            hundredths(radius),
            segments,
            rings,
            rings as int + 1,
        ),
        MeshType::Plane { width, height, subdivisions_x, subdivisions_y } => plane_vertices_spec(
            hundredths(width),
            hundredths(height),
            subdivisions_x,
            subdivisions_y,
            subdivisions_y as int + 1,
        ),
        MeshType::Cylinder { radius, height, segments } => cylinder_vertices_spec(
            hundredths(radius),
            hundredths(height),
            segments,
        ),
    }
}

/// The indices the descriptor's shape generates.
pub open spec fn descriptor_indices_spec(mesh_type: MeshType) -> Seq<u32> {
    match mesh_type {
        MeshType::Cube { .. } => cube_indices_spec(),
        MeshType::Sphere { segments, rings, .. } => grid_indices_spec(segments, rings as int),
        MeshType::Plane { subdivisions_x, subdivisions_y, .. } => grid_indices_spec(
            subdivisions_x,
            subdivisions_y as int,
        ),
        MeshType::Cylinder { segments, .. } => grid_idx_row_spec(segments, 0, segments as int),
    }
}

/// Descriptor from which a render object is created: shape, material and
/// the translation, rotation and scale of its model transform.
#[derive(Debug, Clone, Copy, PartialEq, Eq)]
pub struct RenderObjectDescriptor {
    pub mesh_type: MeshType,
    pub material: Material,
    pub position: [u32; 3],
    pub rotation: [u32; 3],
    pub scale: [u32; 3],
}

impl RenderObjectDescriptor {
    /// The model transform the descriptor denotes: translation times
    /// rotation times scale.
    pub open spec fn transform_spec(self) -> Seq<u32> {
        mat_mul_bits(
            mat_mul_bits(translation_bits(self.position@), euler_xyz_bits(self.rotation@)),
            scale_bits(self.scale@),
        )
    }

    /// Generate the shape, then assemble the object, not yet uploaded.
    pub fn create_object(&self) -> (o: RenderObject)
        requires
            self.mesh_type.counts_valid(),
        ensures
            o.mesh.vertices@ == descriptor_vertices_spec(self.mesh_type),
            o.mesh.indices@ == descriptor_indices_spec(self.mesh_type),
            o.mesh.wf(),
            o.material == self.material,
            o.transform.m@ == self.transform_spec(),
            !o.loaded(),
            o.wf(),
    {
        let mesh = match self.mesh_type {
            MeshType::Cube { size } => create_cube(f_div(f_of_u32(size), BITS_HUNDRED)),
            MeshType::Sphere { radius, segments, rings } => create_sphere(
                f_div(f_of_u32(radius), BITS_HUNDRED),
                segments,
                rings,
            ),
            MeshType::Plane { width, height, subdivisions_x, subdivisions_y } => create_plane(
                f_div(f_of_u32(width), BITS_HUNDRED),
                f_div(f_of_u32(height), BITS_HUNDRED),
                subdivisions_x,
                subdivisions_y,
            ),
            MeshType::Cylinder { radius, height, segments } => create_cylinder(
                f_div(f_of_u32(radius), BITS_HUNDRED),
                f_div(f_of_u32(height), BITS_HUNDRED),
                segments,
            ),
        };
        let translation = Mat4::from_translation(&self.position);
        let rotation = Mat4::from_euler_xyz(&self.rotation);
        let scale = Mat4::from_scale(&self.scale);
        let transform = translation.mul_mat(&rotation).mul_mat(&scale);
        RenderObject::new(mesh, self.material, transform)
    }
}

} // verus!
