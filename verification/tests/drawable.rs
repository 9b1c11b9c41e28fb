use vibevj::common::Color;
use vibevj::mat4::Mat4;
use vibevj::material::material_buffer_words;
use vibevj::material::Material;
use vibevj::material::MaterialUniform;
use vibevj::material::ShaderType;
use vibevj::mesh_gen::create_cube;
use vibevj::render_object::MeshType;
use vibevj::render_object::RenderObject;
use vibevj::render_object::RenderObjectDescriptor;

fn bits(x: f32) -> u32 {
    x.to_bits()
}

fn words_of(m: glam::Mat4) -> Vec<u32> {
    m.to_cols_array().iter().map(|f| f.to_bits()).collect()
}

#[test]
fn model_uniform_round_trip() {
    let mut object = RenderObject::new(
        create_cube(bits(1.0)),
        Material::new(),
        Mat4::identity(),
    );
    assert!(object.model_uniform_words().is_none());
    object.upload();
    let first = object.model_uniform_words().unwrap().clone();
    assert_eq!(first, words_of(glam::Mat4::IDENTITY));
    let moved = Mat4::from_translation(&[bits(1.5), bits(-2.0), bits(0.25)]);
    object.update_transform(moved);
    let read_back = object.model_uniform_words().unwrap();
    assert_eq!(
        read_back,
        &words_of(glam::Mat4::from_translation(glam::Vec3::new(1.5, -2.0, 0.25)))
    );
    assert_eq!(read_back.as_slice(), &moved.m[..]);
}

#[test]
fn update_transform_before_upload_keeps_gpu_absent() {
    let mut object = RenderObject::new(
        create_cube(bits(1.0)),
        Material::new(),
        Mat4::identity(),
    );
    object.update_transform(Mat4::from_scale(&[bits(2.0), bits(2.0), bits(2.0)]));
    assert!(object.model_uniform_words().is_none());
}

#[test]
fn upload_fills_all_buffers_from_values() {
    let mesh = create_cube(bits(1.0));
    let material = Material::unlit(Color::new(bits(1.0), bits(0.5), bits(0.2), bits(1.0)));
    let mut object = RenderObject::new(mesh, material, Mat4::identity());
    object.upload();
    let words = material_buffer_words(&object.material);
    assert_eq!(
        words,
        vec![
            bits(1.0),
            bits(0.5),
            bits(0.2),
            bits(1.0),
            0,
            0,
            0,
            bits(1.0),
            0,
            bits(1.0),
            0,
            0,
        ]
    );
}

#[test]
fn material_uniform_layout() {
    let material = Material::new();
    let uniform = MaterialUniform::from_material(&material);
    assert_eq!(uniform.color, [bits(1.0); 4]);
    assert_eq!(uniform.emissive, [0, 0, 0, bits(1.0)]);
    assert_eq!(uniform.metallic, 0);
    assert_eq!(uniform.roughness, bits(0.5));
    assert_eq!(uniform.padding, [0, 0]);
    assert_eq!(material.shader_type, ShaderType::BasicLit);
}

#[test]
fn emissive_material_scales_channels() {
    let color = Color::new(bits(0.25), bits(0.5), bits(1.0), bits(0.75));
    let material = Material::emissive(color, bits(2.0));
    assert_eq!(material.emissive.r, bits(0.25 * 2.0));
    assert_eq!(material.emissive.g, bits(0.5 * 2.0));
    assert_eq!(material.emissive.b, bits(1.0 * 2.0));
    assert_eq!(material.emissive.a, bits(0.75));
    assert_eq!(material.shader_type, ShaderType::Unlit);
}

#[test]
fn descriptor_builds_scaled_cube_and_transform() {
    let descriptor = RenderObjectDescriptor {
        mesh_type: MeshType::Cube { size: 100 },
        material: Material::new(),
        position: [bits(1.0), bits(2.0), bits(3.0)],
        rotation: [bits(0.1), bits(0.2), bits(0.3)],
        scale: [bits(1.0), bits(1.0), bits(2.0)],
    };
    let object = descriptor.create_object();
    assert_eq!(object.mesh.vertices.len(), 24);
    // 100 hundredths make an edge of one: corners half a unit out.
    assert_eq!(object.mesh.vertices[0].position, [bits(-0.5), bits(-0.5), bits(0.5)]);
    let expected = glam::Mat4::from_translation(glam::Vec3::new(1.0, 2.0, 3.0))
        * glam::Mat4::from_euler(glam::EulerRot::XYZ, 0.1, 0.2, 0.3)
        * glam::Mat4::from_scale(glam::Vec3::new(1.0, 1.0, 2.0));
    assert_eq!(object.transform.m.to_vec(), words_of(expected));
    assert!(object.model_uniform_words().is_none());
}

#[test]
fn descriptor_sphere_counts() {
    let descriptor = RenderObjectDescriptor {
        mesh_type: MeshType::Sphere { radius: 80, segments: 12, rings: 6 },
        material: Material::new(),
        position: [0, 0, 0],
        rotation: [0, 0, 0],
        scale: [bits(1.0), bits(1.0), bits(1.0)],
    };
    let object = descriptor.create_object();
    assert_eq!(object.mesh.vertices.len(), 13 * 7);
    assert_eq!(object.mesh.indices.len(), 6 * 12 * 6);
}
