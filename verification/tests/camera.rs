use vibevj::camera::Camera;
use vibevj::camera::CameraUniform;
use vibevj::camera::BITS_FAR_DEFAULT;
use vibevj::camera::BITS_FOV_45_DEG;
use vibevj::camera::BITS_NEAR_DEFAULT;
use vibevj::mat4::Mat4;

fn bits(x: f32) -> u32 {
    x.to_bits()
}

fn glam_of(words: &[u32; 16]) -> glam::Mat4 {
    let floats: [f32; 16] = words.map(f32::from_bits);
    glam::Mat4::from_cols_array(&floats)
}

fn words_of(m: glam::Mat4) -> [u32; 16] {
    m.to_cols_array().map(f32::to_bits)
}

#[test]
fn camera_defaults_match_contract() {
    let camera = Camera::new([0, 0, bits(3.0)], [0, 0, 0], bits(16.0 / 9.0));
    assert_eq!(camera.up, [0, bits(1.0), 0]);
    assert_eq!(camera.fov, BITS_FOV_45_DEG);
    assert_eq!(camera.fov, bits(45.0f32.to_radians()));
    assert_eq!(camera.near, BITS_NEAR_DEFAULT);
    assert_eq!(camera.near, bits(0.1));
    assert_eq!(camera.far, BITS_FAR_DEFAULT);
    assert_eq!(camera.far, bits(100.0));
}

#[test]
fn view_matrix_matches_look_at() {
    let camera = Camera::new([bits(3.0), bits(2.0), bits(5.0)], [0, 0, 0], bits(16.0 / 9.0));
    let view = camera.view_matrix();
    let expected = glam::camera::rh::view::look_at_mat4(
        glam::Vec3::new(3.0, 2.0, 5.0),
        glam::Vec3::ZERO,
        glam::Vec3::Y,
    );
    assert_eq!(view.m, words_of(expected));
}

#[test]
fn projection_matrix_matches_perspective() {
    let camera = Camera::new([0, 0, bits(3.0)], [0, 0, 0], bits(16.0 / 9.0));
    let projection = camera.projection_matrix();
    let expected = glam::camera::rh::proj::directx::perspective(
        45.0f32.to_radians(),
        16.0 / 9.0,
        0.1,
        100.0,
    );
    assert_eq!(projection.m, words_of(expected));
}

#[test]
fn view_projection_is_projection_times_view() {
    let camera = Camera::new([bits(3.0), bits(2.0), bits(5.0)], [0, 0, 0], bits(16.0 / 9.0));
    let vp = camera.view_projection_matrix();
    let product = glam_of(&camera.projection_matrix().m) * glam_of(&camera.view_matrix().m);
    assert_eq!(vp.m, words_of(product));
}

#[test]
fn matrix_product_matches_glam() {
    let a = Mat4::from_translation(&[bits(1.0), bits(2.0), bits(3.0)]);
    let b = Mat4::from_scale(&[bits(2.0), bits(2.0), bits(2.0)]);
    let product = a.mul_mat(&b);
    let expected = glam::Mat4::from_translation(glam::Vec3::new(1.0, 2.0, 3.0))
        * glam::Mat4::from_scale(glam::Vec3::splat(2.0));
    assert_eq!(product.m, words_of(expected));
}

#[test]
fn camera_uniform_tracks_camera() {
    let mut uniform = CameraUniform::new();
    assert_eq!(glam_of(&uniform.view_proj), glam::Mat4::IDENTITY);
    let camera = Camera::new([0, 0, bits(4.0)], [0, 0, 0], bits(1.0));
    uniform.update_view_proj(&camera);
    assert_eq!(uniform.view_proj, camera.view_projection_matrix().m);
}

#[test]
fn update_aspect_changes_only_aspect() {
    let mut camera = Camera::new([0, 0, bits(3.0)], [0, 0, 0], bits(16.0 / 9.0));
    let before = camera;
    camera.update_aspect(bits(4.0 / 3.0));
    assert_eq!(camera.aspect, bits(4.0 / 3.0));
    assert_eq!(camera.position, before.position);
    assert_eq!(camera.target, before.target);
    assert_eq!(camera.fov, before.fov);
    assert_eq!(camera.near, before.near);
    assert_eq!(camera.far, before.far);
}

#[test]
fn transform_composes_scale_rotation_translation() {
    let transform = vibevj::common::Transform::new(
        [bits(1.0), bits(2.0), bits(3.0)],
        [bits(0.4), bits(0.5), bits(0.6)],
        [bits(2.0), bits(1.0), bits(0.5)],
    );
    let m = transform.to_matrix();
    let expected = glam::Mat4::from_scale_rotation_translation(
        glam::Vec3::new(2.0, 1.0, 0.5),
        glam::Quat::from_euler(glam::EulerRot::XYZ, 0.4, 0.5, 0.6),
        glam::Vec3::new(1.0, 2.0, 3.0),
    );
    assert_eq!(m.m, words_of(expected));
}
