use vibevj::camera::Camera;
use vibevj::common::Color;
use vibevj::common::TextureFormat;
use vibevj::common::VibeVJError;
use vibevj::mat4::Mat4;
use vibevj::material::Material;
use vibevj::mesh_gen::create_cube;
use vibevj::mesh_gen::create_sphere;
use vibevj::pipeline::CullMode;
use vibevj::pipeline::Pipeline;
use vibevj::pipeline::Topology;
use vibevj::render_object::RenderObject;
use vibevj::render_target::RenderTarget;
use vibevj::renderer::first_acquire_step;
use vibevj::renderer::retry_acquire_step;
use vibevj::renderer::AcquireOutcome;
use vibevj::renderer::AcquireStep;
use vibevj::renderer::Renderer;
use vibevj::renderer::SurfaceErrorKind;
use vibevj::scene_renderer::SceneRenderer;

fn bits(x: f32) -> u32 {
    x.to_bits()
}

fn test_camera() -> Camera {
    Camera::new([bits(3.0), bits(2.0), bits(5.0)], [0, 0, 0], bits(16.0 / 9.0))
}

#[test]
fn render_skips_not_yet_uploaded_object() {
    let mut uploaded = RenderObject::new(
        create_cube(bits(1.0)),
        Material::new(),
        Mat4::identity(),
    );
    uploaded.upload();
    let pending = RenderObject::new(
        create_sphere(bits(1.0), 8, 4),
        Material::new(),
        Mat4::identity(),
    );
    let renderer = SceneRenderer::new(test_camera());
    let clear = Color::new(bits(0.1), bits(0.1), bits(0.1), bits(1.0));
    let plan = renderer.render(&vec![uploaded, pending], clear);
    assert_eq!(plan.draws.len(), 1);
    assert_eq!(plan.draws[0].object_index, 0);
    assert_eq!(plan.draws[0].index_count, 36);
    assert_eq!(plan.clear_color, clear);
    assert_eq!(plan.depth_clear, bits(1.0));
}

#[test]
fn render_preserves_caller_order() {
    let mut a = RenderObject::new(create_cube(bits(1.0)), Material::new(), Mat4::identity());
    let mut b = RenderObject::new(
        create_sphere(bits(1.0), 4, 2),
        Material::new(),
        Mat4::identity(),
    );
    a.upload();
    b.upload();
    let renderer = SceneRenderer::new(test_camera());
    let plan = renderer.render(
        &vec![a, b],
        Color::new(0, 0, 0, bits(1.0)),
    );
    assert_eq!(plan.draws.len(), 2);
    assert_eq!(plan.draws[0].object_index, 0);
    assert_eq!(plan.draws[0].index_count, 36);
    assert_eq!(plan.draws[1].object_index, 1);
    assert_eq!(plan.draws[1].index_count, 6 * 4 * 2);
}

#[test]
fn update_camera_writes_view_projection() {
    let mut renderer = SceneRenderer::new(test_camera());
    assert_eq!(renderer.camera_buffer, Mat4::identity().to_words());
    renderer.update_camera();
    let expected = renderer.camera().view_projection_matrix();
    assert_eq!(renderer.camera_buffer.as_slice(), &expected.m[..]);
}

#[test]
fn resize_with_same_dimensions_reallocates_nothing() {
    let mut target = RenderTarget::new(800, 600, TextureFormat::Bgra8UnormSrgb);
    assert_eq!(target.generation, 0);
    target.resize(800, 600);
    assert_eq!(target.generation, 0, "unchanged size must not reallocate the images");
    target.resize(400, 300);
    assert_eq!(target.generation, 1);
    assert_eq!((target.width, target.height), (400, 300));
    assert_eq!(target.format, TextureFormat::Bgra8UnormSrgb);
    target.resize(400, 300);
    assert_eq!(target.generation, 1);
}

#[test]
fn copy_layout_pads_rows_to_alignment() {
    let target = RenderTarget::new(100, 7, TextureFormat::Rgba8Unorm);
    let layout = target.copy_buffer_layout();
    assert_eq!(layout.unpadded_bytes_per_row, 400);
    assert_eq!(layout.padded_bytes_per_row, 512);
    assert_eq!(layout.buffer_size, 512 * 7);
}

#[test]
fn aspect_ratio_divides_width_by_height() {
    let target = RenderTarget::new(1280, 720, TextureFormat::Rgba8Unorm);
    assert_eq!(target.aspect_ratio(), bits(1280.0 / 720.0));
    let surface = Renderer::new(1920, 1080, TextureFormat::Bgra8UnormSrgb);
    assert_eq!(surface.aspect_ratio(), bits(1920.0 / 1080.0));
}

#[test]
fn renderer_ignores_zero_resize() {
    let mut surface = Renderer::new(800, 600, TextureFormat::Bgra8UnormSrgb);
    surface.resize(0, 500);
    assert_eq!((surface.width, surface.height), (800, 600));
    surface.resize(1024, 768);
    assert_eq!((surface.width, surface.height), (1024, 768));
    assert_eq!(surface.surface_format(), TextureFormat::Bgra8UnormSrgb);
}

#[test]
fn outdated_surface_recovers_with_one_retry() {
    // Frame N: acquiring fails because the surface is outdated.
    let first = first_acquire_step(&AcquireOutcome::Failed(SurfaceErrorKind::Outdated));
    assert_eq!(first, AcquireStep::ReconfigureAndRetry);
    // After reconfiguring at the last known size, the retry succeeds: the
    // frame is presented and the caller observes no error.
    let second = retry_acquire_step(&AcquireOutcome::Acquired);
    assert_eq!(second, AcquireStep::Present);
}

#[test]
fn lost_and_timed_out_surfaces_also_retry() {
    assert_eq!(
        first_acquire_step(&AcquireOutcome::Failed(SurfaceErrorKind::Lost)),
        AcquireStep::ReconfigureAndRetry
    );
    assert_eq!(
        first_acquire_step(&AcquireOutcome::Failed(SurfaceErrorKind::Timeout)),
        AcquireStep::ReconfigureAndRetry
    );
}

#[test]
fn second_failure_surfaces_the_error() {
    assert_eq!(
        retry_acquire_step(&AcquireOutcome::Failed(SurfaceErrorKind::Outdated)),
        AcquireStep::GiveUp(SurfaceErrorKind::Outdated)
    );
    assert_eq!(
        first_acquire_step(&AcquireOutcome::Failed(SurfaceErrorKind::OutOfMemory)),
        AcquireStep::GiveUp(SurfaceErrorKind::OutOfMemory)
    );
    assert_eq!(
        first_acquire_step(&AcquireOutcome::Acquired),
        AcquireStep::Present
    );
}

#[test]
fn pipeline_build_requires_both_shaders() {
    let missing_vertex = Pipeline::builder().build(TextureFormat::Bgra8UnormSrgb);
    assert_eq!(
        missing_vertex,
        Err(VibeVJError::RenderError("Vertex shader not set".to_string()))
    );
    let missing_fragment = Pipeline::builder().vertex_shader().build(
        TextureFormat::Bgra8UnormSrgb,
    );
    assert_eq!(
        missing_fragment,
        Err(VibeVJError::RenderError("Fragment shader not set".to_string()))
    );
    let built = Pipeline::builder()
        .vertex_shader()
        .fragment_shader()
        .topology(Topology::TriangleList)
        .cull_mode(CullMode::Back)
        .depth_stencil()
        .build(TextureFormat::Bgra8UnormSrgb)
        .unwrap();
    assert_eq!(built.format, TextureFormat::Bgra8UnormSrgb);
    assert_eq!(built.topology, Topology::TriangleList);
    assert_eq!(built.cull_mode, CullMode::Back);
    assert!(built.depth_enabled);
}
