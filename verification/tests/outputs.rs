use vibevj::common::TextureFormat;
use vibevj::mat4::Mat4;
use vibevj::material::Material;
use vibevj::mesh_gen::create_cube;
use vibevj::mesh_gen::create_sphere;
use vibevj::preview_window::PreviewWindow;
use vibevj::scene_state::SceneState;

fn bits(x: f32) -> u32 {
    x.to_bits()
}

fn scene_data() -> Vec<(vibevj::mesh::Mesh, Material, Mat4)> {
    vec![
        (
            create_cube(bits(1.0)),
            Material::new(),
            Mat4::from_translation(&[0, 0, 0]),
        ),
        (
            create_sphere(bits(0.8), 8, 4),
            Material::new(),
            Mat4::from_translation(&[bits(-2.5), 0, 0]),
        ),
    ]
}

fn frame_transforms(angle: f32) -> Vec<Mat4> {
    let a = Mat4::from_euler_xyz(&[0, bits(angle), 0]);
    let b = Mat4::from_translation(&[bits(-2.5), 0, bits(angle)]);
    vec![a, b]
}

#[test]
fn preview_window_skips_until_ready() {
    let mut window = PreviewWindow::new(640, 360, TextureFormat::Bgra8UnormSrgb);
    assert!(!window.is_ready);
    assert!(window.render().is_none());
    window.init_scene_objects(Vec::new());
    assert!(window.is_ready);
    // Ready but empty: still nothing to draw.
    assert!(window.render().is_none());
}

#[test]
fn preview_window_draws_uploaded_copies() {
    let mut window = PreviewWindow::new(640, 360, TextureFormat::Bgra8UnormSrgb);
    window.init_scene_objects(scene_data());
    assert_eq!(window.render_objects.len(), 2);
    assert!(window.render_objects[0].model_uniform_words().is_some());
    let plan = window.render().unwrap();
    assert_eq!(plan.draws.len(), 2);
    assert_eq!(plan.draws[0].index_count, 36);
    assert_eq!(plan.clear_color.r, bits(0.1));
}

#[test]
fn transforms_apply_positionally_and_leave_the_rest() {
    let mut window = PreviewWindow::new(640, 360, TextureFormat::Bgra8UnormSrgb);
    window.init_scene_objects(scene_data());
    let second_before = window.render_objects[1].transform;
    let turned = Mat4::from_euler_xyz(&[0, bits(1.0), 0]);
    window.update_scene(vec![turned]);
    window.render().unwrap();
    assert_eq!(window.render_objects[0].transform.m, turned.m);
    assert_eq!(
        window.render_objects[0].model_uniform_words().unwrap().as_slice(),
        &turned.m[..]
    );
    assert_eq!(window.render_objects[1].transform.m, second_before.m);
}

#[test]
fn two_outputs_hold_identical_model_matrices() {
    // Two independently-owned outputs, each with its own copies uploaded
    // against its own device, advanced with the same transform list.
    let mut primary = PreviewWindow::new(1280, 720, TextureFormat::Bgra8UnormSrgb);
    let mut preview = PreviewWindow::new(640, 360, TextureFormat::Rgba8UnormSrgb);
    primary.init_scene_objects(scene_data());
    preview.init_scene_objects(scene_data());
    for frame in 0..5 {
        let transforms = frame_transforms(frame as f32 * 0.37);
        primary.update_scene(transforms.clone());
        preview.update_scene(transforms);
        primary.render().unwrap();
        preview.render().unwrap();
        for i in 0..2 {
            assert_eq!(
                primary.render_objects[i].transform.m,
                preview.render_objects[i].transform.m,
                "model matrices diverged at frame {} object {}",
                frame,
                i
            );
            assert_eq!(
                primary.render_objects[i].model_uniform_words().unwrap(),
                preview.render_objects[i].model_uniform_words().unwrap()
            );
        }
    }
}

#[test]
fn scene_state_hands_out_transforms_in_order() {
    let mut state = SceneState::new();
    let mut cube = vibevj::render_object::RenderObject::new(
        create_cube(bits(1.0)),
        Material::new(),
        Mat4::from_translation(&[bits(1.0), 0, 0]),
    );
    cube.upload();
    state.render_objects.push(cube);
    state.update(bits(2.5));
    assert_eq!(state.time, bits(2.5));
    let transforms = state.transforms();
    assert_eq!(transforms.len(), 1);
    assert_eq!(transforms[0].m, state.render_objects[0].transform.m);
}

#[test]
fn preview_resize_ignores_zero() {
    let mut window = PreviewWindow::new(640, 360, TextureFormat::Bgra8UnormSrgb);
    window.resize(0, 100);
    assert_eq!((window.width, window.height), (640, 360));
    window.resize(800, 450);
    assert_eq!((window.width, window.height), (800, 450));
}
