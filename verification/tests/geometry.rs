use vibevj::mesh::Mesh;
use vibevj::mesh_gen::create_cube;
use vibevj::mesh_gen::create_cylinder;
use vibevj::mesh_gen::create_plane;
use vibevj::mesh_gen::create_sphere;

fn bits(x: f32) -> u32 {
    x.to_bits()
}

fn val(b: u32) -> f32 {
    f32::from_bits(b)
}

#[test]
fn cube_has_24_vertices_and_36_indices() {
    let mesh = create_cube(bits(1.0));
    assert_eq!(mesh.vertices.len(), 24);
    assert_eq!(mesh.indices.len(), 36);
}

#[test]
fn cube_front_face_corners_at_half_extent() {
    let mesh = create_cube(bits(1.0));
    let h = bits(0.5);
    let n = bits(-0.5);
    assert_eq!(mesh.vertices[0].position, [n, n, h]);
    assert_eq!(mesh.vertices[1].position, [h, n, h]);
    assert_eq!(mesh.vertices[2].position, [h, h, h]);
    assert_eq!(mesh.vertices[3].position, [n, h, h]);
    for k in 0..4 {
        assert_eq!(mesh.vertices[k].normal, [0, 0, bits(1.0)]);
    }
}

#[test]
fn cube_indices_address_vertices() {
    let mesh = create_cube(bits(2.0));
    for &i in &mesh.indices {
        assert!((i as usize) < mesh.vertices.len());
    }
    assert_eq!(
        mesh.indices,
        vec![
            0, 1, 2, 2, 3, 0, 4, 5, 6, 6, 7, 4, 8, 9, 10, 10, 11, 8, 12, 13, 14, 14, 15, 12, 16,
            17, 18, 18, 19, 16, 20, 21, 22, 22, 23, 20,
        ]
    );
}

#[test]
fn cube_triangles_wind_counter_clockwise() {
    let mesh = create_cube(bits(1.0));
    for t in 0..12 {
        let a = mesh.vertices[mesh.indices[3 * t] as usize];
        let b = mesh.vertices[mesh.indices[3 * t + 1] as usize];
        let c = mesh.vertices[mesh.indices[3 * t + 2] as usize];
        let pa = glam::Vec3::new(val(a.position[0]), val(a.position[1]), val(a.position[2]));
        let pb = glam::Vec3::new(val(b.position[0]), val(b.position[1]), val(b.position[2]));
        let pc = glam::Vec3::new(val(c.position[0]), val(c.position[1]), val(c.position[2]));
        let normal = glam::Vec3::new(val(a.normal[0]), val(a.normal[1]), val(a.normal[2]));
        let cross = (pb - pa).cross(pc - pa);
        assert!(
            cross.dot(normal) > 0.0,
            "triangle {} winds clockwise when seen along its outward normal",
            t
        );
    }
}

#[test]
fn sphere_counts_and_index_bounds() {
    let mesh = create_sphere(bits(1.0), 8, 4);
    assert_eq!(mesh.vertices.len(), 9 * 5);
    assert_eq!(mesh.indices.len(), 6 * 8 * 4);
    for &i in &mesh.indices {
        assert!((i as usize) < mesh.vertices.len());
    }
}

#[test]
fn sphere_vertices_match_trigonometry() {
    let radius = 0.8f32;
    let segments = 8u32;
    let rings = 4u32;
    let mesh = create_sphere(bits(radius), segments, rings);
    for ring in 0..=rings {
        let phi = std::f32::consts::PI * ring as f32 / rings as f32;
        let cs_phi = glam::Vec2::from_angle(phi);
        for seg in 0..=segments {
            let theta = 2.0 * std::f32::consts::PI * seg as f32 / segments as f32;
            let cs_theta = glam::Vec2::from_angle(theta);
            let x = cs_phi.y * cs_theta.x;
            let y = cs_phi.x;
            let z = cs_phi.y * cs_theta.y;
            let v = &mesh.vertices[(ring * (segments + 1) + seg) as usize];
            assert_eq!(v.normal, [bits(x), bits(y), bits(z)]);
            assert_eq!(v.position, [bits(x * radius), bits(y * radius), bits(z * radius)]);
        }
    }
}

#[test]
fn plane_counts_positions_and_bounds() {
    let mesh = create_plane(bits(2.0), bits(1.0), 2, 3);
    assert_eq!(mesh.vertices.len(), 3 * 4);
    assert_eq!(mesh.indices.len(), 6 * 2 * 3);
    for &i in &mesh.indices {
        assert!((i as usize) < mesh.vertices.len());
    }
    let u = 1.0f32 / 2.0;
    let px = -(2.0f32 / 2.0) + 2.0 * u;
    let v = 2.0f32 / 3.0;
    let py = -(1.0f32 / 2.0) + 1.0 * v;
    let vertex = &mesh.vertices[(2 * 3 + 1) as usize];
    assert_eq!(vertex.position, [bits(px), bits(py), 0]);
    assert_eq!(vertex.uv, [bits(u), bits(v)]);
}

#[test]
fn cylinder_counts_caps_and_bounds() {
    let height = 2.0f32;
    let mesh = create_cylinder(bits(0.5), bits(height), 6);
    assert_eq!(mesh.vertices.len(), 2 * 7 + 2);
    assert_eq!(mesh.indices.len(), 6 * 6);
    for &i in &mesh.indices {
        assert!((i as usize) < mesh.vertices.len());
    }
    let bottom = &mesh.vertices[14];
    let top = &mesh.vertices[15];
    assert_eq!(bottom.position, [0, bits(-height / 2.0), 0]);
    assert_eq!(bottom.normal, [0, bits(-1.0), 0]);
    assert_eq!(top.position, [0, bits(height / 2.0), 0]);
    assert_eq!(top.normal, [0, bits(1.0), 0]);
}

#[test]
fn quad_mesh_spans_unit_square() {
    let mesh = Mesh::quad();
    assert_eq!(mesh.vertices.len(), 4);
    assert_eq!(mesh.indices, vec![0, 1, 2, 2, 3, 0]);
    assert_eq!(mesh.vertices[0].position, [bits(-1.0), bits(-1.0), 0]);
    assert_eq!(mesh.vertices[2].position, [bits(1.0), bits(1.0), 0]);
}

#[test]
fn mesh_upload_copies_vertex_words() {
    let mut mesh = Mesh::cube();
    assert!(mesh.vertex_buffer.is_none());
    mesh.upload();
    let vb = mesh.vertex_buffer.as_ref().unwrap();
    assert_eq!(vb.len(), mesh.vertices.len() * 11);
    assert_eq!(vb[0], mesh.vertices[0].position[0]);
    assert_eq!(vb[11], mesh.vertices[1].position[0]);
    assert_eq!(mesh.index_buffer.as_ref().unwrap(), &mesh.indices);
}
