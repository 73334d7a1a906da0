use letras3d::object::Object;
use letras3d::types::{Color, FaceType, Placement, Position, Rotation, Scale, ShaderVertex};

fn point(x: f64, y: f64, z: f64) -> Position {
    Position { x: x.to_bits(), y: y.to_bits(), z: z.to_bits(), w: 1.0f64.to_bits() }
}

fn triangle(a: (f64, f64), b: (f64, f64), c: (f64, f64)) -> FaceType {
    (point(a.0, a.1, 0.0), point(b.0, b.1, 0.0), point(c.0, c.1, 0.0))
}

fn white() -> Color {
    Color { red: 1.0f32.to_bits(), green: 1.0f32.to_bits(), blue: 1.0f32.to_bits() }
}

fn default_placement(position: Position) -> Placement {
    Placement {
        position,
        rotation: Rotation { x: 0.0f64.to_bits(), y: 0.0f64.to_bits(), z: 0.0f64.to_bits() },
        scale: Scale { x: 1.0f64.to_bits(), y: 1.0f64.to_bits(), z: 1.0f64.to_bits() },
    }
}

fn one_triangle() -> Object {
    let mut object = Object::new(point(2.0, 3.0, 4.0));
    object.add_face(triangle((0.0, 0.0), (1.0, 0.0), (0.0, 1.0)));
    object
}

#[test]
fn new_object_has_the_default_transform() {
    let object = Object::new(point(2.0, 3.0, 4.0));
    assert_eq!(object.position(), point(2.0, 3.0, 4.0));
    assert_eq!(object.rotation().x, 0.0f64.to_bits());
    assert_eq!(object.rotation().y, 0.0f64.to_bits());
    assert_eq!(object.rotation().z, 0.0f64.to_bits());
    assert_eq!(object.scale().x, 1.0f64.to_bits());
    assert_eq!(object.scale().y, 1.0f64.to_bits());
    assert_eq!(object.scale().z, 1.0f64.to_bits());
    assert_eq!(object.extrusion(), None);
}

#[test]
fn flat_triangle_shows_its_points_as_authored() {
    let object = one_triangle();
    let placement = default_placement(point(2.0, 3.0, 4.0));
    let expected: Vec<ShaderVertex> = [(0.0, 0.0), (1.0, 0.0), (0.0, 1.0)]
        .iter()
        .map(|&(x, y)| ShaderVertex { local: point(x, y, 0.0), placement, color: white() })
        .collect();
    assert_eq!(object.get_vertices_vec(), expected);
    assert_eq!(object.get_lines_indices_vec(), vec![0, 1, 1, 2, 2, 0]);
    assert_eq!(object.get_triangles_indices_vec(), vec![0, 1, 2]);
}

#[test]
fn extruded_triangle_has_front_copies_then_back_copies() {
    let mut object = Object::new(point(2.0, 3.0, 4.0));
    object.add_face((point(0.0, 0.0, 9.0), point(1.0, 0.0, 9.0), point(0.0, 1.0, 9.0)));
    let depth = 0.5f64;
    object.set_extrusion(Some(depth.to_bits()));
    assert_eq!(object.extrusion(), Some(depth.to_bits()));
    let vertices = object.get_vertices_vec();
    assert_eq!(vertices.len(), 6);
    let corners = [(0.0f64, 0.0f64), (1.0, 0.0), (0.0, 1.0)];
    for (k, &(x, y)) in corners.iter().enumerate() {
        assert_eq!(vertices[k].local, point(x, y, -depth / 2.0));
        assert_eq!(vertices[k].local, point(x, y, -0.25));
        assert_eq!(vertices[k + 3].local, point(x, y, depth / 2.0));
        assert_eq!(vertices[k + 3].local, point(x, y, 0.25));
    }
    for vertex in &vertices {
        assert_eq!(vertex.color, white());
        assert_eq!(vertex.placement, default_placement(point(2.0, 3.0, 4.0)));
    }
}

#[test]
fn extruded_triangle_draws_nine_side_wall_segments() {
    let mut object = one_triangle();
    let flat_lines = object.get_lines_indices_vec();
    object.set_extrusion(Some(2.0f64.to_bits()));
    for k in 0..3 {
        assert!(object.is_boundary_edge(k));
    }
    let lines = object.get_lines_indices_vec();
    let front_segments = flat_lines.len() / 2;
    let back_segments = front_segments;
    assert_eq!(front_segments, 3);
    assert_eq!(lines.len() / 2 - front_segments - back_segments, 9);
    assert_eq!(lines.len(), 2 * (3 + 3 + 9));
    assert_eq!(
        lines,
        vec![
            0, 1, 3, 4, 0, 3, 1, 4, 0, 4, //
            1, 2, 4, 5, 1, 4, 2, 5, 1, 5, //
            2, 0, 5, 3, 2, 5, 0, 3, 2, 3,
        ]
    );
    assert_eq!(object.get_triangles_indices_vec(), vec![0, 1, 2]);
}

#[test]
fn interior_edge_gets_no_side_wall() {
    let mut object = Object::new(point(0.0, 0.0, 0.0));
    object.add_face(triangle((-0.3, 0.3), (-0.1, 0.5), (-0.3, 0.5)));
    object.add_face(triangle((-0.3, 0.3), (-0.1, 0.5), (-0.1, 0.3)));
    object.set_extrusion(Some(1.0f64.to_bits()));
    let lines = object.get_lines_indices_vec();
    assert_eq!(lines.len(), 4 * 5 + 6 * 4);
    assert_eq!(&lines[0..4], &[0, 1, 4, 5]);
    assert_eq!(&lines[4..14], &[1, 2, 5, 6, 1, 5, 2, 6, 1, 6]);
    assert_eq!(object.get_vertices_vec().len(), 8);
    let limit = object.get_vertices_vec().len() as u32;
    assert!(lines.iter().all(|&index| index < limit));
}

#[test]
fn clearing_the_extrusion_restores_the_buffers() {
    let mut object = Object::new(point(1.0, 0.0, 0.0));
    object.add_face(triangle((-0.3, 0.3), (-0.1, 0.5), (-0.3, 0.5)));
    object.add_face(triangle((-0.3, 0.3), (-0.1, 0.5), (-0.1, 0.3)));
    let vertices = object.get_vertices_vec();
    let lines = object.get_lines_indices_vec();
    let triangles = object.get_triangles_indices_vec();
    object.set_extrusion(Some(0.25f64.to_bits()));
    assert_ne!(object.get_vertices_vec(), vertices);
    assert_ne!(object.get_lines_indices_vec(), lines);
    object.set_extrusion(None);
    assert_eq!(object.get_vertices_vec(), vertices);
    assert_eq!(object.get_lines_indices_vec(), lines);
    assert_eq!(object.get_triangles_indices_vec(), triangles);
}

#[test]
fn setters_change_the_placement_of_every_vertex() {
    let mut object = one_triangle();
    let position = point(5.0, 0.0, 0.0);
    let rotation =
        Rotation { x: 0.0f64.to_bits(), y: 0.0f64.to_bits(), z: 90.0f64.to_bits() };
    let scale = Scale { x: 2.0f64.to_bits(), y: 3.0f64.to_bits(), z: 4.0f64.to_bits() };
    object.set_position(position);
    object.set_rotation(rotation);
    object.set_scale(scale);
    assert_eq!(object.position(), position);
    assert_eq!(object.rotation(), rotation);
    assert_eq!(object.scale(), scale);
    let vertices = object.get_vertices_vec();
    assert_eq!(vertices.len(), 3);
    for vertex in &vertices {
        assert_eq!(vertex.placement, Placement { position, rotation, scale });
    }
    assert_eq!(vertices[1].local, point(1.0, 0.0, 0.0));
    assert_eq!(object.vertices().len(), 3);
    assert_eq!(object.get_lines_indices_vec(), vec![0, 1, 1, 2, 2, 0]);
}

#[test]
fn authored_depth_is_kept_when_flat() {
    let mut object = Object::new(point(0.0, 0.0, 0.0));
    let lifted = point(0.0, 0.0, 7.0);
    object.add_face((lifted, point(1.0, 0.0, 7.0), point(0.0, 1.0, 7.0)));
    assert_eq!(object.get_vertices_vec()[0].local, lifted);
}

#[test]
fn authored_homogeneous_coordinate_is_replaced_when_extruded() {
    let mut object = Object::new(point(0.0, 0.0, 0.0));
    let odd = Position {
        x: 1.0f64.to_bits(),
        y: 2.0f64.to_bits(),
        z: 3.0f64.to_bits(),
        w: 4.0f64.to_bits(),
    };
    object.add_face((odd, point(1.0, 0.0, 0.0), point(0.0, 1.0, 0.0)));
    assert_eq!(object.get_vertices_vec()[0].local, odd);
    object.set_extrusion(Some(3.0f64.to_bits()));
    assert_eq!(object.get_vertices_vec()[0].local, point(1.0, 2.0, -1.5));
    assert_eq!(object.get_vertices_vec()[3].local, point(1.0, 2.0, 1.5));
    assert_eq!(object.vertices()[0].position, odd);
}

#[test]
fn zero_depth_keeps_the_signs_of_its_halves() {
    let mut object = one_triangle();
    object.set_extrusion(Some(0.0f64.to_bits()));
    let vertices = object.get_vertices_vec();
    assert_eq!(vertices[0].local.z, (-0.0f64).to_bits());
    assert_eq!(vertices[3].local.z, 0.0f64.to_bits());
    assert_eq!(object.get_lines_indices_vec().len(), 30);
}

fn apply(step: &letras3d::types::TransformStep, p: [f64; 3]) -> [f64; 3] {
    let turn = |degrees: u64| {
        let radians = f64::from_bits(degrees) * std::f64::consts::PI / 180.0;
        (radians.sin(), radians.cos())
    };
    match *step {
        letras3d::types::TransformStep::RotateX(degrees) => {
            let (s, c) = turn(degrees);
            [p[0], c * p[1] - s * p[2], s * p[1] + c * p[2]]
        }
        letras3d::types::TransformStep::RotateY(degrees) => {
            let (s, c) = turn(degrees);
            [c * p[0] + s * p[2], p[1], -s * p[0] + c * p[2]]
        }
        letras3d::types::TransformStep::RotateZ(degrees) => {
            let (s, c) = turn(degrees);
            [c * p[0] - s * p[1], s * p[0] + c * p[1], p[2]]
        }
        letras3d::types::TransformStep::Scale(scale) => [
            f64::from_bits(scale.x) * p[0],
            f64::from_bits(scale.y) * p[1],
            f64::from_bits(scale.z) * p[2],
        ],
        letras3d::types::TransformStep::Translate(by) => [
            p[0] + f64::from_bits(by.x),
            p[1] + f64::from_bits(by.y),
            p[2] + f64::from_bits(by.z),
        ],
    }
}

#[test]
fn pipeline_lists_rotations_then_scale_then_translation() {
    let placement = Placement {
        position: point(5.0, 6.0, 7.0),
        rotation: Rotation { x: 10.0f64.to_bits(), y: 20.0f64.to_bits(), z: 30.0f64.to_bits() },
        scale: Scale { x: 2.0f64.to_bits(), y: 3.0f64.to_bits(), z: 4.0f64.to_bits() },
    };
    assert_eq!(
        placement.steps(),
        [
            letras3d::types::TransformStep::RotateX(10.0f64.to_bits()),
            letras3d::types::TransformStep::RotateY(20.0f64.to_bits()),
            letras3d::types::TransformStep::RotateZ(30.0f64.to_bits()),
            letras3d::types::TransformStep::Scale(placement.scale),
            letras3d::types::TransformStep::Translate(placement.position),
        ]
    );
}

#[test]
fn rotation_is_applied_before_translation() {
    let mut object = Object::new(point(0.0, 0.0, 0.0));
    object.add_face(triangle((1.0, 0.0), (0.0, 1.0), (0.0, 0.0)));
    object.set_rotation(Rotation {
        x: 0.0f64.to_bits(),
        y: 0.0f64.to_bits(),
        z: 90.0f64.to_bits(),
    });
    object.set_position(point(5.0, 0.0, 0.0));
    let vertex = object.get_vertices_vec()[0];
    assert_eq!(vertex.local, point(1.0, 0.0, 0.0));
    let mut world = [
        f64::from_bits(vertex.local.x),
        f64::from_bits(vertex.local.y),
        f64::from_bits(vertex.local.z),
    ];
    for step in &vertex.placement.steps() {
        world = apply(step, world);
    }
    assert!((world[0] - 5.0).abs() < 1e-12);
    assert!((world[1] - 1.0).abs() < 1e-12);
    assert!(world[2].abs() < 1e-12);
}

#[test]
fn scale_is_applied_before_translation() {
    let placement = Placement {
        position: point(1.0, 1.0, 1.0),
        rotation: Rotation { x: 0.0f64.to_bits(), y: 0.0f64.to_bits(), z: 0.0f64.to_bits() },
        scale: Scale { x: 2.0f64.to_bits(), y: 3.0f64.to_bits(), z: 4.0f64.to_bits() },
    };
    let mut world = [1.0, 1.0, 1.0];
    for step in &placement.steps() {
        world = apply(step, world);
    }
    assert_eq!(world, [3.0, 4.0, 5.0]);
}
