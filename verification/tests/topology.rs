use letras3d::object::{Edge, Face, Object};
use letras3d::types::{FaceType, Position};

fn point(x: f64, y: f64) -> Position {
    Position { x: x.to_bits(), y: y.to_bits(), z: 0.0f64.to_bits(), w: 1.0f64.to_bits() }
}

fn triangle(a: (f64, f64), b: (f64, f64), c: (f64, f64)) -> FaceType {
    (point(a.0, a.1), point(b.0, b.1), point(c.0, c.1))
}

fn edge(origin_vertex: usize, destination_vertex: usize) -> Edge {
    Edge { origin_vertex, destination_vertex }
}

fn origin() -> Position {
    point(0.0, 0.0)
}

#[test]
fn new_object_is_empty() {
    let object = Object::new(origin());
    assert!(object.vertices().is_empty());
    assert!(object.edges().is_empty());
    assert!(object.faces().is_empty());
    assert!(object.get_vertices_vec().is_empty());
    assert!(object.get_lines_indices_vec().is_empty());
    assert!(object.get_triangles_indices_vec().is_empty());
}

#[test]
fn single_triangle_has_three_vertices_and_edges() {
    let mut object = Object::new(origin());
    object.add_face(triangle((0.0, 0.0), (1.0, 0.0), (0.0, 1.0)));
    assert_eq!(object.vertices().len(), 3);
    assert_eq!(object.vertices()[0].position, point(0.0, 0.0));
    assert_eq!(object.vertices()[1].position, point(1.0, 0.0));
    assert_eq!(object.vertices()[2].position, point(0.0, 1.0));
    assert_eq!(object.edges(), &vec![edge(0, 1), edge(1, 2), edge(2, 0)]);
    assert_eq!(object.faces(), &vec![Face { start_edge: 0, middle_edge: 1, end_edge: 2 }]);
}

#[test]
fn same_triangle_twice_adds_only_a_face() {
    let face = triangle((-0.3, 0.3), (-0.1, 0.5), (-0.3, 0.5));
    let mut once = Object::new(origin());
    once.add_face(face);
    let mut twice = Object::new(origin());
    twice.add_face(face);
    twice.add_face(face);
    assert_eq!(twice.faces().len(), 2);
    assert_eq!(twice.vertices(), once.vertices());
    assert_eq!(twice.edges(), once.edges());
    assert!(twice.vertices().len() <= 3);
    assert!(twice.edges().len() <= 3);
    assert_eq!(twice.faces()[0], twice.faces()[1]);
}

#[test]
fn same_triangle_in_another_winding_reuses_the_edges() {
    let mut object = Object::new(origin());
    object.add_face(triangle((0.0, 0.0), (1.0, 0.0), (0.0, 1.0)));
    object.add_face(triangle((0.0, 1.0), (1.0, 0.0), (0.0, 0.0)));
    assert_eq!(object.vertices().len(), 3);
    assert_eq!(object.edges().len(), 3);
    assert_eq!(object.faces()[1], Face { start_edge: 1, middle_edge: 0, end_edge: 2 });
}

#[test]
fn triangles_sharing_an_edge_pool_it_once() {
    let mut object = Object::new(origin());
    object.add_face(triangle((-0.3, 0.3), (-0.1, 0.5), (-0.3, 0.5)));
    object.add_face(triangle((-0.3, 0.3), (-0.1, 0.5), (-0.1, 0.3)));
    assert_eq!(object.vertices().len(), 4);
    assert_eq!(object.edges().len(), 5);
    assert_eq!(object.faces().len(), 2);
    assert_eq!(
        object.edges(),
        &vec![edge(0, 1), edge(1, 2), edge(2, 0), edge(1, 3), edge(3, 0)]
    );
    assert_eq!(object.faces()[1], Face { start_edge: 0, middle_edge: 3, end_edge: 4 });
    assert!(!object.is_boundary_edge(0));
    assert!(object.is_boundary_edge(1));
    assert!(object.is_boundary_edge(2));
    assert!(object.is_boundary_edge(3));
    assert!(object.is_boundary_edge(4));
    assert!(!object.is_boundary_edge(5));
}

#[test]
fn disjoint_triangles_share_nothing() {
    let mut object = Object::new(origin());
    object.add_face(triangle((0.0, 0.0), (1.0, 0.0), (0.0, 1.0)));
    object.add_face(triangle((5.0, 5.0), (6.0, 5.0), (5.0, 6.0)));
    assert_eq!(object.vertices().len(), 6);
    assert_eq!(object.edges().len(), 6);
    assert_eq!(object.get_triangles_indices_vec(), vec![0, 1, 2, 3, 4, 5]);
}

#[test]
fn points_that_differ_in_the_last_bit_are_different_vertices() {
    let near = f64::from_bits(1.0f64.to_bits() + 1);
    let mut object = Object::new(origin());
    object.add_face(triangle((1.0, 0.0), (near, 0.0), (0.0, 1.0)));
    assert_eq!(object.vertices().len(), 3);
    assert_eq!(object.edges().len(), 3);
}

#[test]
fn zeros_of_either_sign_are_one_vertex() {
    let mut object = Object::new(origin());
    object.add_face(triangle((0.0, 0.0), (1.0, 0.0), (0.0, 1.0)));
    object.add_face(triangle((-0.0, -0.0), (1.0, 0.0), (0.0, 1.0)));
    assert_eq!(object.vertices().len(), 3);
    assert_eq!(object.edges().len(), 3);
    assert_eq!(object.vertices()[0].position, point(0.0, 0.0));
}

#[test]
fn a_corner_that_is_not_a_number_is_pooled_every_time() {
    let face = triangle((f64::NAN, 0.0), (1.0, 0.0), (0.0, 1.0));
    let mut object = Object::new(origin());
    object.add_face(face);
    assert_eq!(object.vertices().len(), 3);
    assert_eq!(object.edges().len(), 3);
    object.add_face(face);
    assert_eq!(object.vertices().len(), 4);
    assert_eq!(object.edges().len(), 5);
    assert_eq!(object.faces().len(), 2);
}

#[test]
fn repeated_corners_are_accepted() {
    let mut object = Object::new(origin());
    object.add_face(triangle((0.0, 0.0), (0.0, 0.0), (1.0, 0.0)));
    assert_eq!(object.vertices().len(), 2);
    assert_eq!(object.edges(), &vec![edge(0, 0), edge(0, 1)]);
    assert_eq!(object.faces(), &vec![Face { start_edge: 0, middle_edge: 1, end_edge: 1 }]);
    assert!(object.is_boundary_edge(0));
    assert!(object.is_boundary_edge(1));
    assert_eq!(object.get_triangles_indices_vec(), vec![0, 0, 0]);
    object.add_face(triangle((1.0, 0.0), (0.0, 0.0), (3.0, 3.0)));
    assert!(object.is_boundary_edge(0));
    assert!(!object.is_boundary_edge(1));
    assert!(object.is_boundary_edge(2));

    let mut dot = Object::new(origin());
    dot.add_face(triangle((2.0, 2.0), (2.0, 2.0), (2.0, 2.0)));
    assert_eq!(dot.vertices().len(), 1);
    assert_eq!(dot.edges(), &vec![edge(0, 0)]);
    assert_eq!(dot.faces(), &vec![Face { start_edge: 0, middle_edge: 0, end_edge: 0 }]);
    assert!(dot.is_boundary_edge(0));
    dot.add_face(triangle((2.0, 2.0), (2.0, 2.0), (2.0, 2.0)));
    assert!(!dot.is_boundary_edge(0));
    assert_eq!(dot.edges().len(), 1);
}

#[test]
fn letter_l_is_pooled_from_its_six_triangles() {
    let a = (-0.3, 0.5);
    let b = (-0.3, -0.3);
    let c = (-0.1, -0.3);
    let d = (-0.1, 0.5);
    let e = (-0.3, -0.5);
    let f = (-0.1, -0.5);
    let g = (0.3, -0.3);
    let h = (0.3, -0.5);
    let faces = [
        triangle(a, b, c),
        triangle(a, c, d),
        triangle(c, e, b),
        triangle(c, e, f),
        triangle(c, f, h),
        triangle(c, h, g),
    ];
    let mut object = Object::new(origin());
    for face in faces {
        object.add_face(face);
    }
    assert_eq!(object.faces().len(), 6);
    assert_eq!(object.vertices().len(), 8);
    assert_eq!(
        object.edges(),
        &vec![
            edge(0, 1),
            edge(1, 2),
            edge(2, 0),
            edge(2, 3),
            edge(3, 0),
            edge(2, 4),
            edge(4, 1),
            edge(4, 5),
            edge(5, 2),
            edge(5, 6),
            edge(6, 2),
            edge(6, 7),
            edge(7, 2),
        ]
    );
    let boundary: Vec<usize> = (0..13).filter(|&k| object.is_boundary_edge(k)).collect();
    assert_eq!(boundary, vec![0, 3, 4, 6, 7, 9, 11, 12]);
}
