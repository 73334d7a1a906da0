use letras3d::application::Application;
use letras3d::types::{Color, FaceType, Position, Rotation, Scale, ShaderVertex};

fn point(x: f64, y: f64) -> Position {
    Position { x: x.to_bits(), y: y.to_bits(), z: 0.0f64.to_bits(), w: 1.0f64.to_bits() }
}

fn triangle(a: (f64, f64), b: (f64, f64), c: (f64, f64)) -> FaceType {
    (point(a.0, a.1), point(b.0, b.1), point(c.0, c.1))
}

fn white() -> Color {
    Color { red: 1.0f32.to_bits(), green: 1.0f32.to_bits(), blue: 1.0f32.to_bits() }
}

fn magenta() -> Color {
    Color { red: 1.0f32.to_bits(), green: 0.0f32.to_bits(), blue: 1.0f32.to_bits() }
}

/// Two triangles with a common edge: four vertices, five edges.
fn square() -> Vec<FaceType> {
    vec![
        triangle((0.0, 0.0), (1.0, 0.0), (1.0, 1.0)),
        triangle((0.0, 0.0), (1.0, 1.0), (0.0, 1.0)),
    ]
}

/// Two triangles without a common corner: six vertices, six edges.
fn pair() -> Vec<FaceType> {
    vec![
        triangle((0.0, 0.0), (1.0, 0.0), (0.0, 1.0)),
        triangle((5.0, 5.0), (6.0, 5.0), (5.0, 6.0)),
    ]
}

fn colors(vertices: &[ShaderVertex]) -> Vec<Color> {
    vertices.iter().map(|vertex| vertex.color).collect()
}

#[test]
fn empty_scene_selects_nothing() {
    let mut scene = Application::new();
    assert_eq!(scene.len(), 0);
    assert_eq!(scene.selected(), None);
    scene.inc_selected();
    assert_eq!(scene.selected(), None);
    scene.dec_selected();
    assert_eq!(scene.selected(), None);
    assert!(scene.vertices().is_empty());
    assert!(scene.lines_indices().is_empty());
    assert_eq!(scene.lines_indices_len(), 0);
    assert!(scene.object(0).is_none());
}

#[test]
fn single_object_is_selected_from_either_side() {
    let mut forward = Application::new();
    forward.add_object(&square());
    assert_eq!(forward.selected(), None);
    forward.inc_selected();
    assert_eq!(forward.selected(), Some(0));
    forward.inc_selected();
    assert_eq!(forward.selected(), Some(0));
    forward.dec_selected();
    assert_eq!(forward.selected(), Some(0));

    let mut backward = Application::new();
    backward.add_object(&square());
    backward.dec_selected();
    assert_eq!(backward.selected(), Some(0));
}

#[test]
fn removing_the_only_object_clears_the_selection() {
    let mut scene = Application::new();
    scene.add_object(&square());
    scene.inc_selected();
    scene.del_object(0);
    assert_eq!(scene.len(), 0);
    assert_eq!(scene.selected(), None);
    assert!(scene.vertices().is_empty());
    assert!(scene.lines_indices().is_empty());
}

#[test]
fn selection_stops_at_both_ends() {
    let mut scene = Application::new();
    scene.add_object(&square());
    scene.add_object(&pair());
    scene.add_object(&square());
    scene.inc_selected();
    assert_eq!(scene.selected(), Some(0));
    scene.inc_selected();
    assert_eq!(scene.selected(), Some(1));
    scene.inc_selected();
    assert_eq!(scene.selected(), Some(2));
    scene.inc_selected();
    assert_eq!(scene.selected(), Some(2));
    scene.dec_selected();
    assert_eq!(scene.selected(), Some(1));
    scene.dec_selected();
    scene.dec_selected();
    assert_eq!(scene.selected(), Some(0));
}

#[test]
fn removal_out_of_bounds_changes_nothing() {
    let mut scene = Application::new();
    scene.add_object(&square());
    scene.inc_selected();
    let vertices = scene.vertices().clone();
    let lines = scene.lines_indices().clone();
    scene.del_object(1);
    scene.del_object(usize::MAX);
    assert_eq!(scene.len(), 1);
    assert_eq!(scene.selected(), Some(0));
    assert_eq!(scene.vertices(), &vertices);
    assert_eq!(scene.lines_indices(), &lines);
}

#[test]
fn removing_the_last_object_moves_the_selection_down() {
    let mut scene = Application::new();
    scene.add_object(&square());
    scene.add_object(&pair());
    scene.inc_selected();
    scene.inc_selected();
    assert_eq!(scene.selected(), Some(1));
    scene.del_object(1);
    assert_eq!(scene.len(), 1);
    assert_eq!(scene.selected(), Some(0));
}

#[test]
fn removing_an_earlier_object_keeps_the_selection_valid() {
    let mut scene = Application::new();
    scene.add_object(&square());
    scene.add_object(&pair());
    scene.add_object(&square());
    scene.inc_selected();
    scene.inc_selected();
    scene.inc_selected();
    assert_eq!(scene.selected(), Some(2));
    scene.del_object(0);
    assert_eq!(scene.len(), 2);
    assert_eq!(scene.selected(), Some(1));

    scene.dec_selected();
    assert_eq!(scene.selected(), Some(0));
    scene.del_object(0);
    assert_eq!(scene.len(), 1);
    assert_eq!(scene.selected(), Some(0));
    assert_eq!(scene.object(0).map(|object| object.vertices().len()), Some(4));
}

#[test]
fn removal_without_selection_selects_nothing() {
    let mut scene = Application::new();
    scene.add_object(&square());
    scene.add_object(&pair());
    scene.del_object(0);
    assert_eq!(scene.selected(), None);
    assert_eq!(scene.len(), 1);
    assert_eq!(scene.object(0).map(|object| object.vertices().len()), Some(6));
}

#[test]
fn objects_line_up_by_insertion_index() {
    let mut scene = Application::new();
    for _ in 0..4 {
        scene.add_object(&square());
    }
    for k in 0..4 {
        let object = scene.object(k).expect("object");
        assert_eq!(object.position(), point(k as f64, 0.0));
        assert_eq!(object.faces().len(), 2);
        assert_eq!(object.extrusion(), None);
    }
    scene.del_object(1);
    scene.add_object(&pair());
    assert_eq!(scene.object(3).expect("object").position(), point(3.0, 0.0));
    assert_eq!(scene.object(1).expect("object").position(), point(2.0, 0.0));
}

#[test]
fn second_object_indices_are_offset_by_the_first_objects_vertices() {
    let mut scene = Application::new();
    scene.add_object(&square());
    scene.add_object(&pair());
    let first = scene.object(0).expect("object");
    let second = scene.object(1).expect("object");
    assert_eq!(first.get_vertices_vec().len(), 4);
    assert_eq!(second.get_vertices_vec().len(), 6);
    let first_lines = first.get_lines_indices_vec();
    let second_lines = second.get_lines_indices_vec();
    assert_eq!(first_lines, vec![0, 1, 1, 2, 2, 0, 2, 3, 3, 0]);
    assert_eq!(second_lines, vec![0, 1, 1, 2, 2, 0, 3, 4, 4, 5, 5, 3]);

    let merged = scene.lines_indices();
    assert_eq!(merged.len(), first_lines.len() + second_lines.len());
    assert_eq!(&merged[..first_lines.len()], &first_lines[..]);
    for (k, &index) in second_lines.iter().enumerate() {
        assert_eq!(merged[first_lines.len() + k], index + 4);
    }
    assert_eq!(
        merged,
        &vec![0, 1, 1, 2, 2, 0, 2, 3, 3, 0, 4, 5, 5, 6, 6, 4, 7, 8, 8, 9, 9, 7]
    );
    assert_eq!(scene.lines_indices_len(), 22);
    assert_eq!(scene.vertices().len(), 10);
    assert!(merged.iter().all(|&index| (index as usize) < scene.vertices().len()));
}

#[test]
fn merged_vertices_follow_scene_order() {
    let mut scene = Application::new();
    scene.add_object(&square());
    scene.add_object(&pair());
    let mut expected = scene.object(0).expect("object").get_vertices_vec();
    expected.extend(scene.object(1).expect("object").get_vertices_vec());
    assert_eq!(scene.vertices(), &expected);
    assert_eq!(scene.vertices()[4].local, point(0.0, 0.0));
    assert_eq!(scene.vertices()[4].placement.position, point(1.0, 0.0));
    assert_eq!(scene.vertices()[0].placement.position, point(0.0, 0.0));
}

#[test]
fn only_the_selected_object_is_magenta() {
    let mut scene = Application::new();
    scene.add_object(&square());
    scene.add_object(&pair());
    assert_eq!(colors(scene.vertices()), vec![white(); 10]);

    scene.inc_selected();
    let mut expected = vec![magenta(); 4];
    expected.extend(vec![white(); 6]);
    assert_eq!(colors(scene.vertices()), expected);
    assert_eq!(colors(&scene.object(0).expect("object").get_vertices_vec()), vec![white(); 4]);

    scene.inc_selected();
    let mut expected = vec![white(); 4];
    expected.extend(vec![magenta(); 6]);
    assert_eq!(colors(scene.vertices()), expected);

    let plain = scene.object(1).expect("object").get_vertices_vec();
    for (k, vertex) in plain.iter().enumerate() {
        assert_eq!(scene.vertices()[4 + k].local, vertex.local);
        assert_eq!(scene.vertices()[4 + k].placement, vertex.placement);
    }
}

#[test]
fn edits_reach_the_selected_object_only() {
    let mut scene = Application::new();
    scene.add_object(&square());
    scene.add_object(&pair());
    scene.inc_selected();
    scene.inc_selected();

    let position = point(7.0, 8.0);
    let rotation =
        Rotation { x: 10.0f64.to_bits(), y: 20.0f64.to_bits(), z: 30.0f64.to_bits() };
    let scale = Scale { x: 2.0f64.to_bits(), y: 2.0f64.to_bits(), z: 2.0f64.to_bits() };
    let depth = 0.5f64.to_bits();
    let front = Position { z: (-0.25f64).to_bits(), ..point(0.0, 0.0) };
    let back = Position { z: 0.25f64.to_bits(), ..point(0.0, 0.0) };
    scene.set_selected_position(position);
    scene.set_selected_rotation(rotation);
    scene.set_selected_scale(scale);
    scene.set_selected_extrusion(Some(depth));

    let edited = scene.object(1).expect("object");
    assert_eq!(edited.position(), position);
    assert_eq!(edited.rotation(), rotation);
    assert_eq!(edited.scale(), scale);
    assert_eq!(edited.extrusion(), Some(depth));
    let untouched = scene.object(0).expect("object");
    assert_eq!(untouched.position(), point(0.0, 0.0));
    assert_eq!(untouched.extrusion(), None);

    assert_eq!(scene.vertices().len(), 4 + 12);
    assert_eq!(scene.vertices()[4].placement.position, position);
    assert_eq!(scene.vertices()[4].placement.rotation, rotation);
    assert_eq!(scene.vertices()[4].placement.scale, scale);
    assert_eq!(scene.vertices()[4].local, front);
    assert_eq!(scene.vertices()[10].local, back);
    assert_eq!(scene.lines_indices().len(), 10 + 4 * 6 + 6 * 6);
    assert_eq!(&scene.lines_indices()[10..14], &[4, 5, 10, 11]);

    scene.set_selected_extrusion(None);
    assert_eq!(scene.vertices().len(), 10);
    assert_eq!(scene.lines_indices().len(), 22);
}

#[test]
fn edits_without_selection_change_nothing() {
    let mut scene = Application::new();
    scene.add_object(&square());
    let vertices = scene.vertices().clone();
    let lines = scene.lines_indices().clone();
    scene.set_selected_position(point(9.0, 9.0));
    scene.set_selected_extrusion(Some(1.0f64.to_bits()));
    scene.set_selected_scale(Scale {
        x: 3.0f64.to_bits(),
        y: 3.0f64.to_bits(),
        z: 3.0f64.to_bits(),
    });
    scene.set_selected_rotation(Rotation {
        x: 3.0f64.to_bits(),
        y: 3.0f64.to_bits(),
        z: 3.0f64.to_bits(),
    });
    assert_eq!(scene.vertices(), &vertices);
    assert_eq!(scene.lines_indices(), &lines);
}

#[test]
fn object_without_faces_adds_nothing_to_the_buffers() {
    let mut scene = Application::new();
    scene.add_object(&[]);
    scene.add_object(&square());
    assert_eq!(scene.len(), 2);
    assert_eq!(scene.vertices().len(), 4);
    assert_eq!(scene.lines_indices(), &vec![0, 1, 1, 2, 2, 0, 2, 3, 3, 0]);
}

#[test]
fn index_bytes_are_the_words_in_memory() {
    let mut scene = Application::new();
    scene.add_object(&square());
    scene.add_object(&pair());
    let bytes = scene.lines_indices_bytes();
    let words = scene.lines_indices();
    assert_eq!(bytes.len(), 4 * words.len());
    for (k, &word) in words.iter().enumerate() {
        assert_eq!(&bytes[4 * k..4 * k + 4], &word.to_ne_bytes());
    }
    assert!(Application::new().lines_indices_bytes().is_empty());
}
