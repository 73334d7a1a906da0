//! What the insertion of triangles does to the topology of an object.

use vstd::prelude::*;
use crate::laws::slots::{is_prefix, lemma_edge_slot_stable, lemma_vertex_slot_stable};
use crate::object::{
    edge_faces, edge_slot, edge_slot_from, lemma_add_face_deduplicated,
    lemma_add_face_well_formed, lemma_first_vertex, pool_with_edge, pool_with_vertex,
    vertex_slot, vertex_slot_from, Edge, Face, ObjectView, Vertex,
};
use crate::scalar::Scalar;
use crate::types::{position_eq, position_is_numeric, FaceType, Position};

verus! {

/// Inserting a triangle never shrinks or reorders the pools: the vertices and
/// edges that were there keep their indices, at most three of each are added,
/// and exactly one face is appended.
pub proof fn law_add_face_extends(model: ObjectView, face: FaceType)
    ensures
        is_prefix(model.vertices, model.add_face(face).vertices),
        model.add_face(face).vertices.len() <= model.vertices.len() + 3,
        is_prefix(model.edges, model.add_face(face).edges),
        model.add_face(face).edges.len() <= model.edges.len() + 3,
        is_prefix(model.faces, model.add_face(face).faces),
        model.add_face(face).faces.len() == model.faces.len() + 1,
        model.add_face(face).position == model.position,
        model.add_face(face).rotation == model.rotation,
        model.add_face(face).scale == model.scale,
        model.add_face(face).extrusion == model.extrusion,
{
}

/// The pools never shrink while triangles are inserted.
proof fn lemma_add_faces_grow(model: ObjectView, faces: Seq<FaceType>, fewer: nat, more: nat)
    requires
        fewer <= more,
    ensures
        model.add_faces_upto(faces, fewer).vertices.len() <= model.add_faces_upto(
            faces,
            more,
        ).vertices.len(),
        model.add_faces_upto(faces, fewer).edges.len() <= model.add_faces_upto(
            faces,
            more,
        ).edges.len(),
    decreases more - fewer,
{
    if fewer < more {
        lemma_add_faces_grow(model, faces, fewer, (more - 1) as nat);
        law_add_face_extends(model.add_faces_upto(faces, (more - 1) as nat), faces[more - 1]);
    }
}

/// Every object that is built by inserting triangles into an empty object is
/// sound: its edges name pooled vertices, its faces name pooled edges, no two
/// of its vertices are equal and no two of its edges join the same pair of
/// vertices. More generally, inserting triangles into a sound object leaves
/// it sound, as long as the pools stay within what an index can address.
pub proof fn law_insertion_keeps_objects_sound(
    model: ObjectView,
    faces: Seq<FaceType>,
    position: Position,
)
    requires
        model.well_formed(),
        model.deduplicated(),
        model.add_faces(faces).vertices.len() <= usize::MAX,
        model.add_faces(faces).edges.len() <= usize::MAX,
    ensures
        ObjectView::empty(position).well_formed(),
        ObjectView::empty(position).deduplicated(),
        model.add_faces(faces).well_formed(),
        model.add_faces(faces).deduplicated(),
{
    lemma_insertion_keeps_objects_sound(model, faces, faces.len());
}

/// Soundness after the first `count` insertions.
proof fn lemma_insertion_keeps_objects_sound(model: ObjectView, faces: Seq<FaceType>, count: nat)
    requires
        model.well_formed(),
        model.deduplicated(),
        count <= faces.len(),
        model.add_faces(faces).vertices.len() <= usize::MAX,
        model.add_faces(faces).edges.len() <= usize::MAX,
    ensures
        model.add_faces_upto(faces, count).well_formed(),
        model.add_faces_upto(faces, count).deduplicated(),
    decreases count,
{
    if count > 0 {
        lemma_insertion_keeps_objects_sound(model, faces, (count - 1) as nat);
        lemma_add_faces_grow(model, faces, count, faces.len());
        let earlier = model.add_faces_upto(faces, (count - 1) as nat);
        lemma_add_face_well_formed(earlier, faces[count - 1]);
        lemma_add_face_deduplicated(earlier, faces[count - 1]);
    }
}

/// Inserting the same triangle a second time appends a second face with the
/// same three edges and changes nothing else: the vertex pool and the edge
/// pool are those after the first insertion. This holds for triangles whose
/// coordinates are numbers; a corner with a NaN coordinate equals no vertex,
/// not even the one it created, and is pooled again on every insertion.
pub proof fn law_repeated_face(model: ObjectView, face: FaceType)
    requires
        position_is_numeric(face.0),
        position_is_numeric(face.1),
        position_is_numeric(face.2),
        model.add_face(face).vertices.len() <= usize::MAX,
    ensures
        model.add_face(face).add_face(face).vertices == model.add_face(face).vertices,
        model.add_face(face).add_face(face).edges == model.add_face(face).edges,
        model.add_face(face).add_face(face).faces == model.add_face(face).faces.push(
            model.add_face(face).faces.last(),
        ),
        model.add_face(face).add_face(face).faces.len() == model.faces.len() + 2,
{
    let v0 = vertex_slot(model.vertices, face.0);
    let pool0 = pool_with_vertex(model.vertices, face.0);
    let v1 = vertex_slot(pool0, face.1);
    let pool1 = pool_with_vertex(pool0, face.1);
    let v2 = vertex_slot(pool1, face.2);
    let pool2 = pool_with_vertex(pool1, face.2);
    let e0 = edge_slot(model.edges, v0, v1);
    let edges0 = pool_with_edge(model.edges, v0, v1);
    let e1 = edge_slot(edges0, v1, v2);
    let edges1 = pool_with_edge(edges0, v1, v2);
    let e2 = edge_slot(edges1, v2, v0);
    let edges2 = pool_with_edge(edges1, v2, v0);
    let once = model.add_face(face);
    assert(once.vertices == pool2);
    assert(once.edges == edges2);

    lemma_first_vertex(model.vertices, face.0, 0);
    lemma_first_vertex(pool0, face.1, 0);
    lemma_first_vertex(pool1, face.2, 0);
    lemma_vertex_slot_stable(model.vertices, face.0, pool2);
    lemma_vertex_slot_stable(pool0, face.1, pool2);
    lemma_vertex_slot_stable(pool1, face.2, pool2);

    lemma_edge_slot_stable(model.edges, v0, v1, edges2);
    lemma_edge_slot_stable(edges0, v1, v2, edges2);
    lemma_edge_slot_stable(edges1, v2, v0, edges2);
}

/// The three corners are numbers and no two of them are equal.
pub open spec fn is_proper_triangle(face: FaceType) -> bool {
    &&& position_is_numeric(face.0)
    &&& position_is_numeric(face.1)
    &&& position_is_numeric(face.2)
    &&& !position_eq(face.0, face.1)
    &&& !position_eq(face.1, face.2)
    &&& !position_eq(face.2, face.0)
}

/// A single triangle with three different corners makes three vertices, the
/// three edges between them in winding order and one face. Every edge is a
/// boundary edge. Flat, the object draws its three edges. Extruded, it draws
/// for each edge the front segment, the back segment and the three segments
/// of the side wall: fifteen segments in all, nine of them side walls.
pub proof fn law_single_triangle(position: Position, face: FaceType, depth: Scalar)
    requires
        is_proper_triangle(face),
    ensures
        ({
            let flat = ObjectView::empty(position).add_face(face);
            let solid = ObjectView { extrusion: Some(depth), ..flat };
            &&& flat.vertices == seq![
                Vertex { position: face.0 },
                Vertex { position: face.1 },
                Vertex { position: face.2 },
            ]
            &&& flat.edges == seq![
                Edge { origin_vertex: 0, destination_vertex: 1 },
                Edge { origin_vertex: 1, destination_vertex: 2 },
                Edge { origin_vertex: 2, destination_vertex: 0 },
            ]
            &&& flat.faces == seq![Face { start_edge: 0, middle_edge: 1, end_edge: 2 }]
            &&& flat.is_boundary(0) && flat.is_boundary(1) && flat.is_boundary(2)
            &&& flat.line_indices() == seq![0u32, 1, 1, 2, 2, 0]
            &&& flat.triangle_indices() == seq![0u32, 1, 2]
            &&& solid.line_indices() == seq![
                0u32, 1, 3, 4, 0, 3, 1, 4, 0, 4,
                1, 2, 4, 5, 1, 4, 2, 5, 1, 5,
                2, 0, 5, 3, 2, 5, 0, 3, 2, 3,
            ]
        }),
{
    let flat = ObjectView::empty(position).add_face(face);
    let solid = ObjectView { extrusion: Some(depth), ..flat };
    reveal_with_fuel(vertex_slot_from, 4);
    reveal_with_fuel(edge_slot_from, 4);
    assert(flat.vertices =~= seq![
        Vertex { position: face.0 },
        Vertex { position: face.1 },
        Vertex { position: face.2 },
    ]);
    assert(flat.edges =~= seq![
        Edge { origin_vertex: 0, destination_vertex: 1 },
        Edge { origin_vertex: 1, destination_vertex: 2 },
        Edge { origin_vertex: 2, destination_vertex: 0 },
    ]);
    assert(flat.faces =~= seq![Face { start_edge: 0, middle_edge: 1, end_edge: 2 }]);
    assert(flat.is_boundary(0) && flat.is_boundary(1) && flat.is_boundary(2)) by {
        reveal_with_fuel(edge_faces, 2);
        assert(flat.faces.drop_last() =~= Seq::<Face>::empty());
    }
    assert(solid.is_boundary(0) && solid.is_boundary(1) && solid.is_boundary(2));
    reveal_with_fuel(ObjectView::line_indices_upto, 4);
    reveal_with_fuel(ObjectView::triangle_indices_upto, 2);
    assert(flat.line_indices() =~= seq![0u32, 1, 1, 2, 2, 0]);
    assert(flat.triangle_indices() =~= seq![0u32, 1, 2]);
    assert(solid.line_indices() =~= seq![
        0u32, 1, 3, 4, 0, 3, 1, 4, 0, 4,
        1, 2, 4, 5, 1, 4, 2, 5, 1, 5,
        2, 0, 5, 3, 2, 5, 0, 3, 2, 3,
    ]);
}

/// The point equals one of the corners of the triangle.
pub open spec fn is_corner_of(p: Position, face: FaceType) -> bool {
    position_eq(p, face.0) || position_eq(p, face.1) || position_eq(p, face.2)
}

/// The two triangles have exactly one edge in common: two corners of the
/// second are corners of the first, and its third corner is not.
pub open spec fn share_one_edge(first: FaceType, second: FaceType) -> bool {
    ||| is_corner_of(second.0, first) && is_corner_of(second.1, first) && !is_corner_of(
        second.2,
        first,
    )
    ||| is_corner_of(second.1, first) && is_corner_of(second.2, first) && !is_corner_of(
        second.0,
        first,
    )
    ||| is_corner_of(second.2, first) && is_corner_of(second.0, first) && !is_corner_of(
        second.1,
        first,
    )
}

/// Two triangles with one edge in common make four vertices, five edges and
/// two faces. The common edge is pooled once and both faces refer to it; each
/// of the other four edges belongs to one face only.
pub proof fn law_shared_edge(position: Position, first: FaceType, second: FaceType)
    requires
        is_proper_triangle(first),
        is_proper_triangle(second),
        share_one_edge(first, second),
    ensures
        ({
            let model = ObjectView::empty(position).add_face(first).add_face(second);
            &&& model.vertices.len() == 4
            &&& model.edges.len() == 5
            &&& model.faces.len() == 2
            &&& exists|shared: int|
                0 <= shared < 3 && model.edge_faces(shared) == 2 && forall|other: int|
                    0 <= other < 5 && other != shared ==> #[trigger] model.edge_faces(other) == 1
        }),
{
    let once = ObjectView::empty(position).add_face(first);
    law_single_triangle(position, first, 0);
    let model = once.add_face(second);
    reveal_with_fuel(vertex_slot_from, 5);
    reveal_with_fuel(edge_slot_from, 6);
    let v0 = vertex_slot(once.vertices, second.0);
    let pool0 = pool_with_vertex(once.vertices, second.0);
    let v1 = vertex_slot(pool0, second.1);
    let pool1 = pool_with_vertex(pool0, second.1);
    let v2 = vertex_slot(pool1, second.2);
    let pool2 = pool_with_vertex(pool1, second.2);
    assert(0 <= v0 <= 3 && 0 <= v1 <= 3 && 0 <= v2 <= 3);
    assert(v0 != v1 && v1 != v2 && v2 != v0);
    assert(pool2.len() == 4);
    assert(v0 == 3 || v1 == 3 || v2 == 3);
    let e0 = edge_slot(once.edges, v0, v1);
    let edges0 = pool_with_edge(once.edges, v0, v1);
    let e1 = edge_slot(edges0, v1, v2);
    let edges1 = pool_with_edge(edges0, v1, v2);
    let e2 = edge_slot(edges1, v2, v0);
    let edges2 = pool_with_edge(edges1, v2, v0);
    assert(edges2.len() == 5);
    assert(model.edges.len() == 5);
    reveal_with_fuel(edge_faces, 3);
    assert(model.faces.drop_last() =~= once.faces);
    assert(once.faces.drop_last() =~= Seq::<Face>::empty());
    let shared = if v2 == 3 {
        e0
    } else if v0 == 3 {
        e1
    } else {
        e2
    };
    assert(0 <= shared < 3);
    assert(model.edge_faces(shared) == 2);
    assert forall|other: int| 0 <= other < 5 && other != shared implies #[trigger] model.edge_faces(
        other,
    ) == 1 by {}
}

} // verus!
