//! What the render buffers of an object hold.

use vstd::prelude::*;
use crate::object::ObjectView;
use crate::scalar::Scalar;
use crate::types::index32;

verus! {

/// Extruding a flat object and then clearing the extrusion gives back the
/// object as it was, and with it the same vertex buffer, line index buffer
/// and triangle index buffer.
pub proof fn law_extrusion_round_trip(model: ObjectView, depth: Scalar)
    requires
        model.extrusion is None,
    ensures
        (ObjectView {
            extrusion: None,
            ..(ObjectView { extrusion: Some(depth), ..model })
        }) == model,
        (ObjectView {
            extrusion: None,
            ..(ObjectView { extrusion: Some(depth), ..model })
        }).vertex_buffer() == model.vertex_buffer(),
        (ObjectView {
            extrusion: None,
            ..(ObjectView { extrusion: Some(depth), ..model })
        }).line_indices() == model.line_indices(),
        (ObjectView {
            extrusion: None,
            ..(ObjectView { extrusion: Some(depth), ..model })
        }).triangle_indices() == model.triangle_indices(),
{
}

/// Every entry of the line index buffer names a record of the vertex buffer,
/// as long as the vertex buffer has no more records than an index can count.
pub proof fn law_line_indices_in_range(model: ObjectView)
    requires
        model.well_formed(),
        model.render_count() <= 0x1_0000_0000,
    ensures
        forall|j: int|
            0 <= j < model.line_indices().len() ==> (#[trigger] model.line_indices()[j])
                < model.render_count(),
{
    lemma_line_indices_in_range(model, model.edges.len());
}

/// The entries contributed by the first `count` edges name records of the
/// vertex buffer.
proof fn lemma_line_indices_in_range(model: ObjectView, count: nat)
    requires
        model.well_formed(),
        model.render_count() <= 0x1_0000_0000,
        count <= model.edges.len(),
    ensures
        forall|j: int|
            0 <= j < model.line_indices_upto(count).len() ==> (#[trigger] model.line_indices_upto(
                count,
            )[j]) < model.render_count(),
    decreases count,
{
    if count > 0 {
        lemma_line_indices_in_range(model, (count - 1) as nat);
        lemma_edge_segments_in_range(model, count - 1);
        lemma_concat_below(
            model.line_indices_upto((count - 1) as nat),
            model.edge_segments(count - 1),
            model.render_count(),
        );
    }
}

/// A sequence put together from two sequences of entries below a bound has
/// all its entries below the bound.
proof fn lemma_concat_below(left: Seq<u32>, right: Seq<u32>, bound: nat)
    requires
        forall|j: int| 0 <= j < left.len() ==> (#[trigger] left[j]) < bound,
        forall|j: int| 0 <= j < right.len() ==> (#[trigger] right[j]) < bound,
    ensures
        forall|j: int| 0 <= j < (left + right).len() ==> (#[trigger] (left + right)[j]) < bound,
{
    assert forall|j: int| 0 <= j < (left + right).len() implies (#[trigger] (left + right)[j])
        < bound by {
        if j < left.len() {
            assert((left + right)[j] == left[j]);
        } else {
            assert((left + right)[j] == right[j - left.len()]);
        }
    }
}

/// The segments of one edge name records of the vertex buffer.
proof fn lemma_edge_segments_in_range(model: ObjectView, e: int)
    requires
        model.well_formed(),
        model.render_count() <= 0x1_0000_0000,
        0 <= e < model.edges.len(),
    ensures
        forall|j: int|
            0 <= j < model.edge_segments(e).len() ==> (#[trigger] model.edge_segments(e)[j])
                < model.render_count(),
{
    let n = model.vertices.len() as int;
    let bound = model.render_count();
    let edge = model.edges[e];
    let o = edge.origin_vertex as int;
    let d = edge.destination_vertex as int;
    assert(0 <= o < n && 0 <= d < n);
    let front = seq![index32(o), index32(d)];
    assert(front[0] == o && front[1] == d);
    assert forall|j: int| 0 <= j < front.len() implies (#[trigger] front[j]) < bound by {}
    if model.extrusion is Some {
        assert(bound == 2 * n);
        let back = seq![index32(o + n), index32(d + n)];
        assert(back[0] == o + n && back[1] == d + n);
        assert forall|j: int| 0 <= j < back.len() implies (#[trigger] back[j]) < bound by {}
        let wall = seq![
            index32(o),
            index32(o + n),
            index32(d),
            index32(d + n),
            index32(o),
            index32(d + n),
        ];
        assert(wall[0] == o && wall[1] == o + n && wall[2] == d && wall[3] == d + n && wall[4] == o
            && wall[5] == d + n);
        assert forall|j: int| 0 <= j < wall.len() implies (#[trigger] wall[j]) < bound by {}
        lemma_concat_below(front, back, bound);
        lemma_concat_below(front + back, wall, bound);
    }
}

/// Every entry of the triangle index buffer names a pooled vertex, as long as
/// the pool has no more vertices than an index can count.
pub proof fn law_triangle_indices_in_range(model: ObjectView)
    requires
        model.well_formed(),
        model.vertices.len() <= 0x1_0000_0000,
    ensures
        model.triangle_indices().len() == 3 * model.faces.len(),
        forall|j: int|
            0 <= j < model.triangle_indices().len() ==> (#[trigger] model.triangle_indices()[j])
                < model.vertices.len(),
{
    lemma_triangle_indices_in_range(model, model.faces.len());
}

/// The entries contributed by the first `count` faces name pooled vertices.
proof fn lemma_triangle_indices_in_range(model: ObjectView, count: nat)
    requires
        model.well_formed(),
        model.vertices.len() <= 0x1_0000_0000,
        count <= model.faces.len(),
    ensures
        model.triangle_indices_upto(count).len() == 3 * count,
        forall|j: int|
            0 <= j < model.triangle_indices_upto(count).len() ==> (
            #[trigger] model.triangle_indices_upto(count)[j]) < model.vertices.len(),
    decreases count,
{
    if count > 0 {
        lemma_triangle_indices_in_range(model, (count - 1) as nat);
        let corners = model.face_corners(count - 1);
        let face = model.faces[count - 1];
        let a = model.edges[face.start_edge as int].origin_vertex;
        let b = model.edges[face.middle_edge as int].origin_vertex;
        let c = model.edges[face.end_edge as int].origin_vertex;
        assert(a < model.vertices.len() && b < model.vertices.len() && c < model.vertices.len());
        assert(corners[0] == a && corners[1] == b && corners[2] == c);
        assert forall|j: int| 0 <= j < corners.len() implies (#[trigger] corners[j])
            < model.vertices.len() by {}
        lemma_concat_below(
            model.triangle_indices_upto((count - 1) as nat),
            corners,
            model.vertices.len(),
        );
    }
}

/// How many of the first `count` edges are boundary edges.
pub open spec fn boundary_count(model: ObjectView, count: nat) -> nat
    decreases count,
{
    if count == 0 {
        0
    } else {
        boundary_count(model, (count - 1) as nat) + if model.is_boundary(count - 1) {
            1nat
        } else {
            0nat
        }
    }
}

/// A flat object draws one segment per edge. An extruded object draws two per
/// edge, front and back, and three more for every boundary edge.
pub proof fn law_line_count(model: ObjectView)
    ensures
        model.extrusion is None ==> model.line_indices().len() == 2 * model.edges.len(),
        model.extrusion is Some ==> model.line_indices().len() == 4 * model.edges.len() + 6
            * boundary_count(model, model.edges.len()),
{
    lemma_line_count(model, model.edges.len());
}

/// The number of entries contributed by the first `count` edges.
proof fn lemma_line_count(model: ObjectView, count: nat)
    ensures
        model.extrusion is None ==> model.line_indices_upto(count).len() == 2 * count,
        model.extrusion is Some ==> model.line_indices_upto(count).len() == 4 * count + 6
            * boundary_count(model, count),
    decreases count,
{
    if count > 0 {
        lemma_line_count(model, (count - 1) as nat);
    }
}

} // verus!
