//! How points and pairs of vertices are found in the pools.

use vstd::prelude::*;
use crate::object::{
    edge_joins, edge_slot, edge_slot_from, lemma_first_edge, lemma_first_vertex, pool_with_edge,
    pool_with_vertex, vertex_slot, vertex_slot_from, vertices_distinct, Edge, ObjectView, Vertex,
};
use crate::types::{position_eq, position_is_numeric, Position};

verus! {

/// The slot of a point is the index of the first vertex equal to it: no
/// earlier vertex equals the point, and the vertex at the slot does, unless
/// the slot is the end of the pool.
pub proof fn lemma_vertex_slot(pool: Seq<Vertex>, p: Position)
    ensures
        0 <= vertex_slot(pool, p) <= pool.len(),
        forall|j: int|
            0 <= j < vertex_slot(pool, p) ==> !position_eq(p, (#[trigger] pool[j]).position),
        vertex_slot(pool, p) < pool.len() ==> position_eq(p, pool[vertex_slot(pool, p)].position),
{
    lemma_first_vertex(pool, p, 0);
}

/// An index with the two properties of [`lemma_vertex_slot`] is the slot.
pub proof fn lemma_vertex_slot_is(pool: Seq<Vertex>, p: Position, slot: int)
    requires
        0 <= slot <= pool.len(),
        forall|j: int| 0 <= j < slot ==> !position_eq(p, (#[trigger] pool[j]).position),
        slot < pool.len() ==> position_eq(p, pool[slot].position),
    ensures
        vertex_slot(pool, p) == slot,
{
    lemma_vertex_slot_from_is(pool, p, slot, 0);
}

/// An index with the two properties, counted from `from`, is the first match
/// at or after `from`.
proof fn lemma_vertex_slot_from_is(pool: Seq<Vertex>, p: Position, slot: int, from: int)
    requires
        0 <= from <= slot <= pool.len(),
        forall|j: int| from <= j < slot ==> !position_eq(p, (#[trigger] pool[j]).position),
        slot < pool.len() ==> position_eq(p, pool[slot].position),
    ensures
        vertex_slot_from(pool, p, from) == slot,
    decreases slot - from,
{
    if from < slot {
        assert(!position_eq(p, pool[from].position));
        lemma_vertex_slot_from_is(pool, p, slot, from + 1);
    }
}

/// The slot of a pair of vertices is the index of the first edge that joins
/// them: no earlier edge does, and the edge at the slot does, unless the slot
/// is the end of the pool.
pub proof fn lemma_edge_slot(pool: Seq<Edge>, a: int, b: int)
    ensures
        0 <= edge_slot(pool, a, b) <= pool.len(),
        forall|j: int| 0 <= j < edge_slot(pool, a, b) ==> !edge_joins(#[trigger] pool[j], a, b),
        edge_slot(pool, a, b) < pool.len() ==> edge_joins(pool[edge_slot(pool, a, b)], a, b),
{
    lemma_first_edge(pool, a, b, 0);
}

/// An index with the two properties of [`lemma_edge_slot`] is the slot.
pub proof fn lemma_edge_slot_is(pool: Seq<Edge>, a: int, b: int, slot: int)
    requires
        0 <= slot <= pool.len(),
        forall|j: int| 0 <= j < slot ==> !edge_joins(#[trigger] pool[j], a, b),
        slot < pool.len() ==> edge_joins(pool[slot], a, b),
    ensures
        edge_slot(pool, a, b) == slot,
{
    lemma_edge_slot_from_is(pool, a, b, slot, 0);
}

/// An index with the two properties, counted from `from`, is the first match
/// at or after `from`.
proof fn lemma_edge_slot_from_is(pool: Seq<Edge>, a: int, b: int, slot: int, from: int)
    requires
        0 <= from <= slot <= pool.len(),
        forall|j: int| from <= j < slot ==> !edge_joins(#[trigger] pool[j], a, b),
        slot < pool.len() ==> edge_joins(pool[slot], a, b),
    ensures
        edge_slot_from(pool, a, b, from) == slot,
    decreases slot - from,
{
    if from < slot {
        assert(!edge_joins(pool[from], a, b));
        lemma_edge_slot_from_is(pool, a, b, slot, from + 1);
    }
}

/// The two ends of the edge hold the two points, in either order.
pub open spec fn edge_joins_points(
    vertices: Seq<Vertex>,
    e: Edge,
    p: Position,
    q: Position,
) -> bool {
    ||| position_eq(p, vertices[e.origin_vertex as int].position) && position_eq(
        q,
        vertices[e.destination_vertex as int].position,
    )
    ||| position_eq(q, vertices[e.origin_vertex as int].position) && position_eq(
        p,
        vertices[e.destination_vertex as int].position,
    )
}

/// Looking an edge up by the indices of its vertices is looking it up by the
/// positions of its ends: in a pool without duplicates, an edge joins the
/// vertices of two pooled points exactly if its two ends hold those points.
pub proof fn law_edge_lookup_by_position(model: ObjectView, p: Position, q: Position, e: int)
    requires
        model.well_formed(),
        model.deduplicated(),
        vertex_slot(model.vertices, p) < model.vertices.len(),
        vertex_slot(model.vertices, q) < model.vertices.len(),
        0 <= e < model.edges.len(),
    ensures
        edge_joins(model.edges[e], vertex_slot(model.vertices, p), vertex_slot(model.vertices, q))
            == edge_joins_points(model.vertices, model.edges[e], p, q),
{
    lemma_vertex_slot(model.vertices, p);
    lemma_vertex_slot(model.vertices, q);
    let a = vertex_slot(model.vertices, p);
    let b = vertex_slot(model.vertices, q);
    let o = model.edges[e].origin_vertex as int;
    let d = model.edges[e].destination_vertex as int;
    lemma_same_point_same_vertex(model.vertices, p, a, o);
    lemma_same_point_same_vertex(model.vertices, p, a, d);
    lemma_same_point_same_vertex(model.vertices, q, b, o);
    lemma_same_point_same_vertex(model.vertices, q, b, d);
}

/// In a pool of pairwise different vertices, a point that equals the vertex
/// at one index equals the vertex at another index only if the two indices
/// are the same.
proof fn lemma_same_point_same_vertex(pool: Seq<Vertex>, p: Position, i: int, j: int)
    requires
        vertices_distinct(pool),
        0 <= i < pool.len(),
        0 <= j < pool.len(),
        position_eq(p, pool[i].position),
    ensures
        position_eq(p, pool[j].position) == (i == j),
{
    if i < j {
        assert(!position_eq(pool[i].position, pool[j].position));
    } else if j < i {
        assert(!position_eq(pool[j].position, pool[i].position));
    }
}

/// `shorter` is an initial part of `longer`.
pub open spec fn is_prefix<T>(shorter: Seq<T>, longer: Seq<T>) -> bool {
    &&& shorter.len() <= longer.len()
    &&& forall|j: int| 0 <= j < shorter.len() ==> shorter[j] == longer[j]
}

/// Once a point that is not a NaN in any coordinate has been added to a pool,
/// it keeps its slot however the pool grows afterwards.
pub proof fn lemma_vertex_slot_stable(pool: Seq<Vertex>, p: Position, grown: Seq<Vertex>)
    requires
        position_is_numeric(p),
        is_prefix(pool_with_vertex(pool, p), grown),
    ensures
        vertex_slot(grown, p) == vertex_slot(pool, p),
        pool_with_vertex(grown, p) == grown,
{
    lemma_vertex_slot(pool, p);
    let slot = vertex_slot(pool, p);
    let added = pool_with_vertex(pool, p);
    assert(slot < added.len());
    assert(added[slot] == grown[slot]);
    assert(position_eq(p, p));
    assert forall|j: int| 0 <= j < slot implies !position_eq(p, (#[trigger] grown[j]).position) by {
        assert(added[j] == grown[j]);
        assert(added[j] == pool[j]);
    }
    lemma_vertex_slot_is(grown, p, slot);
}

/// Once the edge between two vertices has been added to a pool, it keeps its
/// slot however the pool grows afterwards.
pub proof fn lemma_edge_slot_stable(pool: Seq<Edge>, a: int, b: int, grown: Seq<Edge>)
    requires
        0 <= a <= usize::MAX,
        0 <= b <= usize::MAX,
        is_prefix(pool_with_edge(pool, a, b), grown),
    ensures
        edge_slot(grown, a, b) == edge_slot(pool, a, b),
        pool_with_edge(grown, a, b) == grown,
{
    lemma_edge_slot(pool, a, b);
    let slot = edge_slot(pool, a, b);
    let added = pool_with_edge(pool, a, b);
    assert(slot < added.len());
    assert(added[slot] == grown[slot]);
    assert forall|j: int| 0 <= j < slot implies !edge_joins(#[trigger] grown[j], a, b) by {
        assert(added[j] == grown[j]);
        assert(added[j] == pool[j]);
    }
    lemma_edge_slot_is(grown, a, b, slot);
}

} // verus!
