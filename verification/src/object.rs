//! A mesh object: a pool of deduplicated vertices and edges, the faces built
//! on them, a placement, and the render buffers derived from all of these.

use vstd::prelude::*;
use crate::scalar::{halve, halved, negate, negated, Scalar, ONE, ZERO};
use crate::types::{
    index32, position_eq, same_position, truncate_index, white, Color, FaceType, Placement,
    Position, Rotation, Scale, ShaderVertex, SINGLE_ONE,
};

verus! {

/// A point of the mesh. Two vertices of one object never hold equal positions.
#[derive(Clone, Copy, Debug, PartialEq, Eq)]
pub struct Vertex {
    pub position: Position,
}

/// An undirected connection between two pooled vertices, named by their
/// indices in the vertex pool.
#[derive(Clone, Copy, Debug, PartialEq, Eq)]
pub struct Edge {
    pub origin_vertex: usize,
    pub destination_vertex: usize,
}

/// A triangle, named by the indices of its three edges in the edge pool.
#[derive(Clone, Copy, Debug, PartialEq, Eq)]
pub struct Face {
    pub start_edge: usize,
    pub middle_edge: usize,
    pub end_edge: usize,
}

/// Index of the first vertex at or after `from` whose position equals `p`, or
/// the length of the pool when no such vertex exists.
pub open spec fn vertex_slot_from(pool: Seq<Vertex>, p: Position, from: int) -> int
    decreases pool.len() - from,
{
    if from < 0 || from >= pool.len() {
        pool.len() as int
    } else if position_eq(p, pool[from].position) {
        from
    } else {
        vertex_slot_from(pool, p, from + 1)
    }
}

/// The index under which point `p` is known once it has been added to the
/// pool: that of the first vertex equal to it, or the next free index.
pub open spec fn vertex_slot(pool: Seq<Vertex>, p: Position) -> int {
    vertex_slot_from(pool, p, 0)
}

/// The pool after point `p` has been added: unchanged when a vertex equal to
/// `p` exists, longer by one vertex otherwise.
pub open spec fn pool_with_vertex(pool: Seq<Vertex>, p: Position) -> Seq<Vertex> {
    if vertex_slot(pool, p) < pool.len() {
        pool
    } else {
        pool.push(Vertex { position: p })
    }
}

/// The edge connects vertices `a` and `b`, in either direction.
pub open spec fn edge_joins(e: Edge, a: int, b: int) -> bool {
    (e.origin_vertex == a && e.destination_vertex == b) || (e.origin_vertex == b
        && e.destination_vertex == a)
}

/// Index of the first edge at or after `from` that connects `a` and `b`, or
/// the length of the pool when no such edge exists.
pub open spec fn edge_slot_from(pool: Seq<Edge>, a: int, b: int, from: int) -> int
    decreases pool.len() - from,
{
    if from < 0 || from >= pool.len() {
        pool.len() as int
    } else if edge_joins(pool[from], a, b) {
        from
    } else {
        edge_slot_from(pool, a, b, from + 1)
    }
}

/// The index under which the edge between `a` and `b` is known once it has
/// been added to the pool.
pub open spec fn edge_slot(pool: Seq<Edge>, a: int, b: int) -> int {
    edge_slot_from(pool, a, b, 0)
}

/// The pool after the edge between `a` and `b` has been added: unchanged when
/// such an edge exists, longer by the edge from `a` to `b` otherwise.
pub open spec fn pool_with_edge(pool: Seq<Edge>, a: int, b: int) -> Seq<Edge> {
    if edge_slot(pool, a, b) < pool.len() {
        pool
    } else {
        pool.push(Edge { origin_vertex: a as usize, destination_vertex: b as usize })
    }
}

/// Face `f` has edge `e` as one of its three edges.
pub open spec fn face_holds(f: Face, e: int) -> bool {
    f.start_edge == e || f.middle_edge == e || f.end_edge == e
}

/// How many of the given faces have edge `e` as one of their edges.
pub open spec fn edge_faces(faces: Seq<Face>, e: int) -> nat
    decreases faces.len(),
{
    if faces.len() == 0 {
        0
    } else {
        edge_faces(faces.drop_last(), e) + if face_holds(faces.last(), e) {
            1nat
        } else {
            0nat
        }
    }
}

/// The mathematical content of an [`Object`]: its topology and its transform.
/// The render buffers are functions of this value.
pub struct ObjectView {
    pub vertices: Seq<Vertex>,
    pub edges: Seq<Edge>,
    pub faces: Seq<Face>,
    pub position: Position,
    pub rotation: Rotation,
    pub scale: Scale,
    pub extrusion: Option<Scalar>,
}

impl ObjectView {
    /// An object without faces at `position`: no rotation, unit scale, flat.
    pub open spec fn empty(position: Position) -> ObjectView {
        ObjectView {
            vertices: Seq::empty(),
            edges: Seq::empty(),
            faces: Seq::empty(),
            position,
            rotation: Rotation { x: ZERO, y: ZERO, z: ZERO },
            scale: Scale { x: ONE, y: ONE, z: ONE },
            extrusion: None,
        }
    }

    /// Every edge names two pooled vertices and every face three pooled edges.
    pub open spec fn well_formed(self) -> bool {
        &&& forall|e: int|
            0 <= e < self.edges.len() ==> (#[trigger] self.edges[e]).origin_vertex
                < self.vertices.len() && self.edges[e].destination_vertex < self.vertices.len()
        &&& forall|f: int|
            0 <= f < self.faces.len() ==> (#[trigger] self.faces[f]).start_edge < self.edges.len()
                && self.faces[f].middle_edge < self.edges.len() && self.faces[f].end_edge
                < self.edges.len()
    }

    /// No two pooled vertices hold equal positions, and no two pooled edges
    /// join the same pair of vertices.
    pub open spec fn deduplicated(self) -> bool {
        vertices_distinct(self.vertices) && edges_distinct(self.edges)
    }

    /// The object after one triangle has been inserted. Each corner resolves
    /// to a pooled vertex, each pair of corners to a pooled edge, and a new
    /// face is appended in every case.
    pub open spec fn add_face(self, face: FaceType) -> ObjectView {
        let v0 = vertex_slot(self.vertices, face.0);
        let pool0 = pool_with_vertex(self.vertices, face.0);
        let v1 = vertex_slot(pool0, face.1);
        let pool1 = pool_with_vertex(pool0, face.1);
        let v2 = vertex_slot(pool1, face.2);
        let pool2 = pool_with_vertex(pool1, face.2);
        let e0 = edge_slot(self.edges, v0, v1);
        let edges0 = pool_with_edge(self.edges, v0, v1);
        let e1 = edge_slot(edges0, v1, v2);
        let edges1 = pool_with_edge(edges0, v1, v2);
        let e2 = edge_slot(edges1, v2, v0);
        let edges2 = pool_with_edge(edges1, v2, v0);
        ObjectView {
            vertices: pool2,
            edges: edges2,
            faces: self.faces.push(
                Face {
                    start_edge: e0 as usize,
                    middle_edge: e1 as usize,
                    end_edge: e2 as usize,
                },
            ),
            ..self
        }
    }

    /// The object after the first `count` of the given triangles have been
    /// inserted, in order.
    pub open spec fn add_faces_upto(self, faces: Seq<FaceType>, count: nat) -> ObjectView
        decreases count,
    {
        if count == 0 {
            self
        } else {
            self.add_faces_upto(faces, (count - 1) as nat).add_face(faces[count - 1])
        }
    }

    /// The object after all the given triangles have been inserted, in order.
    pub open spec fn add_faces(self, faces: Seq<FaceType>) -> ObjectView {
        self.add_faces_upto(faces, faces.len())
    }

    /// How many faces refer to edge `e`.
    pub open spec fn edge_faces(self, e: int) -> nat {
        edge_faces(self.faces, e)
    }

    /// Edge `e` lies on the silhouette of the outline: exactly one face
    /// refers to it.
    pub open spec fn is_boundary(self, e: int) -> bool {
        self.edge_faces(e) == 1
    }

    /// The transform that every render vertex of this object carries.
    pub open spec fn placement(self) -> Placement {
        Placement { position: self.position, rotation: self.rotation, scale: self.scale }
    }

    /// Number of records in the vertex buffer: one per vertex when flat, two
    /// when extruded.
    pub open spec fn render_count(self) -> nat {
        if self.extrusion is Some {
            2 * self.vertices.len()
        } else {
            self.vertices.len()
        }
    }

    /// The local point of record `i` of the vertex buffer. A flat object shows
    /// its vertices as authored. An extruded one of depth `d` shows a front
    /// copy of every vertex at `z = -d / 2`, then a back copy of every vertex
    /// at `z = d / 2`, both with `w = 1`.
    pub open spec fn local_point(self, i: int) -> Position {
        let n = self.vertices.len() as int;
        match self.extrusion {
            None => self.vertices[i].position,
            Some(depth) => if i < n {
                Position {
                    x: self.vertices[i].position.x,
                    y: self.vertices[i].position.y,
                    z: halved(negated(depth)),
                    w: ONE,
                }
            } else {
                Position {
                    x: self.vertices[i - n].position.x,
                    y: self.vertices[i - n].position.y,
                    z: halved(depth),
                    w: ONE,
                }
            },
        }
    }

    /// Record `i` of the vertex buffer.
    pub open spec fn render_vertex(self, i: int) -> ShaderVertex {
        ShaderVertex { local: self.local_point(i), placement: self.placement(), color: white() }
    }

    /// The vertex buffer.
    pub open spec fn vertex_buffer(self) -> Seq<ShaderVertex> {
        Seq::new(self.render_count(), |i: int| self.render_vertex(i))
    }

    /// The index pairs that edge `e` contributes to the wireframe: its own
    /// segment; when extruded, the same segment between the back copies; and
    /// when it is also a boundary edge, the three segments of its side wall.
    pub open spec fn edge_segments(self, e: int) -> Seq<u32> {
        let n = self.vertices.len() as int;
        let o = self.edges[e].origin_vertex as int;
        let d = self.edges[e].destination_vertex as int;
        let front = seq![index32(o), index32(d)];
        let back = seq![index32(o + n), index32(d + n)];
        let wall = seq![
            index32(o),
            index32(o + n),
            index32(d),
            index32(d + n),
            index32(o),
            index32(d + n),
        ];
        if self.extrusion is None {
            front
        } else if self.is_boundary(e) {
            front + back + wall
        } else {
            front + back
        }
    }

    /// The line index buffer restricted to the first `count` edges.
    pub open spec fn line_indices_upto(self, count: nat) -> Seq<u32>
        decreases count,
    {
        if count == 0 {
            Seq::empty()
        } else {
            self.line_indices_upto((count - 1) as nat) + self.edge_segments(count - 1)
        }
    }

    /// The line index buffer: the segments of every edge, in pool order.
    pub open spec fn line_indices(self) -> Seq<u32> {
        self.line_indices_upto(self.edges.len())
    }

    /// The three indices that face `f` contributes to the triangle index
    /// buffer: the origin vertices of its start, middle and end edges.
    pub open spec fn face_corners(self, f: int) -> Seq<u32> {
        seq![
            index32(self.edges[self.faces[f].start_edge as int].origin_vertex as int),
            index32(self.edges[self.faces[f].middle_edge as int].origin_vertex as int),
            index32(self.edges[self.faces[f].end_edge as int].origin_vertex as int),
        ]
    }

    /// The triangle index buffer restricted to the first `count` faces.
    pub open spec fn triangle_indices_upto(self, count: nat) -> Seq<u32>
        decreases count,
    {
        if count == 0 {
            Seq::empty()
        } else {
            self.triangle_indices_upto((count - 1) as nat) + self.face_corners(count - 1)
        }
    }

    /// The triangle index buffer: the corners of every face, in insertion
    /// order.
    pub open spec fn triangle_indices(self) -> Seq<u32> {
        self.triangle_indices_upto(self.faces.len())
    }
}

/// A use count as it is stored: exact below the largest `usize`, pinned there
/// above it.
spec fn saturated(count: nat) -> usize {
    if count < usize::MAX {
        count as usize
    } else {
        usize::MAX
    }
}

/// The stored tallies agree with the faces: one per edge, each the saturated
/// number of faces that refer to the edge.
spec fn tallies_match(tallies: Seq<usize>, edges: Seq<Edge>, faces: Seq<Face>) -> bool {
    &&& tallies.len() == edges.len()
    &&& forall|e: int|
        0 <= e < tallies.len() ==> #[trigger] tallies[e] == saturated(edge_faces(faces, e))
}

/// A mesh object. Its render buffers always agree with its topology and
/// transform: every mutation recomputes them in full.
#[derive(Debug)]
pub struct Object {
    vertices: Vec<Vertex>,
    edges: Vec<Edge>,
    faces: Vec<Face>,
    edge_tallies: Vec<usize>,
    position: Position,
    rotation: Rotation,
    scale: Scale,
    extrusion: Option<Scalar>,
    vertex_buffer: Vec<ShaderVertex>,
    triangle_index_buffer: Vec<u32>,
    line_index_buffer: Vec<u32>,
}

impl View for Object {
    type V = ObjectView;

    closed spec fn view(&self) -> ObjectView {
        ObjectView {
            vertices: self.vertices@,
            edges: self.edges@,
            faces: self.faces@,
            position: self.position,
            rotation: self.rotation,
            scale: self.scale,
            extrusion: self.extrusion,
        }
    }
}

impl Object {
    #[verifier::type_invariant]
    spec fn consistent(self) -> bool {
        &&& self@.well_formed()
        &&& self@.deduplicated()
        &&& tallies_match(self.edge_tallies@, self.edges@, self.faces@)
        &&& self.vertex_buffer@ == self@.vertex_buffer()
        &&& self.line_index_buffer@ == self@.line_indices()
        &&& self.triangle_index_buffer@ == self@.triangle_indices()
    }

    /// An empty object at `position`, with no rotation, unit scale and no
    /// extrusion.
    pub fn new(position: Position) -> (object: Self)
        ensures
            object@ == ObjectView::empty(position),
    {
        let ghost model = ObjectView::empty(position);
        assert(model.vertex_buffer() =~= Seq::empty());
        assert(model.line_indices() =~= Seq::empty());
        assert(model.triangle_indices() =~= Seq::empty());
        Object {
            vertices: Vec::new(),
            edges: Vec::new(),
            faces: Vec::new(),
            edge_tallies: Vec::new(),
            position,
            rotation: Rotation { x: ZERO, y: ZERO, z: ZERO },
            scale: Scale { x: ONE, y: ONE, z: ONE },
            extrusion: None,
            vertex_buffer: Vec::new(),
            triangle_index_buffer: Vec::new(),
            line_index_buffer: Vec::new(),
        }
    }

    /// The translation of the object.
    pub fn position(&self) -> (position: Position)
        ensures
            position == self@.position,
    {
        self.position
    }

    /// The Euler angles of the object, in degrees.
    pub fn rotation(&self) -> (rotation: Rotation)
        ensures
            rotation == self@.rotation,
    {
        self.rotation
    }

    /// The scale factors of the object.
    pub fn scale(&self) -> (scale: Scale)
        ensures
            scale == self@.scale,
    {
        self.scale
    }

    /// The extrusion depth of the object, if it is a solid.
    pub fn extrusion(&self) -> (extrusion: Option<Scalar>)
        ensures
            extrusion == self@.extrusion,
    {
        self.extrusion
    }

    /// The pooled vertices, in the order in which they were first seen.
    pub fn vertices(&self) -> (pool: &Vec<Vertex>)
        ensures
            pool@ == self@.vertices,
            self@.deduplicated(),
    {
        proof {
            use_type_invariant(self);
        }
        &self.vertices
    }

    /// The pooled edges, in the order in which they were first seen.
    pub fn edges(&self) -> (pool: &Vec<Edge>)
        ensures
            pool@ == self@.edges,
            self@.well_formed(),
            self@.deduplicated(),
    {
        proof {
            use_type_invariant(self);
        }
        &self.edges
    }

    /// The faces, in insertion order.
    pub fn faces(&self) -> (faces: &Vec<Face>)
        ensures
            faces@ == self@.faces,
            self@.well_formed(),
    {
        proof {
            use_type_invariant(self);
        }
        &self.faces
    }

    /// Whether exactly one face refers to the edge at `index`. An index
    /// beyond the edge pool names no boundary edge.
    pub fn is_boundary_edge(&self, index: usize) -> (boundary: bool)
        ensures
            boundary == (index < self@.edges.len() && self@.is_boundary(index as int)),
    {
        proof {
            use_type_invariant(self);
        }
        index < self.edge_tallies.len() && self.edge_tallies[index] == 1
    }

    /// Replaces the scale factors and recomputes the render buffers.
    pub fn set_scale(&mut self, scale: Scale)
        ensures
            final(self)@ == (ObjectView { scale, ..old(self)@ }),
    {
        let placement = Placement { position: self.position, rotation: self.rotation, scale };
        let extrusion = self.extrusion;
        let mut taken = Object::new(self.position);
        std::mem::swap(self, &mut taken);
        *self = taken.placed(placement, extrusion);
    }

    /// Replaces the translation and recomputes the render buffers.
    pub fn set_position(&mut self, position: Position)
        ensures
            final(self)@ == (ObjectView { position, ..old(self)@ }),
    {
        let placement = Placement { position, rotation: self.rotation, scale: self.scale };
        let extrusion = self.extrusion;
        let mut taken = Object::new(self.position);
        std::mem::swap(self, &mut taken);
        *self = taken.placed(placement, extrusion);
    }

    /// Replaces the Euler angles and recomputes the render buffers.
    pub fn set_rotation(&mut self, rotation: Rotation)
        ensures
            final(self)@ == (ObjectView { rotation, ..old(self)@ }),
    {
        let placement = Placement { position: self.position, rotation, scale: self.scale };
        let extrusion = self.extrusion;
        let mut taken = Object::new(self.position);
        std::mem::swap(self, &mut taken);
        *self = taken.placed(placement, extrusion);
    }

    /// Sets or clears the extrusion depth and recomputes the render buffers.
    pub fn set_extrusion(&mut self, extrusion: Option<Scalar>)
        ensures
            final(self)@ == (ObjectView { extrusion, ..old(self)@ }),
    {
        let placement = Placement {
            position: self.position,
            rotation: self.rotation,
            scale: self.scale,
        };
        let mut taken = Object::new(self.position);
        std::mem::swap(self, &mut taken);
        *self = taken.placed(placement, extrusion);
    }

    /// The object with the same topology under another transform.
    fn placed(self, placement: Placement, extrusion: Option<Scalar>) -> (object: Self)
        ensures
            object@ == parts_view(self@.vertices, self@.edges, self@.faces, placement, extrusion),
    {
        proof {
            use_type_invariant(&self);
        }
        let Object {
            vertices,
            edges,
            faces,
            edge_tallies,
            position: _,
            rotation: _,
            scale: _,
            extrusion: _,
            vertex_buffer: _,
            triangle_index_buffer: _,
            line_index_buffer: _,
        } = self;
        Self::assemble(vertices, edges, faces, edge_tallies, placement, extrusion)
    }

    /// A copy of the vertex buffer.
    pub fn get_vertices_vec(&self) -> (buffer: Vec<ShaderVertex>)
        ensures
            buffer@ == self@.vertex_buffer(),
    {
        proof {
            use_type_invariant(self);
        }
        self.vertex_buffer.clone()
    }

    /// A copy of the line index buffer: pairs of indices into the vertex
    /// buffer, one pair per wireframe segment.
    pub fn get_lines_indices_vec(&self) -> (buffer: Vec<u32>)
        ensures
            buffer@ == self@.line_indices(),
    {
        proof {
            use_type_invariant(self);
        }
        self.line_index_buffer.clone()
    }

    /// A copy of the triangle index buffer: three indices into the vertex
    /// buffer per face.
    pub fn get_triangles_indices_vec(&self) -> (buffer: Vec<u32>)
        ensures
            buffer@ == self@.triangle_indices(),
    {
        proof {
            use_type_invariant(self);
        }
        self.triangle_index_buffer.clone()
    }

    /// Inserts a triangle. Each corner is looked up among the pooled vertices
    /// by floating-point equality and added when it is not found; each pair of
    /// corners is looked up among the pooled edges, in either direction, and
    /// added when it is not found; a new face is appended in every case. The
    /// render buffers are then recomputed.
    pub fn add_face(&mut self, face: FaceType)
        ensures
            final(self)@ == old(self)@.add_face(face),
    {
        let mut taken = Object::new(self.position);
        std::mem::swap(self, &mut taken);
        *self = taken.with_face(face);
    }

    /// The object with one more triangle.
    fn with_face(self, face: FaceType) -> (object: Self)
        ensures
            object@ == self@.add_face(face),
    {
        proof {
            use_type_invariant(&self);
        }
        let ghost before = self@;
        let Object {
            vertices,
            edges,
            faces,
            edge_tallies,
            position,
            rotation,
            scale,
            extrusion,
            vertex_buffer: _,
            triangle_index_buffer: _,
            line_index_buffer: _,
        } = self;
        let mut vertices = vertices;
        let mut edges = edges;
        let mut faces = faces;
        let mut edge_tallies = edge_tallies;

        let v0 = resolve_vertex(&mut vertices, face.0);
        let v1 = resolve_vertex(&mut vertices, face.1);
        let v2 = resolve_vertex(&mut vertices, face.2);
        proof {
            lemma_unused_edges(before.faces, before.edges.len());
        }
        let e0 = resolve_edge(&mut edges, &mut edge_tallies, v0, v1);
        assert(tallies_match(edge_tallies@, edges@, before.faces));
        let e1 = resolve_edge(&mut edges, &mut edge_tallies, v1, v2);
        assert(tallies_match(edge_tallies@, edges@, before.faces));
        let e2 = resolve_edge(&mut edges, &mut edge_tallies, v2, v0);
        assert(tallies_match(edge_tallies@, edges@, before.faces));
        let inserted = Face { start_edge: e0, middle_edge: e1, end_edge: e2 };
        faces.push(inserted);
        let ghost unbumped = edge_tallies@;
        bump_tally(&mut edge_tallies, e0);
        if e1 != e0 {
            bump_tally(&mut edge_tallies, e1);
        }
        if e2 != e0 && e2 != e1 {
            bump_tally(&mut edge_tallies, e2);
        }
        let placement = Placement { position, rotation, scale };
        proof {
            lemma_bumped_tallies(unbumped, edges@, before.faces, inserted);
            assert(parts_view(vertices@, edges@, faces@, placement, extrusion) == before.add_face(
                face,
            ));
            assert(vertices@.len() == vertices.len() && edges@.len() == edges.len());
            lemma_add_face_well_formed(before, face);
            lemma_add_face_deduplicated(before, face);
        }
        Self::assemble(vertices, edges, faces, edge_tallies, placement, extrusion)
    }

    /// Derives the three render buffers from a topology and a transform.
    fn update_buffers(
        vertices: &Vec<Vertex>,
        edges: &Vec<Edge>,
        faces: &Vec<Face>,
        edge_tallies: &Vec<usize>,
        placement: Placement,
        extrusion: Option<Scalar>,
    ) -> (buffers: (Vec<ShaderVertex>, Vec<u32>, Vec<u32>))
        requires
            parts_view(vertices@, edges@, faces@, placement, extrusion).well_formed(),
            tallies_match(edge_tallies@, edges@, faces@),
        ensures
            buffers.0@ == parts_view(
                vertices@,
                edges@,
                faces@,
                placement,
                extrusion,
            ).vertex_buffer(),
            buffers.1@ == parts_view(
                vertices@,
                edges@,
                faces@,
                placement,
                extrusion,
            ).line_indices(),
            buffers.2@ == parts_view(
                vertices@,
                edges@,
                faces@,
                placement,
                extrusion,
            ).triangle_indices(),
    {
        let ghost model = parts_view(vertices@, edges@, faces@, placement, extrusion);
        let white = Color { red: SINGLE_ONE, green: SINGLE_ONE, blue: SINGLE_ONE };
        let count = vertices.len();

        let mut vertex_buffer: Vec<ShaderVertex> = Vec::new();
        let mut i: usize = 0;
        while i < count
            invariant
                i <= count,
                count == vertices.len(),
                model == parts_view(vertices@, edges@, faces@, placement, extrusion),
                white == crate::types::white(),
                vertex_buffer@.len() == i,
                forall|j: int| 0 <= j < i ==> vertex_buffer@[j] == model.render_vertex(j),
            decreases count - i,
        {
            let authored = vertices[i].position;
            let local = match extrusion {
                None => authored,
                Some(depth) => Position {
                    x: authored.x,
                    y: authored.y,
                    z: halve(negate(depth)),
                    w: ONE,
                },
            };
            vertex_buffer.push(ShaderVertex { local, placement, color: white });
            i += 1;
        }
        if let Some(depth) = extrusion {
            let mut i: usize = 0;
            while i < count
                invariant
                    i <= count,
                    count == vertices.len(),
                    extrusion == Some(depth),
                    model == parts_view(vertices@, edges@, faces@, placement, extrusion),
                    white == crate::types::white(),
                    vertex_buffer@.len() == count + i,
                    forall|j: int|
                        0 <= j < count + i ==> vertex_buffer@[j] == model.render_vertex(j),
                decreases count - i,
            {
                let authored = vertices[i].position;
                let local = Position { x: authored.x, y: authored.y, z: halve(depth), w: ONE };
                vertex_buffer.push(ShaderVertex { local, placement, color: white });
                i += 1;
            }
        }
        assert(vertex_buffer@ =~= model.vertex_buffer());
        let rendered = vertex_buffer.len();
        assert(extrusion is Some ==> count + count == rendered);

        let mut line_index_buffer: Vec<u32> = Vec::new();
        let mut k: usize = 0;
        while k < edges.len()
            invariant
                k <= edges.len(),
                count == vertices.len(),
                model == parts_view(vertices@, edges@, faces@, placement, extrusion),
                model.well_formed(),
                tallies_match(edge_tallies@, edges@, faces@),
                extrusion is Some ==> count + count <= usize::MAX,
                line_index_buffer@ == model.line_indices_upto(k as nat),
            decreases edges.len() - k,
        {
            let ghost before = line_index_buffer@;
            let edge = edges[k];
            assert(model.edges[k as int] == edge);
            let origin_index = edge.origin_vertex;
            let destination_index = edge.destination_vertex;
            line_index_buffer.push(truncate_index(origin_index));
            line_index_buffer.push(truncate_index(destination_index));
            if extrusion.is_some() {
                line_index_buffer.push(truncate_index(origin_index + count));
                line_index_buffer.push(truncate_index(destination_index + count));
                if edge_tallies[k] == 1 {
                    line_index_buffer.push(truncate_index(origin_index));
                    line_index_buffer.push(truncate_index(origin_index + count));
                    line_index_buffer.push(truncate_index(destination_index));
                    line_index_buffer.push(truncate_index(destination_index + count));
                    line_index_buffer.push(truncate_index(origin_index));
                    line_index_buffer.push(truncate_index(destination_index + count));
                }
            }
            assert(line_index_buffer@ =~= before + model.edge_segments(k as int));
            k += 1;
        }

        let mut triangle_index_buffer: Vec<u32> = Vec::new();
        let mut f: usize = 0;
        while f < faces.len()
            invariant
                f <= faces.len(),
                model == parts_view(vertices@, edges@, faces@, placement, extrusion),
                model.well_formed(),
                triangle_index_buffer@ == model.triangle_indices_upto(f as nat),
            decreases faces.len() - f,
        {
            let ghost before = triangle_index_buffer@;
            let face = faces[f];
            assert(model.faces[f as int] == face);
            triangle_index_buffer.push(truncate_index(edges[face.start_edge].origin_vertex));
            triangle_index_buffer.push(truncate_index(edges[face.middle_edge].origin_vertex));
            triangle_index_buffer.push(truncate_index(edges[face.end_edge].origin_vertex));
            assert(triangle_index_buffer@ =~= before + model.face_corners(f as int));
            f += 1;
        }

        (vertex_buffer, line_index_buffer, triangle_index_buffer)
    }

    /// Builds an object from a topology and a transform, deriving its buffers.
    fn assemble(
        vertices: Vec<Vertex>,
        edges: Vec<Edge>,
        faces: Vec<Face>,
        edge_tallies: Vec<usize>,
        placement: Placement,
        extrusion: Option<Scalar>,
    ) -> (object: Self)
        requires
            parts_view(vertices@, edges@, faces@, placement, extrusion).well_formed(),
            parts_view(vertices@, edges@, faces@, placement, extrusion).deduplicated(),
            tallies_match(edge_tallies@, edges@, faces@),
        ensures
            object@ == parts_view(vertices@, edges@, faces@, placement, extrusion),
    {
        let (vertex_buffer, line_index_buffer, triangle_index_buffer) = Self::update_buffers(
            &vertices,
            &edges,
            &faces,
            &edge_tallies,
            placement,
            extrusion,
        );
        Object {
            vertices,
            edges,
            faces,
            edge_tallies,
            position: placement.position,
            rotation: placement.rotation,
            scale: placement.scale,
            extrusion,
            vertex_buffer,
            triangle_index_buffer,
            line_index_buffer,
        }
    }
}

/// Finds the vertex equal to `p`, adding it to the pool when there is none.
fn resolve_vertex(pool: &mut Vec<Vertex>, p: Position) -> (slot: usize)
    ensures
        slot == vertex_slot(old(pool)@, p),
        slot < final(pool)@.len(),
        final(pool)@ == pool_with_vertex(old(pool)@, p),
{
    let mut i: usize = 0;
    while i < pool.len()
        invariant
            i <= pool.len(),
            pool@ == old(pool)@,
            vertex_slot(pool@, p) == vertex_slot_from(pool@, p, i as int),
        decreases pool.len() - i,
    {
        if same_position(&p, &pool[i].position) {
            return i;
        }
        i += 1;
    }
    pool.push(Vertex { position: p });
    i
}

/// Finds the edge between vertices `a` and `b`, adding it to the pool, with a
/// tally of zero, when there is none.
fn resolve_edge(pool: &mut Vec<Edge>, tallies: &mut Vec<usize>, a: usize, b: usize) -> (slot: usize)
    ensures
        slot == edge_slot(old(pool)@, a as int, b as int),
        slot < final(pool)@.len(),
        final(pool)@ == pool_with_edge(old(pool)@, a as int, b as int),
        final(tallies)@ == if slot < old(pool)@.len() {
            old(tallies)@
        } else {
            old(tallies)@.push(0usize)
        },
{
    let mut i: usize = 0;
    while i < pool.len()
        invariant
            i <= pool.len(),
            pool@ == old(pool)@,
            tallies@ == old(tallies)@,
            edge_slot(pool@, a as int, b as int) == edge_slot_from(
                pool@,
                a as int,
                b as int,
                i as int,
            ),
        decreases pool.len() - i,
    {
        let edge = pool[i];
        if (edge.origin_vertex == a && edge.destination_vertex == b) || (edge.origin_vertex == b
            && edge.destination_vertex == a) {
            return i;
        }
        i += 1;
    }
    pool.push(Edge { origin_vertex: a, destination_vertex: b });
    tallies.push(0);
    i
}

/// The tally after one more face.
spec fn bumped(tally: usize) -> usize {
    if tally < usize::MAX {
        (tally + 1) as usize
    } else {
        tally
    }
}

/// Counts one more face at edge `e`.
fn bump_tally(tallies: &mut Vec<usize>, e: usize)
    requires
        e < old(tallies)@.len(),
    ensures
        final(tallies)@ == old(tallies)@.update(e as int, bumped(old(tallies)@[e as int])),
{
    let tally = tallies[e];
    if tally < usize::MAX {
        tallies.set(e, tally + 1);
    } else {
        assert(tallies@ =~= old(tallies)@.update(e as int, tally));
    }
}

/// No face refers to an edge at or beyond a bound that all faces respect.
pub proof fn lemma_unused_edges(faces: Seq<Face>, bound: nat)
    requires
        forall|f: int|
            0 <= f < faces.len() ==> (#[trigger] faces[f]).start_edge < bound
                && faces[f].middle_edge < bound && faces[f].end_edge < bound,
    ensures
        forall|e: int| e >= bound ==> #[trigger] edge_faces(faces, e) == 0,
    decreases faces.len(),
{
    if faces.len() > 0 {
        let rest = faces.drop_last();
        assert forall|f: int| 0 <= f < rest.len() implies (#[trigger] rest[f]).start_edge < bound
            && rest[f].middle_edge < bound && rest[f].end_edge < bound by {
            assert(rest[f] == faces[f]);
        }
        lemma_unused_edges(rest, bound);
        let last = faces[faces.len() - 1];
        assert(faces.last() == last);
        assert forall|e: int| e >= bound implies #[trigger] edge_faces(faces, e) == 0 by {
            assert(edge_faces(rest, e) == 0);
            assert(!face_holds(last, e));
        }
    }
}

/// One more face raises by one the count of each edge that it holds.
pub proof fn lemma_faces_after_push(faces: Seq<Face>, f: Face, e: int)
    ensures
        edge_faces(faces.push(f), e) == edge_faces(faces, e) + if face_holds(f, e) {
            1nat
        } else {
            0nat
        },
{
    assert(faces.push(f).drop_last() =~= faces);
    assert(faces.push(f).last() == f);
}

/// Counting a new face once at each of its different edges keeps the tallies
/// in agreement with the faces.
proof fn lemma_bumped_tallies(tallies: Seq<usize>, edges: Seq<Edge>, faces: Seq<Face>, f: Face)
    requires
        tallies_match(tallies, edges, faces),
        f.start_edge < edges.len(),
        f.middle_edge < edges.len(),
        f.end_edge < edges.len(),
    ensures
        tallies_match(bumped_for_face(tallies, f), edges, faces.push(f)),
{
    let third = bumped_for_face(tallies, f);
    assert forall|e: int| 0 <= e < third.len() implies #[trigger] third[e] == saturated(
        edge_faces(faces.push(f), e),
    ) by {
        lemma_faces_after_push(faces, f, e);
        assert(tallies[e] == saturated(edge_faces(faces, e)));
    }
}

/// The tallies after a new face has been counted once at each of its
/// different edges.
spec fn bumped_for_face(tallies: Seq<usize>, f: Face) -> Seq<usize> {
    let first = tallies.update(f.start_edge as int, bumped(tallies[f.start_edge as int]));
    let second = if f.middle_edge != f.start_edge {
        first.update(f.middle_edge as int, bumped(first[f.middle_edge as int]))
    } else {
        first
    };
    if f.end_edge != f.start_edge && f.end_edge != f.middle_edge {
        second.update(f.end_edge as int, bumped(second[f.end_edge as int]))
    } else {
        second
    }
}

/// Adding an edge between two pooled vertices keeps every edge within the
/// vertex pool.
proof fn lemma_pool_with_edge_in_range(pool: Seq<Edge>, a: int, b: int, vertices: nat)
    requires
        0 <= a < vertices,
        0 <= b < vertices,
        vertices <= usize::MAX,
        forall|e: int|
            0 <= e < pool.len() ==> (#[trigger] pool[e]).origin_vertex < vertices
                && pool[e].destination_vertex < vertices,
    ensures
        0 <= edge_slot(pool, a, b) < pool_with_edge(pool, a, b).len(),
        pool.len() <= pool_with_edge(pool, a, b).len(),
        forall|e: int|
            0 <= e < pool_with_edge(pool, a, b).len() ==> (#[trigger] pool_with_edge(
                pool,
                a,
                b,
            )[e]).origin_vertex < vertices && pool_with_edge(pool, a, b)[e].destination_vertex
                < vertices,
{
    lemma_first_edge(pool, a, b, 0);
}

/// Adding a point keeps the pool's earlier vertices and yields a valid slot.
proof fn lemma_pool_with_vertex_grows(pool: Seq<Vertex>, p: Position)
    ensures
        0 <= vertex_slot(pool, p) < pool_with_vertex(pool, p).len(),
        pool.len() <= pool_with_vertex(pool, p).len() <= pool.len() + 1,
{
    lemma_first_vertex(pool, p, 0);
}

/// Inserting a face keeps every index of the topology within its pool.
pub proof fn lemma_add_face_well_formed(model: ObjectView, face: FaceType)
    requires
        model.well_formed(),
        model.add_face(face).vertices.len() <= usize::MAX,
        model.add_face(face).edges.len() <= usize::MAX,
    ensures
        model.add_face(face).well_formed(),
{
    let v0 = vertex_slot(model.vertices, face.0);
    let pool0 = pool_with_vertex(model.vertices, face.0);
    let v1 = vertex_slot(pool0, face.1);
    let pool1 = pool_with_vertex(pool0, face.1);
    let v2 = vertex_slot(pool1, face.2);
    let pool2 = pool_with_vertex(pool1, face.2);
    let e0 = edge_slot(model.edges, v0, v1);
    let edges0 = pool_with_edge(model.edges, v0, v1);
    let e1 = edge_slot(edges0, v1, v2);
    let edges1 = pool_with_edge(edges0, v1, v2);
    let e2 = edge_slot(edges1, v2, v0);
    let edges2 = pool_with_edge(edges1, v2, v0);
    lemma_pool_with_vertex_grows(model.vertices, face.0);
    lemma_pool_with_vertex_grows(pool0, face.1);
    lemma_pool_with_vertex_grows(pool1, face.2);
    let n = pool2.len();
    lemma_pool_with_edge_in_range(model.edges, v0, v1, n);
    lemma_pool_with_edge_in_range(edges0, v1, v2, n);
    lemma_pool_with_edge_in_range(edges1, v2, v0, n);
    let after = model.add_face(face);
    assert forall|f: int| 0 <= f < after.faces.len() implies (#[trigger] after.faces[f]).start_edge
        < after.edges.len() && after.faces[f].middle_edge < after.edges.len()
        && after.faces[f].end_edge < after.edges.len() by {
        if f < model.faces.len() {
            assert(after.faces[f] == model.faces[f]);
        }
    }
}

/// Inserting a face keeps the pools free of duplicates.
pub proof fn lemma_add_face_deduplicated(model: ObjectView, face: FaceType)
    requires
        model.deduplicated(),
        model.add_face(face).vertices.len() <= usize::MAX,
    ensures
        model.add_face(face).deduplicated(),
{
    let v0 = vertex_slot(model.vertices, face.0);
    let pool0 = pool_with_vertex(model.vertices, face.0);
    let v1 = vertex_slot(pool0, face.1);
    let pool1 = pool_with_vertex(pool0, face.1);
    let v2 = vertex_slot(pool1, face.2);
    let pool2 = pool_with_vertex(pool1, face.2);
    lemma_pool_with_vertex_distinct(model.vertices, face.0);
    lemma_pool_with_vertex_distinct(pool0, face.1);
    lemma_pool_with_vertex_distinct(pool1, face.2);
    lemma_pool_with_vertex_grows(model.vertices, face.0);
    lemma_pool_with_vertex_grows(pool0, face.1);
    lemma_pool_with_vertex_grows(pool1, face.2);
    let edges0 = pool_with_edge(model.edges, v0, v1);
    let edges1 = pool_with_edge(edges0, v1, v2);
    lemma_pool_with_edge_distinct(model.edges, v0, v1);
    lemma_pool_with_edge_distinct(edges0, v1, v2);
    lemma_pool_with_edge_distinct(edges1, v2, v0);
}

/// The vertices of the pool are pairwise different.
pub open spec fn vertices_distinct(pool: Seq<Vertex>) -> bool {
    forall|i: int, j: int|
        0 <= i < j < pool.len() ==> !position_eq(
            (#[trigger] pool[i]).position,
            (#[trigger] pool[j]).position,
        )
}

/// No two edges of the pool join the same pair of vertices.
pub open spec fn edges_distinct(pool: Seq<Edge>) -> bool {
    forall|i: int, j: int|
        0 <= i < j < pool.len() ==> !edge_joins(
            #[trigger] pool[i],
            (#[trigger] pool[j]).origin_vertex as int,
            pool[j].destination_vertex as int,
        )
}

/// Adding a point to a pool of pairwise different vertices leaves them
/// pairwise different.
proof fn lemma_pool_with_vertex_distinct(pool: Seq<Vertex>, p: Position)
    requires
        vertices_distinct(pool),
    ensures
        vertices_distinct(pool_with_vertex(pool, p)),
{
    lemma_first_vertex(pool, p, 0);
    let added = pool_with_vertex(pool, p);
    assert forall|i: int, j: int| 0 <= i < j < added.len() implies !position_eq(
        (#[trigger] added[i]).position,
        (#[trigger] added[j]).position,
    ) by {
        if j < pool.len() {
            assert(added[i] == pool[i] && added[j] == pool[j]);
        } else {
            assert(added[i] == pool[i]);
            assert(!position_eq(p, pool[i].position));
        }
    }
}

/// Adding an edge to a pool without duplicates leaves it without duplicates.
proof fn lemma_pool_with_edge_distinct(pool: Seq<Edge>, a: int, b: int)
    requires
        edges_distinct(pool),
        0 <= a <= usize::MAX,
        0 <= b <= usize::MAX,
    ensures
        edges_distinct(pool_with_edge(pool, a, b)),
{
    lemma_first_edge(pool, a, b, 0);
    let added = pool_with_edge(pool, a, b);
    assert forall|i: int, j: int| 0 <= i < j < added.len() implies !edge_joins(
        #[trigger] added[i],
        (#[trigger] added[j]).origin_vertex as int,
        added[j].destination_vertex as int,
    ) by {
        if j < pool.len() {
            assert(added[i] == pool[i] && added[j] == pool[j]);
        } else {
            assert(added[i] == pool[i]);
            assert(!edge_joins(pool[i], a, b));
        }
    }
}

/// No vertex between `from` and the first match equals the point, and the
/// vertex at the first match does.
pub proof fn lemma_first_vertex(pool: Seq<Vertex>, p: Position, from: int)
    requires
        0 <= from <= pool.len(),
    ensures
        from <= vertex_slot_from(pool, p, from) <= pool.len(),
        forall|j: int|
            from <= j < vertex_slot_from(pool, p, from) ==> !position_eq(
                p,
                (#[trigger] pool[j]).position,
            ),
        vertex_slot_from(pool, p, from) < pool.len() ==> position_eq(
            p,
            pool[vertex_slot_from(pool, p, from)].position,
        ),
    decreases pool.len() - from,
{
    if from < pool.len() && !position_eq(p, pool[from].position) {
        lemma_first_vertex(pool, p, from + 1);
    }
}

/// No edge between `from` and the first match joins the two vertices, and
/// the edge at the first match does.
pub proof fn lemma_first_edge(pool: Seq<Edge>, a: int, b: int, from: int)
    requires
        0 <= from <= pool.len(),
    ensures
        from <= edge_slot_from(pool, a, b, from) <= pool.len(),
        forall|j: int|
            from <= j < edge_slot_from(pool, a, b, from) ==> !edge_joins(#[trigger] pool[j], a, b),
        edge_slot_from(pool, a, b, from) < pool.len() ==> edge_joins(
            pool[edge_slot_from(pool, a, b, from)],
            a,
            b,
        ),
    decreases pool.len() - from,
{
    if from < pool.len() && !edge_joins(pool[from], a, b) {
        lemma_first_edge(pool, a, b, from + 1);
    }
}

/// The model made of the given parts.
spec fn parts_view(
    vertices: Seq<Vertex>,
    edges: Seq<Edge>,
    faces: Seq<Face>,
    placement: Placement,
    extrusion: Option<Scalar>,
) -> ObjectView {
    ObjectView {
        vertices,
        edges,
        faces,
        position: placement.position,
        rotation: placement.rotation,
        scale: placement.scale,
        extrusion,
    }
}

} // verus!
