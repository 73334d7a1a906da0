//! The scene: an ordered collection of objects, the selection, and the one
//! vertex buffer and line index buffer that all viewports draw from.

use vstd::prelude::*;
use crate::object::{Object, ObjectView};
use crate::upload::{index_bytes, is_memory_image};
use crate::scalar::{index_scalar, scalar_from_index, Scalar, ONE, ZERO};
use crate::types::{
    index32, magenta, truncate_index, Color, FaceType, Position, Rotation, Scale, ShaderVertex,
    SINGLE_ONE, SINGLE_ZERO,
};

verus! {

/// Where the object inserted after `index` earlier ones is placed.
pub open spec fn slot_position(index: nat) -> Position {
    Position { x: index_scalar(index), y: ZERO, z: ZERO, w: ONE }
}

/// The record as it is drawn for the selected object: the same point in
/// magenta.
pub open spec fn highlighted(vertex: ShaderVertex) -> ShaderVertex {
    ShaderVertex { color: magenta(), ..vertex }
}

/// The mathematical content of an [`Application`]: the objects in insertion
/// order and the selected index. The merged buffers are functions of this
/// value.
pub struct ApplicationView {
    pub objects: Seq<ObjectView>,
    pub selected: Option<usize>,
}

impl ApplicationView {
    /// A scene without objects and without selection.
    pub open spec fn empty() -> ApplicationView {
        ApplicationView { objects: Seq::empty(), selected: None }
    }

    /// The selection, if there is one, names an object of the scene.
    pub open spec fn well_formed(self) -> bool {
        self.selected matches Some(s) ==> s < self.objects.len()
    }

    /// Object `k` is the selected one.
    pub open spec fn is_selected(self, k: int) -> bool {
        self.selected matches Some(s) && s == k
    }

    /// The vertex records of object `k` as they stand in the merged buffer:
    /// its own, recoloured when it is the selected object.
    pub open spec fn object_vertices(self, k: int) -> Seq<ShaderVertex> {
        if self.is_selected(k) {
            self.objects[k].vertex_buffer().map_values(|v: ShaderVertex| highlighted(v))
        } else {
            self.objects[k].vertex_buffer()
        }
    }

    /// The merged vertex buffer restricted to the first `count` objects.
    pub open spec fn vertices_upto(self, count: nat) -> Seq<ShaderVertex>
        decreases count,
    {
        if count == 0 {
            Seq::empty()
        } else {
            self.vertices_upto((count - 1) as nat) + self.object_vertices(count - 1)
        }
    }

    /// The merged vertex buffer: the records of every object, in scene order.
    pub open spec fn vertices(self) -> Seq<ShaderVertex> {
        self.vertices_upto(self.objects.len())
    }

    /// Number of records that precede those of object `k` in the merged
    /// vertex buffer.
    pub open spec fn vertex_offset(self, k: int) -> nat {
        self.vertices_upto(k as nat).len()
    }

    /// The line indices of object `k` as they stand in the merged buffer:
    /// each of its own raised by the object's vertex offset, modulo 2^32.
    pub open spec fn object_lines(self, k: int) -> Seq<u32> {
        self.objects[k].line_indices().map_values(
            |i: u32| index32(i as int + self.vertex_offset(k)),
        )
    }

    /// The merged line index buffer restricted to the first `count` objects.
    pub open spec fn lines_indices_upto(self, count: nat) -> Seq<u32>
        decreases count,
    {
        if count == 0 {
            Seq::empty()
        } else {
            self.lines_indices_upto((count - 1) as nat) + self.object_lines(count - 1)
        }
    }

    /// The merged line index buffer: the shifted indices of every object, in
    /// scene order.
    pub open spec fn lines_indices(self) -> Seq<u32> {
        self.lines_indices_upto(self.objects.len())
    }

    /// The scene after a step towards the end of the list: the first object
    /// when nothing is selected and there is one, the next object when there
    /// is one, and the same selection otherwise.
    pub open spec fn inc_selected(self) -> ApplicationView {
        ApplicationView {
            selected: match self.selected {
                None => if self.objects.len() > 0 {
                    Some(0usize)
                } else {
                    None
                },
                Some(s) => if s + 1 < self.objects.len() {
                    Some((s + 1) as usize)
                } else {
                    Some(s)
                },
            },
            ..self
        }
    }

    /// The scene after a step towards the start of the list: the first object
    /// when nothing is selected and there is one, the previous object when
    /// there is one, and the same selection otherwise.
    pub open spec fn dec_selected(self) -> ApplicationView {
        ApplicationView {
            selected: match self.selected {
                None => if self.objects.len() > 0 {
                    Some(0usize)
                } else {
                    None
                },
                Some(s) => if s > 0 {
                    Some((s - 1) as usize)
                } else {
                    Some(s)
                },
            },
            ..self
        }
    }

    /// The scene after the object at `index` has been removed. Nothing
    /// changes when there is no such object. Otherwise the selection is
    /// cleared when the scene becomes empty, moves down by one when it named
    /// the last object, and stays as it is in every other case.
    pub open spec fn del_object(self, index: int) -> ApplicationView {
        if 0 <= index < self.objects.len() {
            let remaining = self.objects.remove(index);
            ApplicationView {
                objects: remaining,
                selected: match self.selected {
                    None => None,
                    Some(s) => if remaining.len() == 0 {
                        None
                    } else if s == remaining.len() {
                        Some((s - 1) as usize)
                    } else {
                        Some(s)
                    },
                },
            }
        } else {
            self
        }
    }

    /// The scene after a new object made of the given triangles has been
    /// appended. The object stands at `(n, 0, 0)`, where `n` is the number of
    /// objects before it, so that objects line up along the X axis in
    /// insertion order. The selection stays as it is.
    pub open spec fn add_object(self, faces: Seq<FaceType>) -> ApplicationView {
        ApplicationView {
            objects: self.objects.push(
                ObjectView::empty(slot_position(self.objects.len())).add_faces(faces),
            ),
            ..self
        }
    }

    /// The scene after the selected object, if there is one, has been
    /// replaced by `edited`.
    pub open spec fn with_selected_object(self, edited: ObjectView) -> ApplicationView {
        match self.selected {
            None => self,
            Some(s) => ApplicationView { objects: self.objects.update(s as int, edited), ..self },
        }
    }
}

/// The scene. Its merged buffers always agree with its objects and its
/// selection: every mutation rebuilds them in full.
#[derive(Debug)]
pub struct Application {
    objects: Vec<Object>,
    selected: Option<usize>,
    vertices: Vec<ShaderVertex>,
    lines_indices: Vec<u32>,
}

/// The models of the given objects, in order.
pub open spec fn object_views(objects: Seq<Object>) -> Seq<ObjectView> {
    objects.map_values(|o: Object| o@)
}

impl View for Application {
    type V = ApplicationView;

    closed spec fn view(&self) -> ApplicationView {
        ApplicationView { objects: object_views(self.objects@), selected: self.selected }
    }
}

impl Application {
    #[verifier::type_invariant]
    spec fn consistent(self) -> bool {
        &&& self@.well_formed()
        &&& self.vertices@ == self@.vertices()
        &&& self.lines_indices@ == self@.lines_indices()
    }

    /// An empty scene with nothing selected.
    pub fn new() -> (scene: Self)
        ensures
            scene@ == ApplicationView::empty(),
    {
        let ghost model = ApplicationView::empty();
        assert(object_views(Seq::<Object>::empty()) =~= Seq::empty());
        assert(model.vertices() =~= Seq::empty());
        assert(model.lines_indices() =~= Seq::empty());
        Application {
            objects: Vec::new(),
            selected: None,
            vertices: Vec::new(),
            lines_indices: Vec::new(),
        }
    }

    /// Takes the scene apart into its objects and its selection.
    fn into_parts(self) -> (parts: (Vec<Object>, Option<usize>))
        ensures
            object_views(parts.0@) == self@.objects,
            parts.1 == self@.selected,
            parts.1 matches Some(s) ==> s < parts.0@.len(),
    {
        proof {
            use_type_invariant(&self);
            assert(object_views(self.objects@).len() == self.objects@.len());
        }
        let Application { objects, selected, vertices: _, lines_indices: _ } = self;
        (objects, selected)
    }

    /// Builds a scene from its objects and its selection, merging the
    /// buffers.
    fn assemble(objects: Vec<Object>, selected: Option<usize>) -> (scene: Self)
        requires
            selected matches Some(s) ==> s < objects@.len(),
        ensures
            scene@ == (ApplicationView { objects: object_views(objects@), selected }),
    {
        let (vertices, lines_indices) = Self::update(&objects, selected);
        Application { objects, selected, vertices, lines_indices }
    }

    /// The index of the selected object, if one is selected.
    pub fn selected(&self) -> (selected: Option<usize>)
        ensures
            selected == self@.selected,
            self@.well_formed(),
    {
        proof {
            use_type_invariant(self);
        }
        self.selected
    }

    /// The number of objects in the scene.
    pub fn len(&self) -> (count: usize)
        ensures
            count == self@.objects.len(),
    {
        self.objects.len()
    }

    /// The object at `index`, if there is one.
    pub fn object(&self, index: usize) -> (object: Option<&Object>)
        ensures
            match object {
                Some(o) => index < self@.objects.len() && o@ == self@.objects[index as int],
                None => index >= self@.objects.len(),
            },
    {
        if index < self.objects.len() {
            Some(&self.objects[index])
        } else {
            None
        }
    }

    /// The merged vertex buffer.
    pub fn vertices(&self) -> (buffer: &Vec<ShaderVertex>)
        ensures
            buffer@ == self@.vertices(),
    {
        proof {
            use_type_invariant(self);
        }
        &self.vertices
    }

    /// The merged line index buffer.
    pub fn lines_indices(&self) -> (buffer: &Vec<u32>)
        ensures
            buffer@ == self@.lines_indices(),
    {
        proof {
            use_type_invariant(self);
        }
        &self.lines_indices
    }

    /// The merged line index buffer as the bytes to upload: four per index,
    /// in the byte order of the machine.
    pub fn lines_indices_bytes(&self) -> (bytes: &[u8])
        ensures
            is_memory_image(bytes@, self@.lines_indices()),
    {
        proof {
            use_type_invariant(self);
        }
        index_bytes(&self.lines_indices)
    }

    /// The number of entries of the merged line index buffer, as a draw call
    /// takes it: modulo 2^32.
    pub fn lines_indices_len(&self) -> (count: u32)
        ensures
            count == index32(self@.lines_indices().len() as int),
    {
        proof {
            use_type_invariant(self);
        }
        truncate_index(self.lines_indices.len())
    }

    /// Moves the selection one object towards the end of the list, without
    /// wrapping around. With nothing selected, selects the first object if
    /// there is one.
    pub fn inc_selected(&mut self)
        ensures
            final(self)@ == old(self)@.inc_selected(),
    {
        let mut taken = Application::new();
        std::mem::swap(self, &mut taken);
        let (objects, selected) = taken.into_parts();
        let count = objects.len();
        let moved = match selected {
            None => if count > 0 {
                Some(0)
            } else {
                None
            },
            Some(s) => if s + 1 < count {
                Some(s + 1)
            } else {
                Some(s)
            },
        };
        *self = Self::assemble(objects, moved);
    }

    /// Moves the selection one object towards the start of the list, without
    /// wrapping around. With nothing selected, selects the first object if
    /// there is one.
    pub fn dec_selected(&mut self)
        ensures
            final(self)@ == old(self)@.dec_selected(),
    {
        let mut taken = Application::new();
        std::mem::swap(self, &mut taken);
        let (objects, selected) = taken.into_parts();
        let moved = match selected {
            None => if objects.len() > 0 {
                Some(0)
            } else {
                None
            },
            Some(s) => if s > 0 {
                Some(s - 1)
            } else {
                Some(s)
            },
        };
        *self = Self::assemble(objects, moved);
    }

    /// Removes the object at `index` and keeps the selection valid. Does
    /// nothing when there is no such object.
    pub fn del_object(&mut self, index: usize)
        ensures
            final(self)@ == old(self)@.del_object(index as int),
    {
        if self.objects.len() > index {
            let mut taken = Application::new();
            std::mem::swap(self, &mut taken);
            let (objects, selected) = taken.into_parts();
            let mut objects = objects;
            let ghost before = objects@;
            objects.remove(index);
            assert(object_views(objects@) =~= object_views(before).remove(index as int));
            let kept = match selected {
                None => None,
                Some(s) => if objects.len() == 0 {
                    None
                } else if objects.len() == s {
                    Some(s - 1)
                } else {
                    Some(s)
                },
            };
            *self = Self::assemble(objects, kept);
        }
    }

    /// Appends a new object made of the given triangles, placed by its index
    /// in the scene.
    pub fn add_object(&mut self, faces: &[FaceType])
        ensures
            final(self)@ == old(self)@.add_object(faces@),
    {
        let mut taken = Application::new();
        std::mem::swap(self, &mut taken);
        let (objects, selected) = taken.into_parts();
        let mut objects = objects;
        let ghost before = objects@;
        let position = Position {
            x: scalar_from_index(objects.len() as u64),
            y: ZERO,
            z: ZERO,
            w: ONE,
        };
        let mut object = Object::new(position);
        let mut i: usize = 0;
        while i < faces.len()
            invariant
                i <= faces.len(),
                object@ == ObjectView::empty(position).add_faces_upto(faces@, i as nat),
            decreases faces.len() - i,
        {
            object.add_face(faces[i]);
            i += 1;
        }
        objects.push(object);
        assert(object_views(objects@) =~= object_views(before).push(object@));
        *self = Self::assemble(objects, selected);
    }

    /// Replaces the translation of the selected object, if there is one.
    pub fn set_selected_position(&mut self, position: Position)
        ensures
            final(self)@ == match old(self)@.selected {
                None => old(self)@,
                Some(s) => old(self)@.with_selected_object(
                    ObjectView { position, ..old(self)@.objects[s as int] },
                ),
            },
    {
        let mut taken = Application::new();
        std::mem::swap(self, &mut taken);
        let (objects, selected) = taken.into_parts();
        let mut objects = objects;
        let ghost before = objects@;
        if let Some(s) = selected {
            objects[s].set_position(position);
            assert(object_views(objects@) =~= object_views(before).update(
                s as int,
                objects@[s as int]@,
            ));
        }
        *self = Self::assemble(objects, selected);
    }

    /// Replaces the Euler angles of the selected object, if there is one.
    pub fn set_selected_rotation(&mut self, rotation: Rotation)
        ensures
            final(self)@ == match old(self)@.selected {
                None => old(self)@,
                Some(s) => old(self)@.with_selected_object(
                    ObjectView { rotation, ..old(self)@.objects[s as int] },
                ),
            },
    {
        let mut taken = Application::new();
        std::mem::swap(self, &mut taken);
        let (objects, selected) = taken.into_parts();
        let mut objects = objects;
        let ghost before = objects@;
        if let Some(s) = selected {
            objects[s].set_rotation(rotation);
            assert(object_views(objects@) =~= object_views(before).update(
                s as int,
                objects@[s as int]@,
            ));
        }
        *self = Self::assemble(objects, selected);
    }

    /// Sets or clears the extrusion depth of the selected object, if there is
    /// one.
    pub fn set_selected_extrusion(&mut self, extrusion: Option<Scalar>)
        ensures
            final(self)@ == match old(self)@.selected {
                None => old(self)@,
                Some(s) => old(self)@.with_selected_object(
                    ObjectView { extrusion, ..old(self)@.objects[s as int] },
                ),
            },
    {
        let mut taken = Application::new();
        std::mem::swap(self, &mut taken);
        let (objects, selected) = taken.into_parts();
        let mut objects = objects;
        let ghost before = objects@;
        if let Some(s) = selected {
            objects[s].set_extrusion(extrusion);
            assert(object_views(objects@) =~= object_views(before).update(
                s as int,
                objects@[s as int]@,
            ));
        }
        *self = Self::assemble(objects, selected);
    }

    /// Replaces the scale factors of the selected object, if there is one.
    pub fn set_selected_scale(&mut self, scale: Scale)
        ensures
            final(self)@ == match old(self)@.selected {
                None => old(self)@,
                Some(s) => old(self)@.with_selected_object(
                    ObjectView { scale, ..old(self)@.objects[s as int] },
                ),
            },
    {
        let mut taken = Application::new();
        std::mem::swap(self, &mut taken);
        let (objects, selected) = taken.into_parts();
        let mut objects = objects;
        let ghost before = objects@;
        if let Some(s) = selected {
            objects[s].set_scale(scale);
            assert(object_views(objects@) =~= object_views(before).update(
                s as int,
                objects@[s as int]@,
            ));
        }
        *self = Self::assemble(objects, selected);
    }

    /// Merges the buffers of the objects: the vertex records in scene order,
    /// those of the selected object in magenta, and the line indices of each
    /// object raised by the number of records that precede its own.
    fn update(objects: &Vec<Object>, selected: Option<usize>) -> (buffers: (
        Vec<ShaderVertex>,
        Vec<u32>,
    ))
        ensures
            buffers.0@ == (ApplicationView {
                objects: object_views(objects@),
                selected,
            }).vertices(),
            buffers.1@ == (ApplicationView {
                objects: object_views(objects@),
                selected,
            }).lines_indices(),
    {
        let ghost model = ApplicationView { objects: object_views(objects@), selected };
        let magenta = Color { red: SINGLE_ONE, green: SINGLE_ZERO, blue: SINGLE_ONE };
        let mut vertices: Vec<ShaderVertex> = Vec::new();
        let mut lines_indices: Vec<u32> = Vec::new();
        let mut count: usize = 0;
        while count < objects.len()
            invariant
                count <= objects.len(),
                model == (ApplicationView { objects: object_views(objects@), selected }),
                magenta == crate::types::magenta(),
                vertices@ == model.vertices_upto(count as nat),
                lines_indices@ == model.lines_indices_upto(count as nat),
            decreases objects.len() - count,
        {
            let ghost vertices_before = vertices@;
            let ghost lines_before = lines_indices@;
            let vertices_len = vertices.len();
            let offset = truncate_index(vertices_len);
            let object_vertices = objects[count].get_vertices_vec();
            let object_lines_indices = objects[count].get_lines_indices_vec();
            assert(model.objects[count as int] == objects@[count as int]@);
            let is_selected = match selected {
                Some(s) => s == count,
                None => false,
            };

            let mut i: usize = 0;
            while i < object_vertices.len()
                invariant
                    i <= object_vertices.len(),
                    magenta == crate::types::magenta(),
                    is_selected == model.is_selected(count as int),
                    object_vertices@ == model.objects[count as int].vertex_buffer(),
                    vertices@.len() == vertices_before.len() + i,
                    forall|j: int|
                        0 <= j < vertices_before.len() ==> vertices@[j] == vertices_before[j],
                    forall|j: int|
                        0 <= j < i ==> vertices@[vertices_before.len() + j]
                            == model.object_vertices(count as int)[j],
                decreases object_vertices.len() - i,
            {
                let vertex = object_vertices[i];
                if is_selected {
                    vertices.push(
                        ShaderVertex {
                            local: vertex.local,
                            placement: vertex.placement,
                            color: magenta,
                        },
                    );
                } else {
                    vertices.push(vertex);
                }
                i += 1;
            }
            assert(vertices@ =~= vertices_before + model.object_vertices(count as int));

            let mut i: usize = 0;
            while i < object_lines_indices.len()
                invariant
                    i <= object_lines_indices.len(),
                    offset == index32(vertices_len as int),
                    vertices_len == model.vertex_offset(count as int),
                    object_lines_indices@ == model.objects[count as int].line_indices(),
                    lines_indices@.len() == lines_before.len() + i,
                    forall|j: int|
                        0 <= j < lines_before.len() ==> lines_indices@[j] == lines_before[j],
                    forall|j: int|
                        0 <= j < i ==> lines_indices@[lines_before.len() + j] == model.object_lines(
                            count as int,
                        )[j],
                decreases object_lines_indices.len() - i,
            {
                let index = object_lines_indices[i];
                proof {
                    lemma_shifted_index(index, vertices_len as int);
                }
                lines_indices.push(index.wrapping_add(offset));
                i += 1;
            }
            assert(lines_indices@ =~= lines_before + model.object_lines(count as int));

            count += 1;
        }
        (vertices, lines_indices)
    }
}

/// Adding a truncated offset with wrap-around is adding the offset and then
/// truncating.
proof fn lemma_shifted_index(index: u32, offset: int)
    requires
        0 <= offset,
    ensures
        vstd::wrapping::u32_specs::wrapping_add(index, index32(offset)) == index32(
            index as int + offset,
        ),
{
    let m = 0x1_0000_0000int;
    assert(offset == m * (offset / m) + offset % m) by {
        vstd::arithmetic::div_mod::lemma_fundamental_div_mod(offset, m);
    }
    let q = offset / m;
    let r = offset % m;
    assert(0 <= r < m);
    if index + r >= m {
        assert((index + offset) == m * (q + 1) + (index + r - m)) by (nonlinear_arith)
            requires
                offset == m * q + r,
        ;
        vstd::arithmetic::div_mod::lemma_fundamental_div_mod_converse(
            index + offset,
            m,
            q + 1,
            index + r - m,
        );
    } else {
        assert((index + offset) == m * q + (index + r)) by (nonlinear_arith)
            requires
                offset == m * q + r,
        ;
        vstd::arithmetic::div_mod::lemma_fundamental_div_mod_converse(
            index + offset,
            m,
            q,
            index + r,
        );
    }
}

} // verus!
