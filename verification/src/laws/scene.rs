//! How the selection moves and how the buffers of a scene are merged.

use vstd::prelude::*;
use crate::application::{highlighted, ApplicationView};
use crate::laws::buffers::law_line_indices_in_range;
use crate::laws::slots::is_prefix;
use crate::types::{index32, FaceType};

verus! {

/// On an empty scene a step of the selection in either direction selects
/// nothing.
pub proof fn law_selection_on_empty_scene()
    ensures
        ApplicationView::empty().inc_selected() == ApplicationView::empty(),
        ApplicationView::empty().dec_selected() == ApplicationView::empty(),
{
}

/// With nothing selected and at least one object in the scene, a step of the
/// selection in either direction selects the first object.
pub proof fn law_first_selection(scene: ApplicationView)
    requires
        scene.selected is None,
        scene.objects.len() > 0,
    ensures
        scene.inc_selected().selected == Some(0usize),
        scene.dec_selected().selected == Some(0usize),
{
}

/// The selection never leaves the list: a step forward from the last object
/// and a step backward from the first one change nothing, and any other step
/// moves by exactly one.
pub proof fn law_selection_saturates(scene: ApplicationView, s: usize)
    requires
        scene.selected == Some(s),
        s < scene.objects.len(),
    ensures
        scene.inc_selected().selected == Some(
            if s + 1 == scene.objects.len() {
                s
            } else {
                (s + 1) as usize
            },
        ),
        scene.dec_selected().selected == Some(
            if s == 0 {
                s
            } else {
                (s - 1) as usize
            },
        ),
        scene.inc_selected().objects == scene.objects,
        scene.dec_selected().objects == scene.objects,
{
}

/// Removing the only object of a scene leaves an empty scene with nothing
/// selected.
pub proof fn law_remove_only_object(scene: ApplicationView)
    requires
        scene.objects.len() == 1,
    ensures
        scene.del_object(0) == ApplicationView::empty(),
{
    assert(scene.objects.remove(0) =~= Seq::empty());
}

/// Whatever is done to a scene, its selection, if there is one, names one of
/// its objects.
pub proof fn law_selection_stays_valid(scene: ApplicationView, index: int, faces: Seq<FaceType>)
    requires
        scene.well_formed(),
    ensures
        ApplicationView::empty().well_formed(),
        scene.inc_selected().well_formed(),
        scene.dec_selected().well_formed(),
        scene.del_object(index).well_formed(),
        scene.add_object(faces).well_formed(),
{
}

/// Number of entries that precede those of object `k` in the merged line
/// index buffer.
pub open spec fn line_offset(scene: ApplicationView, k: int) -> nat {
    scene.lines_indices_upto(k as nat).len()
}

/// Each object occupies as many places in the merged buffers as its own
/// buffers are long: the offsets of the next object are those of this one
/// plus this one's lengths, and the first object starts at zero.
pub proof fn law_offsets_accumulate(scene: ApplicationView, k: int)
    requires
        0 <= k < scene.objects.len(),
    ensures
        scene.vertex_offset(0) == 0,
        line_offset(scene, 0) == 0,
        scene.vertex_offset(k + 1) == scene.vertex_offset(k) + scene.objects[k].render_count(),
        line_offset(scene, k + 1) == line_offset(scene, k) + scene.objects[k].line_indices().len(),
{
}

/// The records of object `k` stand in the merged vertex buffer one after
/// another from the object's vertex offset, which is the number of records of
/// all the objects before it. They are the object's own records, in magenta
/// when the object is the selected one and unchanged otherwise.
pub proof fn law_merged_vertices(scene: ApplicationView, k: int, i: int)
    requires
        0 <= k < scene.objects.len(),
        0 <= i < scene.objects[k].render_count(),
    ensures
        scene.vertex_offset(k + 1) == scene.vertex_offset(k) + scene.objects[k].render_count(),
        scene.vertex_offset(k) + i < scene.vertices().len(),
        scene.vertices()[scene.vertex_offset(k) + i] == if scene.is_selected(k) {
            highlighted(scene.objects[k].vertex_buffer()[i])
        } else {
            scene.objects[k].vertex_buffer()[i]
        },
{
    lemma_vertices_prefix(scene, (k + 1) as nat, scene.objects.len());
}

/// The merged vertex buffer of fewer objects starts that of more objects.
proof fn lemma_vertices_prefix(scene: ApplicationView, shorter: nat, longer: nat)
    requires
        shorter <= longer,
    ensures
        is_prefix(scene.vertices_upto(shorter), scene.vertices_upto(longer)),
    decreases longer - shorter,
{
    if shorter < longer {
        lemma_vertices_prefix(scene, shorter, (longer - 1) as nat);
    }
}

/// The line indices of object `k` stand in the merged line index buffer one
/// after another from the object's line offset. Each is the object's own
/// index raised by the object's vertex offset, modulo 2^32; where the raised
/// index fits in 32 bits it is stored exactly.
pub proof fn law_merged_lines(scene: ApplicationView, k: int, j: int)
    requires
        0 <= k < scene.objects.len(),
        0 <= j < scene.objects[k].line_indices().len(),
    ensures
        line_offset(scene, k + 1) == line_offset(scene, k) + scene.objects[k].line_indices().len(),
        line_offset(scene, k) + j < scene.lines_indices().len(),
        scene.lines_indices()[line_offset(scene, k) + j] == index32(
            scene.objects[k].line_indices()[j] + scene.vertex_offset(k),
        ),
        scene.objects[k].line_indices()[j] + scene.vertex_offset(k) < 0x1_0000_0000
            ==> scene.lines_indices()[line_offset(scene, k) + j]
            == scene.objects[k].line_indices()[j] + scene.vertex_offset(k),
{
    lemma_lines_prefix(scene, (k + 1) as nat, scene.objects.len());
}

/// The merged line index buffer of fewer objects starts that of more
/// objects.
proof fn lemma_lines_prefix(scene: ApplicationView, shorter: nat, longer: nat)
    requires
        shorter <= longer,
    ensures
        is_prefix(scene.lines_indices_upto(shorter), scene.lines_indices_upto(longer)),
    decreases longer - shorter,
{
    if shorter < longer {
        lemma_lines_prefix(scene, shorter, (longer - 1) as nat);
    }
}

/// A new object is merged behind all the others: the merged buffers of the
/// scene before it stand unchanged at the start of the merged buffers after
/// it, followed by the new object's vertex records and by its line indices
/// raised by the number of records before them.
pub proof fn law_add_object_appends(scene: ApplicationView, faces: Seq<FaceType>)
    requires
        scene.well_formed(),
    ensures
        ({
            let grown = scene.add_object(faces);
            let added = grown.objects[scene.objects.len() as int];
            &&& grown.objects.len() == scene.objects.len() + 1
            &&& grown.selected == scene.selected
            &&& grown.vertices() == scene.vertices() + added.vertex_buffer()
            &&& grown.lines_indices() == scene.lines_indices() + added.line_indices().map_values(
                |i: u32| index32(i as int + scene.vertices().len()),
            )
        }),
{
    let grown = scene.add_object(faces);
    lemma_same_objects_same_buffers(scene, grown, scene.objects.len());
    assert(!grown.is_selected(scene.objects.len() as int));
}

/// Two scenes with the same selection whose first `count` objects are the
/// same have the same merged buffers up to there.
proof fn lemma_same_objects_same_buffers(one: ApplicationView, other: ApplicationView, count: nat)
    requires
        one.selected == other.selected,
        count <= one.objects.len(),
        count <= other.objects.len(),
        forall|k: int| 0 <= k < count ==> one.objects[k] == other.objects[k],
    ensures
        one.vertices_upto(count) == other.vertices_upto(count),
        one.lines_indices_upto(count) == other.lines_indices_upto(count),
    decreases count,
{
    if count > 0 {
        lemma_same_objects_same_buffers(one, other, (count - 1) as nat);
        assert(one.object_vertices(count - 1) == other.object_vertices(count - 1));
        assert(one.vertex_offset(count - 1) == other.vertex_offset(count - 1));
        assert(one.object_lines(count - 1) =~= other.object_lines(count - 1));
    }
}

/// In a scene of two objects the merged line index buffer is the first
/// object's line index buffer followed by the second's, each index of the
/// second raised by the number of vertex records of the first.
pub proof fn law_second_object_offset(scene: ApplicationView, j: int)
    requires
        scene.objects.len() == 2,
        0 <= j < scene.objects[1].line_indices().len(),
        scene.objects[0].render_count() + scene.objects[1].render_count() <= 0x1_0000_0000,
        scene.objects[1].well_formed(),
    ensures
        scene.lines_indices().len() == scene.objects[0].line_indices().len()
            + scene.objects[1].line_indices().len(),
        scene.lines_indices()[scene.objects[0].line_indices().len() + j]
            == scene.objects[1].line_indices()[j] + scene.objects[0].render_count(),
{
    law_offsets_accumulate(scene, 0);
    law_offsets_accumulate(scene, 1);
    law_merged_lines(scene, 1, j);
    law_line_indices_in_range(scene.objects[1]);
}

} // verus!
