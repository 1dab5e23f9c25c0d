use vstd::prelude::*;

verus! {

/// Identifier of one annotation. The drawing data it stands for (strokes, shapes,
/// colours, text) is kept by the caller under this identifier, one identifier
/// per distinct annotation, so that two lists of identifiers are equal exactly
/// when the annotations they stand for are.
pub type AnnotationId = u64;

/// The annotation list of a document with its undo and redo stacks.
///
/// `current` is the list as shown, bottom first; `past` holds the earlier lists
/// that undo goes back to, the most recent last; `future` holds the lists that
/// redo goes forward to, the most recently undone last.
#[verifier::ext_equal]
pub struct Timeline {
    pub current: Seq<AnnotationId>,
    pub past: Seq<Seq<AnnotationId>>,
    pub future: Seq<Seq<AnnotationId>>,
}

impl Timeline {
    /// Remembers the current list for undo and forgets everything that redo could
    /// bring back.
    pub open spec fn recorded(self) -> Timeline {
        Timeline { current: self.current, past: self.past.push(self.current), future: Seq::empty() }
    }

    /// Records the current list, then adds `id` on top.
    pub open spec fn pushed(self, id: AnnotationId) -> Timeline {
        Timeline { current: self.current.push(id), past: self.past.push(self.current), future: Seq::empty() }
    }

    /// Records the current list, then takes out the annotation at `index`.
    pub open spec fn removed(self, index: int) -> Timeline
        recommends
            0 <= index < self.current.len(),
    {
        Timeline { current: self.current.remove(index), past: self.past.push(self.current), future: Seq::empty() }
    }

    /// Records the current list, then puts `id` in place of the annotation at `index`.
    pub open spec fn replaced(self, index: int, id: AnnotationId) -> Timeline
        recommends
            0 <= index < self.current.len(),
    {
        Timeline { current: self.current.update(index, id), past: self.past.push(self.current), future: Seq::empty() }
    }

    /// Takes out the annotation at `index` without recording anything.
    pub open spec fn erased(self, index: int) -> Timeline
        recommends
            0 <= index < self.current.len(),
    {
        Timeline { current: self.current.remove(index), past: self.past, future: self.future }
    }

    /// Puts `id` in place of the annotation at `index` without recording anything.
    pub open spec fn overwritten(self, index: int, id: AnnotationId) -> Timeline
        recommends
            0 <= index < self.current.len(),
    {
        Timeline { current: self.current.update(index, id), past: self.past, future: self.future }
    }

    /// Goes back to the most recent earlier list, keeping the current one for redo;
    /// with nothing to undo, nothing changes.
    pub open spec fn undone(self) -> Timeline {
        if self.past.len() > 0 {
            Timeline { current: self.past.last(), past: self.past.drop_last(), future: self.future.push(self.current) }
        } else {
            self
        }
    }

    /// Goes forward to the most recently undone list, keeping the current one for
    /// undo; with nothing to redo, nothing changes.
    pub open spec fn redone(self) -> Timeline {
        if self.future.len() > 0 {
            Timeline { current: self.future.last(), past: self.past.push(self.current), future: self.future.drop_last() }
        } else {
            self
        }
    }

    /// Forgets the most recent record when it equals the current list.
    pub open spec fn discarded(self) -> Timeline {
        if self.past.len() > 0 && self.past.last() == self.current {
            Timeline { current: self.current, past: self.past.drop_last(), future: self.future }
        } else {
            self
        }
    }

    /// A document with no annotations and nothing to undo or redo.
    pub open spec fn empty() -> Timeline {
        Timeline { current: Seq::empty(), past: Seq::empty(), future: Seq::empty() }
    }
}

/// Undo right after adding an annotation shows the list as it was before, with the
/// same undo history, and keeps the longer list for redo.
pub proof fn law_undo_after_push(t: Timeline, id: AnnotationId)
    ensures
        t.pushed(id).undone() == (Timeline {
            current: t.current,
            past: t.past,
            future: seq![t.current.push(id)],
        }),
{
    assert(t.pushed(id).past.drop_last() =~= t.past);
    assert(t.pushed(id).undone() =~= (Timeline {
        current: t.current,
        past: t.past,
        future: seq![t.current.push(id)],
    }));
}

/// Redo right after adding an annotation and undoing brings the annotation back,
/// with the undo history of the moment after the addition.
pub proof fn law_redo_after_undo_of_push(t: Timeline, id: AnnotationId)
    ensures
        t.pushed(id).undone().redone() == t.pushed(id),
{
    law_undo_after_push(t, id);
    assert(t.pushed(id).undone().redone() =~= t.pushed(id));
}

/// Redo undoes an undo: when there is something to undo, undoing then redoing
/// gives back the same list, undo history and redo history.
pub proof fn law_redo_inverts_undo(t: Timeline)
    requires
        t.past.len() > 0,
    ensures
        t.undone().redone() == t,
{
    assert(t.undone().future.drop_last() =~= t.future);
    assert(t.undone().past.push(t.undone().current) =~= t.past);
    assert(t.undone().redone() =~= t);
}

/// Undo undoes a redo: when there is something to redo, redoing then undoing
/// gives back the same list, undo history and redo history.
pub proof fn law_undo_inverts_redo(t: Timeline)
    requires
        t.future.len() > 0,
    ensures
        t.redone().undone() == t,
{
    assert(t.redone().past.drop_last() =~= t.past);
    assert(t.redone().future.push(t.redone().current) =~= t.future);
    assert(t.redone().undone() =~= t);
}

/// Any edit forgets what redo could bring back: after adding, removing or
/// replacing an annotation, redo changes nothing.
pub proof fn law_edit_clears_redo(t: Timeline, id: AnnotationId, index: int)
    requires
        0 <= index < t.current.len(),
    ensures
        t.pushed(id).redone() == t.pushed(id),
        t.removed(index).redone() == t.removed(index),
        t.replaced(index, id).redone() == t.replaced(index, id),
        t.recorded().redone() == t.recorded(),
{
}

/// Undo right after removing or replacing an annotation shows the list as it was
/// before, with the same undo history.
pub proof fn law_undo_restores_edit(t: Timeline, id: AnnotationId, index: int)
    requires
        0 <= index < t.current.len(),
    ensures
        t.removed(index).undone().current == t.current,
        t.removed(index).undone().past == t.past,
        t.replaced(index, id).undone().current == t.current,
        t.replaced(index, id).undone().past == t.past,
{
    assert(t.removed(index).past.drop_last() =~= t.past);
    assert(t.replaced(index, id).past.drop_last() =~= t.past);
}

/// Undo right after an erasure that recorded the change (the first erasure of an
/// eraser drag) shows the list as it was before the erasure.
pub proof fn law_undo_restores_erasure(t: Timeline, index: int)
    requires
        0 <= index < t.current.len(),
    ensures
        t.recorded().erased(index).undone().current == t.current,
        t.recorded().erased(index).undone().past == t.past,
{
    assert(t.recorded().erased(index).past.drop_last() =~= t.past);
}

/// A record that nothing followed is dropped again: recording and then discarding
/// leaves the list and the undo history as they were.
pub proof fn law_discard_after_record(t: Timeline)
    ensures
        t.recorded().discarded().current == t.current,
        t.recorded().discarded().past == t.past,
{
    assert(t.recorded().past.drop_last() =~= t.past);
}

/// With nothing to undo, undo changes nothing; with nothing to redo, redo changes
/// nothing.
pub proof fn law_idle_undo_redo(t: Timeline)
    ensures
        t.past.len() == 0 ==> t.undone() == t,
        t.future.len() == 0 ==> t.redone() == t,
{
}

/// Undo and redo move lists between the two stacks without losing any: the number
/// of lists held in all stays the same.
pub proof fn law_undo_redo_keep_count(t: Timeline)
    ensures
        t.undone().past.len() + t.undone().future.len() == t.past.len() + t.future.len(),
        t.redone().past.len() + t.redone().future.len() == t.past.len() + t.future.len(),
{
}

} // verus!

verus! {

/// The annotation list and stacks after one step of an eraser drag: `hit` is the
/// index of the annotation under the pointer, if any, and `changed` tells whether
/// the drag has already recorded a change. The first erasure of a drag records.
pub open spec fn erase_step_of(t: Timeline, hit: Option<int>, changed: bool) -> Timeline {
    match hit {
        Some(i) => (if changed {
            t
        } else {
            t.recorded()
        }).erased(i),
        None => t,
    }
}

/// The annotation list and stacks after the steps of an eraser drag, one hit (or
/// none) per step.
pub open spec fn erase_drag(t: Timeline, hits: Seq<Option<int>>, changed: bool) -> Timeline
    decreases hits.len(),
{
    if hits.len() == 0 {
        t
    } else {
        erase_drag(erase_step_of(t, hits[0], changed), hits.drop_first(), changed || hits[0] is Some)
    }
}

/// Whether some step of a drag erased an annotation.
pub open spec fn erases_any(hits: Seq<Option<int>>) -> bool {
    exists|k: int| 0 <= k < hits.len() && #[trigger] hits[k] is Some
}

/// The annotation list and stacks after one step of moving the annotation at
/// `index`: the first movement of a drag records, and a movement puts `id` (the
/// shifted annotation) in its place.
pub open spec fn move_step_of(t: Timeline, index: int, moved: bool, id: AnnotationId, changed: bool) -> Timeline {
    let before = if !changed && moved {
        t.recorded()
    } else {
        t
    };
    if moved && 0 <= index < t.current.len() {
        before.overwritten(index, id)
    } else {
        before
    }
}

/// The annotation list and stacks after the steps of a select drag, each step
/// telling whether the pointer moved and giving the shifted annotation.
pub open spec fn move_drag(t: Timeline, index: int, steps: Seq<(bool, AnnotationId)>, changed: bool) -> Timeline
    decreases steps.len(),
{
    if steps.len() == 0 {
        t
    } else {
        move_drag(
            move_step_of(t, index, steps[0].0, steps[0].1, changed),
            index,
            steps.drop_first(),
            changed || steps[0].0,
        )
    }
}

/// Whether the pointer moved in some step of a drag.
pub open spec fn moves_any(steps: Seq<(bool, AnnotationId)>) -> bool {
    exists|k: int| 0 <= k < steps.len() && #[trigger] steps[k].0
}

/// Once a drag has recorded, its further eraser steps leave both stacks alone.
proof fn lemma_erase_drag_after_record(t: Timeline, hits: Seq<Option<int>>)
    ensures
        erase_drag(t, hits, true).past == t.past,
        erase_drag(t, hits, true).future == t.future,
    decreases hits.len(),
{
    if hits.len() > 0 {
        lemma_erase_drag_after_record(erase_step_of(t, hits[0], true), hits.drop_first());
    }
}

/// Once a drag has recorded, its further move steps leave both stacks alone.
proof fn lemma_move_drag_after_record(t: Timeline, index: int, steps: Seq<(bool, AnnotationId)>)
    ensures
        move_drag(t, index, steps, true).past == t.past,
        move_drag(t, index, steps, true).future == t.future,
    decreases steps.len(),
{
    if steps.len() > 0 {
        lemma_move_drag_after_record(move_step_of(t, index, steps[0].0, steps[0].1, true), index, steps.drop_first());
    }
}

/// A whole eraser drag makes at most one record: when it erases something, the
/// undo stack gains exactly the list from before the drag and the redo stack is
/// emptied, so a single undo restores every annotation the drag erased; when it
/// erases nothing, nothing changes.
pub proof fn law_eraser_drag_records_once(t: Timeline, hits: Seq<Option<int>>)
    ensures
        erases_any(hits) ==> {
            &&& erase_drag(t, hits, false).past == t.past.push(t.current)
            &&& erase_drag(t, hits, false).future == Seq::<Seq<AnnotationId>>::empty()
            &&& erase_drag(t, hits, false).undone().current == t.current
            &&& erase_drag(t, hits, false).undone().past == t.past
        },
        !erases_any(hits) ==> erase_drag(t, hits, false) == t,
    decreases hits.len(),
{
    if hits.len() > 0 {
        let rest = hits.drop_first();
        if hits[0] is Some {
            lemma_erase_drag_after_record(erase_step_of(t, hits[0], false), rest);
            assert(erases_any(hits)) by {
                assert(hits[0] is Some);
            }
        } else {
            law_eraser_drag_records_once(t, rest);
            assert(erases_any(hits) == erases_any(rest)) by {
                if erases_any(hits) {
                    let k = choose|k: int| 0 <= k < hits.len() && #[trigger] hits[k] is Some;
                    assert(rest[k - 1] is Some);
                }
                if erases_any(rest) {
                    let k = choose|k: int| 0 <= k < rest.len() && #[trigger] rest[k] is Some;
                    assert(hits[k + 1] is Some);
                }
            }
        }
        if erases_any(hits) {
            let r = erase_drag(t, hits, false);
            assert(r.past.drop_last() =~= t.past);
        }
    }
}

/// A whole select drag makes at most one record: when the pointer moves, the undo
/// stack gains exactly the list from before the drag and the redo stack is
/// emptied, so a single undo puts the annotation back where it was; when the
/// pointer never moves, nothing changes.
pub proof fn law_select_drag_records_once(t: Timeline, index: int, steps: Seq<(bool, AnnotationId)>)
    ensures
        moves_any(steps) ==> {
            &&& move_drag(t, index, steps, false).past == t.past.push(t.current)
            &&& move_drag(t, index, steps, false).future == Seq::<Seq<AnnotationId>>::empty()
            &&& move_drag(t, index, steps, false).undone().current == t.current
            &&& move_drag(t, index, steps, false).undone().past == t.past
        },
        !moves_any(steps) ==> move_drag(t, index, steps, false) == t,
    decreases steps.len(),
{
    if steps.len() > 0 {
        let rest = steps.drop_first();
        if steps[0].0 {
            lemma_move_drag_after_record(move_step_of(t, index, steps[0].0, steps[0].1, false), index, rest);
            assert(moves_any(steps)) by {
                assert(steps[0].0);
            }
        } else {
            law_select_drag_records_once(t, index, rest);
            assert(moves_any(steps) == moves_any(rest)) by {
                if moves_any(steps) {
                    let k = choose|k: int| 0 <= k < steps.len() && #[trigger] steps[k].0;
                    assert(rest[k - 1].0);
                }
                if moves_any(rest) {
                    let k = choose|k: int| 0 <= k < rest.len() && #[trigger] rest[k].0;
                    assert(steps[k + 1].0);
                }
            }
        }
        if moves_any(steps) {
            let r = move_drag(t, index, steps, false);
            assert(r.past.drop_last() =~= t.past);
        }
    }
}


/// Discarding drops the most recent record only when it equals the current list
/// element by element: a record that differs in any element (even one of the
/// same length) stays, and when it does equal the list, only that record goes.
pub proof fn law_discard_only_equal_record(t: Timeline)
    ensures
        t.past.len() == 0 ==> t.discarded() == t,
        t.past.len() > 0 && (exists|k: int| 0 <= k < t.current.len() && t.past.last()[k] != t.current[k])
            ==> t.discarded() == t,
        t.past.len() > 0 && t.past.last().len() != t.current.len() ==> t.discarded() == t,
        t.past.len() > 0 && t.past.last() == t.current ==> {
            &&& t.discarded().current == t.current
            &&& t.discarded().past.len() == t.past.len() - 1
            &&& forall|k: int| 0 <= k < t.past.len() - 1 ==> t.discarded().past[k] == t.past[k]
            &&& t.discarded().future == t.future
        },
{
}

/// Removing the annotation at `index` keeps the stacking order of the rest:
/// every annotation below it keeps its index and every one above it moves down
/// by exactly one. This holds for a recorded removal and for an erasure alike.
pub proof fn law_remove_keeps_order(t: Timeline, index: int)
    requires
        0 <= index < t.current.len(),
    ensures
        t.removed(index).current.len() == t.current.len() - 1,
        forall|j: int| 0 <= j < index ==> t.removed(index).current[j] == t.current[j],
        forall|j: int| index <= j < t.current.len() - 1 ==> t.removed(index).current[j] == t.current[j + 1],
        t.erased(index).current.len() == t.current.len() - 1,
        forall|j: int| 0 <= j < index ==> t.erased(index).current[j] == t.current[j],
        forall|j: int| index <= j < t.current.len() - 1 ==> t.erased(index).current[j] == t.current[j + 1],
{
}

/// Putting an annotation in place of the one at `index` changes that entry only:
/// the list keeps its length, holds `id` at `index`, and every other index keeps
/// its annotation. This holds for a recorded replacement and for a step of a
/// move alike.
pub proof fn law_replace_in_place(t: Timeline, index: int, id: AnnotationId)
    requires
        0 <= index < t.current.len(),
    ensures
        t.replaced(index, id).current.len() == t.current.len(),
        t.replaced(index, id).current[index] == id,
        forall|j: int| 0 <= j < t.current.len() && j != index ==> t.replaced(index, id).current[j] == t.current[j],
        t.overwritten(index, id).current.len() == t.current.len(),
        t.overwritten(index, id).current[index] == id,
        forall|j: int| 0 <= j < t.current.len() && j != index ==> t.overwritten(index, id).current[j] == t.current[j],
        forall|j: int| 0 <= j < t.current.len() && j != index ==>
            move_step_of(t, index, true, id, false).current[j] == t.current[j],
        move_step_of(t, index, true, id, false).current[index] == id,
        move_step_of(t, index, true, id, false).current.len() == t.current.len(),
{
}

} // verus!
