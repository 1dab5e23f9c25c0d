use vstd::prelude::*;

use crate::pixelate::PixelateCache;
use crate::timeline::{AnnotationId, Timeline, erase_step_of, move_step_of};
use crate::tool::Tool;

verus! {

/// The index of the topmost `true` in `hits`: the last one, since later
/// annotations are drawn over earlier ones.
pub open spec fn topmost_hit(hits: Seq<bool>) -> Option<int>
    decreases hits.len(),
{
    if hits.len() == 0 {
        None
    } else if hits.last() {
        Some(hits.len() - 1)
    } else {
        topmost_hit(hits.drop_last())
    }
}

/// `topmost_hit` finds a hit when there is one, and no hit lies above the one it
/// finds.
pub proof fn lemma_topmost_hit(hits: Seq<bool>)
    ensures
        match topmost_hit(hits) {
            Some(i) => 0 <= i < hits.len() && hits[i] && forall|j: int| i < j < hits.len() ==> !hits[j],
            None => forall|j: int| 0 <= j < hits.len() ==> !hits[j],
        },
    decreases hits.len(),
{
    if hits.len() > 0 && !hits.last() {
        lemma_topmost_hit(hits.drop_last());
        assert forall|j: int| 0 <= j < hits.len() - 1 implies hits[j] == hits.drop_last()[j] by {}
    }
}

/// Picks the annotation under the pointer: given, for each annotation from the
/// bottom up, whether its bounds contain the pointer, the result is the index of
/// the topmost one that does, or `None` when none does.
pub fn hit_test(hits: &[bool]) -> (r: Option<usize>)
    ensures
        match r {
            Some(i) => topmost_hit(hits@) == Some(i as int),
            None => topmost_hit(hits@) is None,
        },
        match r {
            Some(i) => i < hits@.len() && hits@[i as int] && forall|j: int| i < j < hits@.len() ==> !hits@[j],
            None => forall|j: int| 0 <= j < hits@.len() ==> !hits@[j],
        },
{
    proof {
        lemma_topmost_hit(hits@);
    }
    let mut i: usize = hits.len();
    while i > 0
        invariant
            i <= hits@.len(),
            forall|j: int| i <= j < hits@.len() ==> !hits@[j],
        decreases i,
    {
        i = i - 1;
        if hits[i] {
            proof {
                lemma_topmost_hit(hits@);
                match topmost_hit(hits@) {
                    Some(k) => {
                        if k < i {
                            assert(hits@[i as int]);
                        } else if k > i {
                            assert(hits@[k]);
                        }
                    },
                    None => {
                        assert(hits@[i as int]);
                    },
                }
            }
            return Some(i);
        }
    }
    None
}

/// The lists of annotation identifiers that a stack of lists holds.
pub open spec fn id_lists(stack: Seq<Vec<AnnotationId>>) -> Seq<Seq<AnnotationId>> {
    stack.map_values(|list: Vec<AnnotationId>| list@)
}

/// The drawing tools are the pen, rectangle, circle, line, arrow and blur; the
/// select tool, the eraser and the text tool draw no shape when a drag starts.
pub proof fn law_drawing_tools()
    ensures
        draws_shape(Tool::Pen),
        draws_shape(Tool::Rect),
        draws_shape(Tool::Circle),
        draws_shape(Tool::Line),
        draws_shape(Tool::Arrow),
        draws_shape(Tool::Blur),
        !draws_shape(Tool::Select),
        !draws_shape(Tool::Eraser),
        !draws_shape(Tool::Text),
{
}

/// Whether `tool` draws a new shape when a drag starts.
pub open spec fn draws_shape(tool: Tool) -> bool {
    match tool {
        Tool::Pen | Tool::Rect | Tool::Circle | Tool::Line | Tool::Arrow | Tool::Blur => true,
        _ => false,
    }
}

/// The editor's document and interaction state.
///
/// `B` is the background image, `P` a pointer position and `D` a shape being drawn;
/// the library moves values of these types but never looks inside them. The
/// annotations are held by identifier (see [`AnnotationId`]).
pub struct EditorState<B, P, D> {
    pub background: Option<B>,
    pub annotations: Vec<AnnotationId>,
    pub history: Vec<Vec<AnnotationId>>,
    pub redo: Vec<Vec<AnnotationId>>,
    pub tool: Tool,
    pub draft: Option<D>,
    pub drag_start_view: Option<P>,
    pub drag_last_image: Option<P>,
    pub viewport_width: i32,
    pub viewport_height: i32,
    pub fit_to_window: bool,
    pub selected: Option<usize>,
    pub pixelate_cache: PixelateCache<B>,
}

/// Whether two lists of identifiers are equal.
fn same_list(a: &Vec<AnnotationId>, b: &Vec<AnnotationId>) -> (r: bool)
    ensures
        r == (a@ == b@),
{
    if a.len() != b.len() {
        return false;
    }
    let n = a.len();
    let mut i: usize = 0;
    while i < n
        invariant
            n == a@.len(),
            n == b@.len(),
            i <= n,
            forall|j: int| 0 <= j < i ==> a@[j] == b@[j],
        decreases n - i,
    {
        if a[i] != b[i] {
            return false;
        }
        i = i + 1;
    }
    assert(a@ =~= b@);
    true
}

impl<B, P, D> EditorState<B, P, D> {
    /// The annotation list with its undo and redo stacks.
    pub open spec fn timeline(&self) -> Timeline {
        Timeline { current: self.annotations@, past: id_lists(self.history@), future: id_lists(self.redo@) }
    }

    /// Whether everything but the annotation list, its stacks, the shape being drawn
    /// and the selection is the same in `self` and `other`.
    pub open spec fn same_surroundings(&self, other: &Self) -> bool {
        &&& self.background == other.background
        &&& self.tool == other.tool
        &&& self.drag_start_view == other.drag_start_view
        &&& self.drag_last_image == other.drag_last_image
        &&& self.viewport_width == other.viewport_width
        &&& self.viewport_height == other.viewport_height
        &&& self.fit_to_window == other.fit_to_window
        &&& self.pixelate_cache == other.pixelate_cache
    }

    /// A fresh editor: no background, no annotations, nothing to undo or redo,
    /// the pen tool, nothing drawn or selected, no drag under way, a viewport of
    /// zero size, fitting the image to the window, and an empty pixelation cache.
    pub fn new() -> (r: Self)
        ensures
            r.background is None,
            r.timeline() == Timeline::empty(),
            r.tool == Tool::Pen,
            r.draft is None,
            r.drag_start_view is None,
            r.drag_last_image is None,
            r.viewport_width == 0,
            r.viewport_height == 0,
            r.fit_to_window,
            r.selected is None,
            r.pixelate_cache@ == Map::<crate::pixelate::PixelateCacheKey, B>::empty(),
            r.pixelate_cache.count() == 0,
    {
        let r = EditorState {
            background: None,
            annotations: Vec::new(),
            history: Vec::new(),
            redo: Vec::new(),
            tool: Tool::Pen,
            draft: None,
            drag_start_view: None,
            drag_last_image: None,
            viewport_width: 0,
            viewport_height: 0,
            fit_to_window: true,
            selected: None,
            pixelate_cache: PixelateCache::new(),
        };
        assert(r.timeline() =~= Timeline::empty());
        r
    }

    /// Starts a new document on `background`: the annotations, both stacks, the
    /// shape being drawn, the drag, the selection and the pixelation cache are all
    /// cleared; the tool, the viewport and the fit setting stay.
    pub fn set_background(&mut self, background: B)
        ensures
            final(self).background == Some(background),
            final(self).timeline() == Timeline::empty(),
            final(self).draft is None,
            final(self).drag_start_view is None,
            final(self).drag_last_image is None,
            final(self).selected is None,
            final(self).pixelate_cache@ == Map::<crate::pixelate::PixelateCacheKey, B>::empty(),
            final(self).pixelate_cache.count() == 0,
            final(self).tool == old(self).tool,
            final(self).viewport_width == old(self).viewport_width,
            final(self).viewport_height == old(self).viewport_height,
            final(self).fit_to_window == old(self).fit_to_window,
    {
        self.background = Some(background);
        self.annotations.clear();
        self.history.clear();
        self.redo.clear();
        self.draft = None;
        self.drag_start_view = None;
        self.drag_last_image = None;
        self.selected = None;
        self.pixelate_cache.clear();
        assert(self.timeline() =~= Timeline::empty());
    }

    /// Remembers the current annotations for undo and forgets what redo could
    /// bring back.
    pub fn record_change(&mut self)
        ensures
            final(self).timeline() == old(self).timeline().recorded(),
            final(self).same_surroundings(old(self)),
            final(self).draft == old(self).draft,
            final(self).selected == old(self).selected,
    {
        let snapshot = self.annotations.clone();
        assert(snapshot@ =~= self.annotations@);
        let ghost before = self.history@;
        self.history.push(snapshot);
        self.redo.clear();
        assert(id_lists(self.history@) =~= id_lists(before).push(snapshot@));
        assert(id_lists(self.redo@) =~= Seq::<Seq<AnnotationId>>::empty());
    }

    /// Records a change, then adds `annotation` on top of the others.
    pub fn push_annotation(&mut self, annotation: AnnotationId)
        ensures
            final(self).timeline() == old(self).timeline().pushed(annotation),
            final(self).same_surroundings(old(self)),
            final(self).draft == old(self).draft,
            final(self).selected == old(self).selected,
    {
        self.record_change();
        self.annotations.push(annotation);
    }

    /// Goes back to the annotations before the most recent change, keeping the
    /// current ones for redo, and drops the shape being drawn and the selection.
    /// With nothing to undo, nothing changes.
    pub fn undo(&mut self)
        ensures
            final(self).timeline() == old(self).timeline().undone(),
            final(self).same_surroundings(old(self)),
            old(self).history@.len() > 0 ==> final(self).draft is None && final(self).selected is None,
            old(self).history@.len() == 0 ==> *final(self) == *old(self),
    {
        let ghost before = self.timeline();
        if self.history.len() > 0 {
            let previous = self.history.pop().unwrap();
            let current = self.annotations.clone();
            assert(current@ =~= self.annotations@);
            let ghost redo_before = self.redo@;
            self.redo.push(current);
            self.annotations = previous;
            self.draft = None;
            self.selected = None;
            assert(id_lists(self.redo@) =~= id_lists(redo_before).push(current@));
            assert(self.timeline() =~= before.undone());
        }
    }

    /// Goes forward to the annotations most recently undone, keeping the current
    /// ones for undo, and drops the shape being drawn and the selection. With
    /// nothing to redo, nothing changes.
    pub fn redo(&mut self)
        ensures
            final(self).timeline() == old(self).timeline().redone(),
            final(self).same_surroundings(old(self)),
            old(self).redo@.len() > 0 ==> final(self).draft is None && final(self).selected is None,
            old(self).redo@.len() == 0 ==> *final(self) == *old(self),
    {
        let ghost before = self.timeline();
        if self.redo.len() > 0 {
            let next = self.redo.pop().unwrap();
            let current = self.annotations.clone();
            assert(current@ =~= self.annotations@);
            let ghost history_before = self.history@;
            self.history.push(current);
            self.annotations = next;
            self.draft = None;
            self.selected = None;
            assert(id_lists(self.history@) =~= id_lists(history_before).push(current@));
            assert(self.timeline() =~= before.redone());
        }
    }

    /// Forgets the most recent record when the annotations have not changed since.
    pub fn discard_unchanged_record(&mut self)
        ensures
            final(self).timeline() == old(self).timeline().discarded(),
            final(self).same_surroundings(old(self)),
            final(self).draft == old(self).draft,
            final(self).selected == old(self).selected,
            final(self).annotations@ == old(self).annotations@,
            old(self).history@.len() > 0 && old(self).history@.last()@ == old(self).annotations@
                ==> final(self).history@ == old(self).history@.drop_last(),
            !(old(self).history@.len() > 0 && old(self).history@.last()@ == old(self).annotations@)
                ==> final(self).history@ == old(self).history@,
    {
        let ghost before = self.timeline();
        let n = self.history.len();
        if n > 0 {
            let unchanged = same_list(&self.history[n - 1], &self.annotations);
            if unchanged {
                self.history.pop();
                assert(id_lists(self.history@) =~= before.past.drop_last());
                assert(self.timeline() =~= before.discarded());
            } else {
                assert(before.past.last() != before.current);
            }
        }
    }

    /// Takes out the annotation at `index`, recording the change, and returns it;
    /// an index past the end changes nothing and returns `None`.
    pub fn remove_annotation(&mut self, index: usize) -> (r: Option<AnnotationId>)
        ensures
            index >= old(self).annotations@.len() ==> r is None && *final(self) == *old(self),
            index < old(self).annotations@.len() ==> {
                &&& r == Some(old(self).annotations@[index as int])
                &&& final(self).annotations@ == old(self).annotations@.subrange(0, index as int)
                    + old(self).annotations@.subrange(index as int + 1, old(self).annotations@.len() as int)
                &&& final(self).timeline() == old(self).timeline().removed(index as int)
                &&& final(self).same_surroundings(old(self))
                &&& final(self).draft == old(self).draft
                &&& final(self).selected == old(self).selected
            },
    {
        if index >= self.annotations.len() {
            return None;
        }
        self.record_change();
        Some(self.annotations.remove(index))
    }

    /// Erases the annotation under the pointer without recording the change, and
    /// clears the selection. `hits` tells, for each annotation from the bottom up,
    /// whether its bounds contain the pointer; the topmost of those is erased. The
    /// result tells whether one was.
    pub fn erase_at(&mut self, hits: &[bool]) -> (erased: bool)
        requires
            hits@.len() == old(self).annotations@.len(),
        ensures
            erased == topmost_hit(hits@) is Some,
            match topmost_hit(hits@) {
                Some(i) => {
                    &&& final(self).timeline() == old(self).timeline().erased(i)
                    &&& final(self).same_surroundings(old(self))
                    &&& final(self).draft == old(self).draft
                    &&& final(self).selected is None
                },
                None => *final(self) == *old(self),
            },
    {
        if let Some(index) = hit_test(hits) {
            self.annotations.remove(index);
            self.selected = None;
            true
        } else {
            false
        }
    }

    /// Switches to `tool`, dropping the shape being drawn and the selection.
    pub fn select_tool(&mut self, tool: Tool)
        ensures
            final(self).tool == tool,
            final(self).draft is None,
            final(self).selected is None,
            final(self).timeline() == old(self).timeline(),
            final(self).background == old(self).background,
            final(self).drag_start_view == old(self).drag_start_view,
            final(self).drag_last_image == old(self).drag_last_image,
            final(self).viewport_width == old(self).viewport_width,
            final(self).viewport_height == old(self).viewport_height,
            final(self).fit_to_window == old(self).fit_to_window,
            final(self).pixelate_cache == old(self).pixelate_cache,
    {
        self.tool = tool;
        self.draft = None;
        self.selected = None;
    }

    /// Deletes the selected annotation, recording the change, and clears the
    /// selection. The result tells whether an annotation was deleted: false when
    /// nothing was selected or the selection was past the end of the list.
    pub fn delete_selected(&mut self) -> (deleted: bool)
        ensures
            final(self).selected is None,
            final(self).same_surroundings(old(self)),
            final(self).draft == old(self).draft,
            deleted == (old(self).selected matches Some(i) && i < old(self).annotations@.len()),
            deleted ==> final(self).timeline() == old(self).timeline().removed(old(self).selected.unwrap() as int),
            !deleted ==> final(self).timeline() == old(self).timeline(),
    {
        if let Some(index) = self.selected {
            self.selected = None;
            if self.remove_annotation(index).is_some() {
                return true;
            }
        }
        false
    }

    /// One step of the eraser during a drag. `changed` tells whether this drag has
    /// already recorded a change. When an annotation lies under the pointer, the
    /// first erasure of the drag records the change, the topmost hit is erased and
    /// the result is true; otherwise nothing changes and the result is `changed`.
    pub fn erase_step(&mut self, hits: &[bool], changed: bool) -> (r: bool)
        requires
            hits@.len() == old(self).annotations@.len(),
        ensures
            match topmost_hit(hits@) {
                Some(i) => {
                    &&& r
                    &&& final(self).timeline() == (if changed {
                        old(self).timeline()
                    } else {
                        old(self).timeline().recorded()
                    }).erased(i)
                    &&& final(self).same_surroundings(old(self))
                    &&& final(self).draft == old(self).draft
                    &&& final(self).selected is None
                },
                None => r == changed && *final(self) == *old(self),
            },
            final(self).timeline() == erase_step_of(old(self).timeline(), topmost_hit(hits@), changed),
    {
        proof {
            lemma_topmost_hit(hits@);
        }
        if hit_test(hits).is_some() {
            if !changed {
                self.record_change();
            }
            self.erase_at(hits);
            true
        } else {
            changed
        }
    }

    /// Starts a drag at pointer position `view` (in widget coordinates), which is
    /// `image` in image coordinates. `hits` tells, for each annotation from the
    /// bottom up, whether its bounds contain the pointer; `draft` is the new shape
    /// for a drawing tool, started at the pointer.
    ///
    /// The drag's start and last positions are kept. Then, by tool: select picks
    /// the topmost hit (dropping the shape being drawn when it finds one); the
    /// eraser takes one [`erase_step`](Self::erase_step) as the first of the drag;
    /// text drops the shape being drawn; a drawing tool takes `draft` as the shape
    /// being drawn. The result tells whether the eraser recorded a change.
    pub fn begin_drag(&mut self, view: P, image: P, hits: &[bool], draft: Option<D>) -> (erased: bool)
        requires
            hits@.len() == old(self).annotations@.len(),
        ensures
            final(self).drag_start_view == Some(view),
            final(self).drag_last_image == Some(image),
            final(self).background == old(self).background,
            final(self).tool == old(self).tool,
            final(self).viewport_width == old(self).viewport_width,
            final(self).viewport_height == old(self).viewport_height,
            final(self).fit_to_window == old(self).fit_to_window,
            final(self).pixelate_cache == old(self).pixelate_cache,
            old(self).tool == Tool::Eraser ==> match topmost_hit(hits@) {
                Some(i) => {
                    &&& erased
                    &&& final(self).timeline() == old(self).timeline().recorded().erased(i)
                    &&& final(self).draft == old(self).draft
                    &&& final(self).selected is None
                },
                None => {
                    &&& !erased
                    &&& final(self).timeline() == old(self).timeline()
                    &&& final(self).draft == old(self).draft
                    &&& final(self).selected == old(self).selected
                },
            },
            old(self).tool != Tool::Eraser ==> !erased && final(self).timeline() == old(self).timeline(),
            old(self).tool == Tool::Select ==> match topmost_hit(hits@) {
                Some(i) => final(self).selected == Some(i as usize) && final(self).draft is None,
                None => final(self).selected is None && final(self).draft == old(self).draft,
            },
            old(self).tool == Tool::Text ==> final(self).draft is None && final(self).selected == old(self).selected,
            draws_shape(old(self).tool) ==> final(self).draft == draft && final(self).selected == old(self).selected,
            old(self).tool == Tool::Pen ==> final(self).draft == draft,
    {
        self.drag_start_view = Some(view);
        self.drag_last_image = Some(image);
        match self.tool {
            Tool::Select => {
                self.selected = hit_test(hits);
                if self.selected.is_some() {
                    self.draft = None;
                }
                false
            },
            Tool::Eraser => self.erase_step(hits, false),
            Tool::Text => {
                self.draft = None;
                false
            },
            _ => {
                self.draft = draft;
                false
            },
        }
    }

    /// One step of moving the selected annotation during a drag with the select
    /// tool. `moved` tells whether the pointer moved since the last step, `changed`
    /// whether this drag has already recorded a change, and `moved_id` identifies
    /// the selected annotation shifted by that movement.
    ///
    /// Only when something is selected and the drag has a last position: the first
    /// movement of the drag records the change; then, when the selection is within
    /// the list, the selected annotation becomes `moved_id` if the pointer moved
    /// (a shift by nothing leaves it as it is), and `current` becomes the last
    /// position. The result tells whether the drag has recorded a change.
    pub fn drag_select(&mut self, current: P, moved: bool, changed: bool, moved_id: AnnotationId) -> (r: bool)
        ensures
            ({
                let active = old(self).selected is Some && old(self).drag_last_image is Some;
                let records = active && !changed && moved;
                let before = if records {
                    old(self).timeline().recorded()
                } else {
                    old(self).timeline()
                };
                let index = old(self).selected.unwrap() as int;
                let follows = active && index < old(self).annotations@.len();
                &&& r == (changed || records)
                &&& follows && moved ==> final(self).timeline() == before.overwritten(index, moved_id)
                &&& follows && moved ==> final(self).annotations@ == old(self).annotations@.update(index, moved_id)
                &&& !(follows && moved) ==> final(self).timeline() == before
                &&& follows ==> final(self).drag_last_image == Some(current)
                &&& !follows ==> final(self).drag_last_image == old(self).drag_last_image
                &&& active ==> final(self).timeline() == move_step_of(old(self).timeline(), index, moved, moved_id, changed)
                &&& !active ==> final(self).timeline() == old(self).timeline()
            }),
            final(self).background == old(self).background,
            final(self).tool == old(self).tool,
            final(self).drag_start_view == old(self).drag_start_view,
            final(self).viewport_width == old(self).viewport_width,
            final(self).viewport_height == old(self).viewport_height,
            final(self).fit_to_window == old(self).fit_to_window,
            final(self).pixelate_cache == old(self).pixelate_cache,
            final(self).draft == old(self).draft,
            final(self).selected == old(self).selected,
    {
        let mut changed = changed;
        if let Some(index) = self.selected {
            if self.drag_last_image.is_some() {
                if !changed && moved {
                    self.record_change();
                    changed = true;
                }
                if index < self.annotations.len() {
                    if moved {
                        self.annotations.set(index, moved_id);
                    }
                    self.drag_last_image = Some(current);
                }
            }
        }
        changed
    }

    /// Ends a drag. Without a drag under way nothing changes and the result is
    /// `None`. Otherwise the drag's start is cleared; with the select tool, a drag
    /// that moved nothing (`move_changed` false) discards its unchanged record, the
    /// last position is cleared and the result is `None`; with any other tool the
    /// shape being drawn is taken out and returned, for the caller to finish and
    /// add.
    pub fn finish_drag(&mut self, move_changed: bool) -> (r: Option<D>)
        ensures
            old(self).drag_start_view is None ==> r is None && *final(self) == *old(self),
            old(self).drag_start_view is Some ==> {
                &&& final(self).drag_start_view is None
                &&& final(self).background == old(self).background
                &&& final(self).tool == old(self).tool
                &&& final(self).viewport_width == old(self).viewport_width
                &&& final(self).viewport_height == old(self).viewport_height
                &&& final(self).fit_to_window == old(self).fit_to_window
                &&& final(self).pixelate_cache == old(self).pixelate_cache
                &&& final(self).selected == old(self).selected
                &&& old(self).tool == Tool::Select ==> {
                    &&& r is None
                    &&& final(self).drag_last_image is None
                    &&& final(self).draft == old(self).draft
                    &&& final(self).timeline() == if move_changed {
                        old(self).timeline()
                    } else {
                        old(self).timeline().discarded()
                    }
                }
                &&& old(self).tool != Tool::Select ==> {
                    &&& r == old(self).draft
                    &&& final(self).draft is None
                    &&& final(self).drag_last_image == old(self).drag_last_image
                    &&& final(self).timeline() == old(self).timeline()
                }
            },
    {
        if self.drag_start_view.is_none() {
            return None;
        }
        self.drag_start_view = None;
        match self.tool {
            Tool::Select => {
                if !move_changed {
                    self.discard_unchanged_record();
                }
                self.drag_last_image = None;
                None
            },
            _ => self.draft.take(),
        }
    }

    /// Records a change, puts `annotation` in place of the one at `index`, and
    /// selects it (an edit of the annotation's text).
    pub fn replace_annotation(&mut self, index: usize, annotation: AnnotationId)
        requires
            index < old(self).annotations@.len(),
        ensures
            final(self).timeline() == old(self).timeline().replaced(index as int, annotation),
            final(self).selected == Some(index),
            final(self).same_surroundings(old(self)),
            final(self).draft == old(self).draft,
    {
        self.record_change();
        self.annotations.set(index, annotation);
        self.selected = Some(index);
    }
}

} // verus!
