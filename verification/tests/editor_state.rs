use wayshot::{hit_test, EditorState, Tool};

type State = EditorState<u32, (i32, i32), &'static str>;

fn state_with(ids: &[u64]) -> State {
    let mut state = State::new();
    for id in ids {
        state.push_annotation(*id);
    }
    state
}

#[test]
fn new_editor_defaults() {
    let state = State::new();
    assert!(state.background.is_none());
    assert!(state.annotations.is_empty());
    assert!(state.history.is_empty());
    assert!(state.redo.is_empty());
    assert_eq!(state.tool, Tool::Pen);
    assert!(state.draft.is_none());
    assert!(state.drag_start_view.is_none());
    assert!(state.drag_last_image.is_none());
    assert_eq!(state.viewport_width, 0);
    assert_eq!(state.viewport_height, 0);
    assert!(state.fit_to_window);
    assert_eq!(state.selected, None);
    assert_eq!(state.pixelate_cache.len(), 0);
}

#[test]
fn push_records_previous_list() {
    let mut state = state_with(&[1, 2]);
    assert_eq!(state.annotations, vec![1, 2]);
    assert_eq!(state.history, vec![vec![], vec![1]]);
    state.push_annotation(3);
    assert_eq!(state.history, vec![vec![], vec![1], vec![1, 2]]);
    assert!(state.redo.is_empty());
}

#[test]
fn undo_after_push_restores_list() {
    let mut state = state_with(&[1, 2]);
    let before_list = state.annotations.clone();
    let before_history = state.history.clone();
    state.push_annotation(3);
    state.undo();
    assert_eq!(state.annotations, before_list);
    assert_eq!(state.history, before_history);
    assert_eq!(state.redo, vec![vec![1, 2, 3]]);
}

#[test]
fn redo_after_undo_restores_push() {
    let mut state = state_with(&[1, 2]);
    state.push_annotation(3);
    let list = state.annotations.clone();
    let history = state.history.clone();
    state.undo();
    state.redo();
    assert_eq!(state.annotations, list);
    assert_eq!(state.history, history);
    assert!(state.redo.is_empty());
}

#[test]
fn undo_then_redo_is_identity() {
    let mut state = state_with(&[4, 5, 6]);
    state.undo();
    state.undo();
    let list = state.annotations.clone();
    let history = state.history.clone();
    let redo = state.redo.clone();
    state.undo();
    state.redo();
    assert_eq!(state.annotations, list);
    assert_eq!(state.history, history);
    assert_eq!(state.redo, redo);
}

#[test]
fn redo_then_undo_is_identity() {
    let mut state = state_with(&[4, 5, 6]);
    state.undo();
    state.undo();
    let list = state.annotations.clone();
    let history = state.history.clone();
    let redo = state.redo.clone();
    state.redo();
    state.undo();
    assert_eq!(state.annotations, list);
    assert_eq!(state.history, history);
    assert_eq!(state.redo, redo);
}

#[test]
fn undo_clears_draft_and_selection() {
    let mut state = state_with(&[1]);
    state.draft = Some("shape");
    state.selected = Some(0);
    state.undo();
    assert!(state.draft.is_none());
    assert_eq!(state.selected, None);
    state.draft = Some("shape");
    state.selected = Some(0);
    state.redo();
    assert!(state.draft.is_none());
    assert_eq!(state.selected, None);
}

#[test]
fn undo_and_redo_with_empty_stacks_change_nothing() {
    let mut state = State::new();
    state.draft = Some("shape");
    state.selected = Some(2);
    state.undo();
    state.redo();
    assert!(state.annotations.is_empty());
    assert_eq!(state.draft, Some("shape"));
    assert_eq!(state.selected, Some(2));
}

#[test]
fn edit_clears_redo_stack() {
    let mut state = state_with(&[1, 2]);
    state.undo();
    assert_eq!(state.redo.len(), 1);
    state.push_annotation(9);
    assert!(state.redo.is_empty());
    state.redo();
    assert_eq!(state.annotations, vec![1, 9]);
}

#[test]
fn record_change_then_discard_restores_history() {
    let mut state = state_with(&[1, 2]);
    let history = state.history.clone();
    state.record_change();
    assert_eq!(state.history.len(), history.len() + 1);
    state.discard_unchanged_record();
    assert_eq!(state.history, history);
    assert_eq!(state.annotations, vec![1, 2]);
}

#[test]
fn discard_keeps_record_of_a_real_change() {
    let mut state = state_with(&[1, 2]);
    let history = state.history.clone();
    state.discard_unchanged_record();
    assert_eq!(state.history, history);
}

#[test]
fn remove_annotation_in_and_out_of_range() {
    let mut state = state_with(&[7, 8, 9]);
    assert_eq!(state.remove_annotation(5), None);
    assert_eq!(state.annotations, vec![7, 8, 9]);
    assert_eq!(state.history.len(), 3);
    assert_eq!(state.remove_annotation(1), Some(8));
    assert_eq!(state.annotations, vec![7, 9]);
    assert_eq!(state.history.last(), Some(&vec![7, 8, 9]));
    state.undo();
    assert_eq!(state.annotations, vec![7, 8, 9]);
}

#[test]
fn erase_at_removes_topmost_hit_without_record() {
    let mut state = state_with(&[7, 8, 9]);
    state.selected = Some(0);
    let history = state.history.clone();
    assert!(state.erase_at(&[true, true, false]));
    assert_eq!(state.annotations, vec![7, 9]);
    assert_eq!(state.history, history);
    assert_eq!(state.selected, None);
}

#[test]
fn erase_at_without_hit_changes_nothing() {
    let mut state = state_with(&[7, 8]);
    state.selected = Some(1);
    assert!(!state.erase_at(&[false, false]));
    assert_eq!(state.annotations, vec![7, 8]);
    assert_eq!(state.selected, Some(1));
}

#[test]
fn hit_test_picks_topmost() {
    assert_eq!(hit_test(&[true, false, true, false]), Some(2));
    assert_eq!(hit_test(&[true, false, false]), Some(0));
    assert_eq!(hit_test(&[false, false]), None);
    assert_eq!(hit_test(&[]), None);
}

#[test]
fn set_background_starts_over() {
    let mut state = state_with(&[1, 2]);
    state.undo();
    state.draft = Some("shape");
    state.drag_start_view = Some((1, 1));
    state.drag_last_image = Some((2, 2));
    state.selected = Some(0);
    state.tool = Tool::Blur;
    state.viewport_width = 640;
    state.fit_to_window = false;
    state.set_background(42);
    assert_eq!(state.background, Some(42));
    assert!(state.annotations.is_empty());
    assert!(state.history.is_empty());
    assert!(state.redo.is_empty());
    assert!(state.draft.is_none());
    assert!(state.drag_start_view.is_none());
    assert!(state.drag_last_image.is_none());
    assert_eq!(state.selected, None);
    assert_eq!(state.tool, Tool::Blur);
    assert_eq!(state.viewport_width, 640);
    assert!(!state.fit_to_window);
}

#[test]
fn select_tool_drops_draft_and_selection() {
    let mut state = state_with(&[1]);
    state.draft = Some("shape");
    state.selected = Some(0);
    state.select_tool(Tool::Circle);
    assert_eq!(state.tool, Tool::Circle);
    assert!(state.draft.is_none());
    assert_eq!(state.selected, None);
    assert_eq!(state.annotations, vec![1]);
}

#[test]
fn delete_selected_removes_and_records() {
    let mut state = state_with(&[1, 2, 3]);
    state.selected = Some(1);
    assert!(state.delete_selected());
    assert_eq!(state.annotations, vec![1, 3]);
    assert_eq!(state.selected, None);
    state.undo();
    assert_eq!(state.annotations, vec![1, 2, 3]);
}

#[test]
fn delete_selected_without_valid_selection() {
    let mut state = state_with(&[1]);
    assert!(!state.delete_selected());
    state.selected = Some(4);
    let history = state.history.clone();
    assert!(!state.delete_selected());
    assert_eq!(state.selected, None);
    assert_eq!(state.history, history);
    assert_eq!(state.annotations, vec![1]);
}

#[test]
fn erase_step_records_only_once_per_drag() {
    let mut state = state_with(&[1, 2, 3]);
    let history_len = state.history.len();
    let changed = state.erase_step(&[false, true, false], false);
    assert!(changed);
    assert_eq!(state.annotations, vec![1, 3]);
    assert_eq!(state.history.len(), history_len + 1);
    let changed = state.erase_step(&[true, false], changed);
    assert!(changed);
    assert_eq!(state.annotations, vec![3]);
    assert_eq!(state.history.len(), history_len + 1);
    let changed_none = state.erase_step(&[false], false);
    assert!(!changed_none);
    assert_eq!(state.annotations, vec![3]);
    state.undo();
    assert_eq!(state.annotations, vec![1, 2, 3]);
}

#[test]
fn begin_drag_with_drawing_tool_takes_draft() {
    let mut state = state_with(&[1]);
    state.tool = Tool::Rect;
    let erased = state.begin_drag((10, 10), (5, 5), &[true], Some("rect"));
    assert!(!erased);
    assert_eq!(state.draft, Some("rect"));
    assert_eq!(state.drag_start_view, Some((10, 10)));
    assert_eq!(state.drag_last_image, Some((5, 5)));
    assert_eq!(state.annotations, vec![1]);
}

#[test]
fn begin_drag_with_select_picks_hit() {
    let mut state = state_with(&[1, 2]);
    state.tool = Tool::Select;
    state.draft = Some("old");
    state.begin_drag((0, 0), (0, 0), &[true, false], None);
    assert_eq!(state.selected, Some(0));
    assert!(state.draft.is_none());
    state.draft = Some("old");
    state.begin_drag((0, 0), (0, 0), &[false, false], None);
    assert_eq!(state.selected, None);
    assert_eq!(state.draft, Some("old"));
}

#[test]
fn begin_drag_with_eraser_erases() {
    let mut state = state_with(&[1, 2]);
    state.tool = Tool::Eraser;
    let erased = state.begin_drag((0, 0), (0, 0), &[true, true], None);
    assert!(erased);
    assert_eq!(state.annotations, vec![1]);
    state.undo();
    assert_eq!(state.annotations, vec![1, 2]);
}

#[test]
fn begin_drag_with_text_drops_draft() {
    let mut state = state_with(&[1]);
    state.tool = Tool::Text;
    state.draft = Some("old");
    state.begin_drag((0, 0), (0, 0), &[false], Some("ignored"));
    assert!(state.draft.is_none());
}

#[test]
fn drag_select_moves_and_records_once() {
    let mut state = state_with(&[1, 2]);
    state.tool = Tool::Select;
    state.begin_drag((0, 0), (0, 0), &[false, true], None);
    assert_eq!(state.selected, Some(1));
    let history_len = state.history.len();
    let changed = state.drag_select((3, 3), true, false, 20);
    assert!(changed);
    assert_eq!(state.annotations, vec![1, 20]);
    assert_eq!(state.drag_last_image, Some((3, 3)));
    assert_eq!(state.history.len(), history_len + 1);
    let changed = state.drag_select((4, 4), true, changed, 21);
    assert!(changed);
    assert_eq!(state.annotations, vec![1, 21]);
    assert_eq!(state.history.len(), history_len + 1);
    assert_eq!(state.finish_drag(changed), None);
    assert!(state.drag_last_image.is_none());
    state.undo();
    assert_eq!(state.annotations, vec![1, 2]);
}

#[test]
fn drag_select_without_movement_records_nothing() {
    let mut state = state_with(&[1, 2]);
    state.tool = Tool::Select;
    state.begin_drag((0, 0), (0, 0), &[true, false], None);
    let history_len = state.history.len();
    let changed = state.drag_select((0, 0), false, false, 1);
    assert!(!changed);
    assert_eq!(state.history.len(), history_len);
    assert_eq!(state.annotations, vec![1, 2]);
}

#[test]
fn drag_select_without_selection_does_nothing() {
    let mut state = state_with(&[1, 2]);
    state.tool = Tool::Select;
    state.begin_drag((0, 0), (0, 0), &[false, false], None);
    let changed = state.drag_select((5, 5), true, false, 99);
    assert!(!changed);
    assert_eq!(state.annotations, vec![1, 2]);
    assert_eq!(state.drag_last_image, Some((0, 0)));
}

#[test]
fn finish_drag_returns_draft() {
    let mut state = state_with(&[]);
    state.tool = Tool::Line;
    state.begin_drag((0, 0), (0, 0), &[], Some("line"));
    assert_eq!(state.finish_drag(false), Some("line"));
    assert!(state.draft.is_none());
    assert!(state.drag_start_view.is_none());
    assert_eq!(state.finish_drag(false), None);
}

#[test]
fn finish_select_drag_discards_unchanged_record() {
    let mut state = state_with(&[1]);
    state.tool = Tool::Select;
    state.begin_drag((0, 0), (0, 0), &[true], None);
    state.record_change();
    let recorded = state.history.len();
    assert_eq!(state.finish_drag(false), None);
    assert_eq!(state.history.len(), recorded - 1);
}

#[test]
fn replace_annotation_records_and_selects() {
    let mut state = state_with(&[1, 2]);
    state.replace_annotation(0, 10);
    assert_eq!(state.annotations, vec![10, 2]);
    assert_eq!(state.selected, Some(0));
    state.undo();
    assert_eq!(state.annotations, vec![1, 2]);
}

#[test]
fn undo_and_redo_keep_number_of_lists() {
    let mut state = state_with(&[1, 2, 3, 4]);
    let total = state.history.len() + state.redo.len();
    state.undo();
    assert_eq!(state.history.len() + state.redo.len(), total);
    state.undo();
    state.redo();
    assert_eq!(state.history.len() + state.redo.len(), total);
    state.redo();
    state.redo();
    assert_eq!(state.history.len() + state.redo.len(), total);
}

#[test]
fn undo_after_replace_restores_list() {
    let mut state = state_with(&[1, 2, 3]);
    let history = state.history.clone();
    state.replace_annotation(2, 30);
    state.undo();
    assert_eq!(state.annotations, vec![1, 2, 3]);
    assert_eq!(state.history, history);
}

#[test]
fn drag_select_without_movement_keeps_annotation_and_follows_pointer() {
    let mut state = state_with(&[1, 2]);
    state.tool = Tool::Select;
    state.begin_drag((0, 0), (0, 0), &[false, true], None);
    let changed = state.drag_select((0, 0), false, false, 77);
    assert!(!changed);
    assert_eq!(state.annotations, vec![1, 2]);
    assert_eq!(state.drag_last_image, Some((0, 0)));
    let history = state.history.clone();
    assert_eq!(state.finish_drag(changed), None);
    assert_eq!(state.history, history);
}

#[test]
fn whole_eraser_drag_is_one_undo() {
    let mut state = state_with(&[1, 2, 3, 4]);
    state.tool = Tool::Eraser;
    let history_len = state.history.len();
    let mut changed = state.begin_drag((0, 0), (0, 0), &[false, false, false, true], None);
    changed = state.erase_step(&[false, false, false], changed);
    changed = state.erase_step(&[true, false, false], changed);
    changed = state.erase_step(&[false, true], changed);
    assert!(changed);
    assert_eq!(state.annotations, vec![2]);
    assert_eq!(state.history.len(), history_len + 1);
    assert!(state.redo.is_empty());
    state.finish_drag(false);
    state.undo();
    assert_eq!(state.annotations, vec![1, 2, 3, 4]);
}
