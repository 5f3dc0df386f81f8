use flutter_embedder::text_edit::EditingState;

fn state(text: &str, base: i64, extent: i64) -> EditingState {
    EditingState {
        text: text.chars().collect(),
        selection_base: Some(base),
        selection_extent: Some(extent),
    }
}

fn text_of(s: &EditingState) -> String {
    s.text.iter().collect()
}

#[test]
fn insert_into_empty_buffer() {
    let mut s = state("", 0, 0);
    let ins: Vec<char> = "Hi".chars().collect();
    s.insert(&ins);
    assert_eq!(text_of(&s), "Hi");
    assert_eq!(s.selection_base, Some(2));
    assert_eq!(s.selection_extent, Some(2));
}

#[test]
fn shift_arrow_left_extends_selection_backward() {
    let mut s = state("Hi", 2, 2);
    s.move_left(true);
    assert_eq!(text_of(&s), "Hi");
    assert_eq!(s.selection_base, Some(2));
    assert_eq!(s.selection_extent, Some(1));
}

#[test]
fn backspace_deletes_selected_range() {
    let mut s = state("Hi", 2, 1);
    s.backspace();
    assert_eq!(text_of(&s), "H");
    assert_eq!(s.selection_base, Some(1));
    assert_eq!(s.selection_extent, Some(1));
}

#[test]
fn insert_then_select_then_backspace_scenario() {
    let mut s = state("", 0, 0);
    let ins: Vec<char> = "Hi".chars().collect();
    s.insert(&ins);
    assert_eq!((text_of(&s), s.selection_base, s.selection_extent), ("Hi".into(), Some(2), Some(2)));
    s.move_left(true);
    assert_eq!((s.selection_base, s.selection_extent), (Some(2), Some(1)));
    s.backspace();
    assert_eq!((text_of(&s), s.selection_base, s.selection_extent), ("H".into(), Some(1), Some(1)));
}

#[test]
fn backspace_at_buffer_start_is_a_no_op() {
    let mut s = state("", 0, 0);
    s.backspace();
    assert_eq!(text_of(&s), "");
    assert_eq!(s.selection_base, Some(0));
    assert_eq!(s.selection_extent, Some(0));
}

#[test]
fn backspace_collapsed_deletes_codepoint_before_cursor() {
    let mut s = state("abc", 2, 2);
    s.backspace();
    assert_eq!(text_of(&s), "ac");
    assert_eq!(s.selection_base, Some(1));
    assert_eq!(s.selection_extent, Some(1));
}

#[test]
fn delete_collapsed_removes_codepoint_after_cursor() {
    let mut s = state("abc", 1, 1);
    s.delete_forward();
    assert_eq!(text_of(&s), "ac");
    assert_eq!(s.selection_base, Some(1));
    assert_eq!(s.selection_extent, Some(1));
}

#[test]
fn delete_at_buffer_end_is_a_no_op() {
    let mut s = state("abc", 3, 3);
    s.delete_forward();
    assert_eq!(text_of(&s), "abc");
}

#[test]
fn delete_removes_selected_range() {
    let mut s = state("abcd", 3, 1);
    s.delete_forward();
    assert_eq!(text_of(&s), "ad");
    assert_eq!(s.selection_base, Some(1));
    assert_eq!(s.selection_extent, Some(1));
}

#[test]
fn arrow_left_collapses_selection_to_near_edge() {
    let mut s = state("abcd", 1, 3);
    s.move_left(false);
    assert_eq!(s.selection_base, Some(1));
    assert_eq!(s.selection_extent, Some(1));
}

#[test]
fn arrow_right_collapses_selection_to_far_edge() {
    let mut s = state("abcd", 1, 3);
    s.move_right(false);
    assert_eq!(s.selection_base, Some(3));
    assert_eq!(s.selection_extent, Some(3));
}

#[test]
fn arrow_right_moves_cursor_one_codepoint() {
    let mut s = state("abcd", 1, 1);
    s.move_right(false);
    assert_eq!(s.selection_base, Some(2));
    assert_eq!(s.selection_extent, Some(2));
}

#[test]
fn arrow_right_at_end_stays_put() {
    let mut s = state("ab", 2, 2);
    s.move_right(false);
    assert_eq!(s.selection_base, Some(2));
    assert_eq!(s.selection_extent, Some(2));
}

#[test]
fn home_jumps_to_start_and_collapses() {
    let mut s = state("abcd", 2, 3);
    s.move_home(false);
    assert_eq!(s.selection_base, Some(0));
    assert_eq!(s.selection_extent, Some(0));
}

#[test]
fn shift_home_keeps_anchor() {
    let mut s = state("abcd", 2, 2);
    s.move_home(true);
    assert_eq!(s.selection_base, Some(2));
    assert_eq!(s.selection_extent, Some(0));
}

#[test]
fn end_jumps_to_length() {
    let mut s = state("abcd", 1, 1);
    s.move_end(false);
    assert_eq!(s.selection_base, Some(4));
    assert_eq!(s.selection_extent, Some(4));
}

#[test]
fn select_all_spans_the_buffer() {
    let mut s = state("abcd", 2, 2);
    s.select_all();
    assert_eq!(s.selection_base, Some(0));
    assert_eq!(s.selection_extent, Some(4));
}

#[test]
fn selection_returns_selected_codepoints() {
    let s = state("abcd", 3, 1);
    let seg: String = s.selection().iter().collect();
    assert_eq!(seg, "bc");
}

#[test]
fn stale_offsets_are_clamped_to_the_buffer() {
    let mut s = state("ab", 9, 9);
    s.backspace();
    assert_eq!(text_of(&s), "a");
    assert_eq!(s.selection_base, Some(1));
    assert_eq!(s.selection_extent, Some(1));
}

#[test]
fn insert_replaces_selected_range() {
    let mut s = state("hello world", 5, 0);
    let ins: Vec<char> = "HI".chars().collect();
    s.insert(&ins);
    assert_eq!(text_of(&s), "HI world");
    assert_eq!(s.selection_base, Some(2));
    assert_eq!(s.selection_extent, Some(2));
}

#[test]
fn empty_state_has_no_selection_set() {
    let s = EditingState::empty();
    assert_eq!(s.selection_base, None);
    assert_eq!(s.selection_extent, None);
    assert_eq!(text_of(&s), "");
}

#[test]
fn duplicate_copies_text_and_selection() {
    let s = state("xyz", 1, 2);
    let d = s.duplicate();
    assert_eq!(text_of(&d), "xyz");
    assert_eq!(d.selection_base, Some(1));
    assert_eq!(d.selection_extent, Some(2));
}

#[test]
fn has_selection_distinguishes_range_from_cursor() {
    assert!(state("abc", 1, 2).has_selection());
    assert!(!state("abc", 2, 2).has_selection());
}
