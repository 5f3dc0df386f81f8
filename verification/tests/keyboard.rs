use flutter_embedder::keyboard::{
    Keyboard, KeyInput, KeyOutcome, LogicalKey, NamedEditKey, Outbound, TextInput, TextInputAction,
};
use flutter_embedder::text_edit::EditingState;

fn chars(s: &str) -> Vec<char> {
    s.chars().collect()
}

fn press(key: LogicalKey, text: Option<&str>) -> KeyInput {
    KeyInput {
        pressed: true,
        repeat: false,
        synthesized: false,
        physical: Some(0x0007_0004),
        logical_code: Some(0x61),
        key,
        text: text.map(chars),
        timestamp: 1000,
    }
}

fn attached_keyboard(text: &str, base: i64, extent: i64) -> Keyboard {
    let mut kb = Keyboard::new();
    kb.handle_textinput_message(TextInput::SetClient(7, TextInputAction::Done));
    kb.handle_textinput_message(TextInput::SetEditingState(EditingState {
        text: text.chars().collect(),
        selection_base: Some(base),
        selection_extent: Some(extent),
    }));
    kb
}

fn editing_of(outbound: &[Outbound]) -> Option<(u64, String, Option<i64>, Option<i64>)> {
    outbound.iter().find_map(|o| match o {
        Outbound::UpdateEditing { client, state } => Some((
            *client,
            state.text.iter().collect::<String>(),
            state.selection_base,
            state.selection_extent,
        )),
        _ => None,
    })
}

#[test]
fn untranslatable_key_is_dropped_whole() {
    let mut kb = attached_keyboard("abc", 1, 1);
    let mut input = press(LogicalKey::Character(chars("z")), Some("z"));
    input.physical = None;
    match kb.key_event(input) {
        KeyOutcome::Dropped => {}
        KeyOutcome::Delivered(_) => panic!("an untranslatable key must be dropped"),
    }
    assert_eq!(kb.editing_state().text.iter().collect::<String>(), "abc");
}

#[test]
fn every_translated_key_forwards_a_raw_event_first() {
    let mut kb = attached_keyboard("", 0, 0);
    let input = press(LogicalKey::Character(chars("q")), Some("q"));
    match kb.key_event(input) {
        KeyOutcome::Delivered(effs) => match &effs[0] {
            Outbound::RawKey(raw) => {
                assert_eq!(raw.physical, 0x0007_0004);
                assert_eq!(raw.logical, 0x61);
                assert_eq!(raw.character.as_ref().map(|c| c.iter().collect::<String>()), Some("q".into()));
            }
            _ => panic!("the raw key event must come first"),
        },
        KeyOutcome::Dropped => panic!("a translated key must be delivered"),
    }
}

#[test]
fn release_forwards_raw_event_without_editing() {
    let mut kb = attached_keyboard("abc", 1, 1);
    let mut input = press(LogicalKey::Character(chars("z")), Some("z"));
    input.pressed = false;
    match kb.key_event(input) {
        KeyOutcome::Delivered(effs) => {
            assert_eq!(effs.len(), 1);
            match &effs[0] {
                Outbound::RawKey(raw) => assert_eq!(raw.character, None),
                _ => panic!("expected only the raw key event"),
            }
        }
        KeyOutcome::Dropped => panic!("a release still travels"),
    }
    assert_eq!(kb.editing_state().text.iter().collect::<String>(), "abc");
}

#[test]
fn character_key_inserts_and_reports_final_state() {
    let mut kb = attached_keyboard("", 0, 0);
    let out = match kb.key_event(press(LogicalKey::Character(chars("H")), Some("H"))) {
        KeyOutcome::Delivered(effs) => effs,
        KeyOutcome::Dropped => panic!("expected delivery"),
    };
    assert_eq!(out.len(), 2);
    assert_eq!(editing_of(&out), Some((7, "H".into(), Some(1), Some(1))));
    assert_eq!(kb.editing_state().text.iter().collect::<String>(), "H");
}

#[test]
fn no_attached_client_means_no_buffer_mutation() {
    let mut kb = Keyboard::new();
    kb.handle_textinput_message(TextInput::SetEditingState(EditingState {
        text: chars("abc"),
        selection_base: Some(1),
        selection_extent: Some(1),
    }));
    let out = match kb.key_event(press(LogicalKey::Character(chars("z")), Some("z"))) {
        KeyOutcome::Delivered(effs) => effs,
        KeyOutcome::Dropped => panic!("expected delivery"),
    };
    assert_eq!(out.len(), 1);
    assert_eq!(kb.editing_state().text.iter().collect::<String>(), "abc");
}

#[test]
fn unset_selection_blocks_mutation() {
    let mut kb = Keyboard::new();
    kb.handle_textinput_message(TextInput::SetClient(3, TextInputAction::Done));
    let out = match kb.key_event(press(LogicalKey::Character(chars("z")), Some("z"))) {
        KeyOutcome::Delivered(effs) => effs,
        KeyOutcome::Dropped => panic!("expected delivery"),
    };
    assert_eq!(out.len(), 1);
    assert_eq!(kb.editing_state().selection_base, None);
}

#[test]
fn negative_selection_blocks_mutation() {
    let mut kb = attached_keyboard("abc", -1, 0);
    let out = match kb.key_event(press(LogicalKey::Character(chars("z")), Some("z"))) {
        KeyOutcome::Delivered(effs) => effs,
        KeyOutcome::Dropped => panic!("expected delivery"),
    };
    assert_eq!(out.len(), 1);
    assert_eq!(kb.editing_state().text.iter().collect::<String>(), "abc");
}

#[test]
fn enter_asks_for_the_configured_action() {
    let mut kb = attached_keyboard("abc", 1, 1);
    let out = match kb.key_event(press(LogicalKey::Named(NamedEditKey::Enter), None)) {
        KeyOutcome::Delivered(effs) => effs,
        KeyOutcome::Dropped => panic!("expected delivery"),
    };
    assert_eq!(out.len(), 3);
    match &out[1] {
        Outbound::Action { client, action } => {
            assert_eq!(*client, 7);
            assert_eq!(*action, TextInputAction::Done);
        }
        _ => panic!("Enter must ask the client to perform its action"),
    }
    assert_eq!(editing_of(&out), Some((7, "abc".into(), Some(1), Some(1))));
}

#[test]
fn tab_moves_focus_forward_and_shift_tab_backward() {
    let mut kb = attached_keyboard("", 0, 0);
    let out = match kb.key_event(press(LogicalKey::Named(NamedEditKey::Tab), None)) {
        KeyOutcome::Delivered(effs) => effs,
        KeyOutcome::Dropped => panic!("expected delivery"),
    };
    match &out[1] {
        Outbound::Action { action, .. } => assert_eq!(*action, TextInputAction::Next),
        _ => panic!("Tab must move focus"),
    }
    kb.modifiers_changed(true, false);
    let out = match kb.key_event(press(LogicalKey::Named(NamedEditKey::Tab), None)) {
        KeyOutcome::Delivered(effs) => effs,
        KeyOutcome::Dropped => panic!("expected delivery"),
    };
    match &out[1] {
        Outbound::Action { action, .. } => assert_eq!(*action, TextInputAction::Previous),
        _ => panic!("Shift-Tab must move focus back"),
    }
}

#[test]
fn select_all_shortcut_selects_the_buffer() {
    let mut kb = attached_keyboard("hello", 2, 2);
    kb.modifiers_changed(false, true);
    let out = match kb.key_event(press(LogicalKey::Character(chars("a")), Some("a"))) {
        KeyOutcome::Delivered(effs) => effs,
        KeyOutcome::Dropped => panic!("expected delivery"),
    };
    assert_eq!(editing_of(&out), Some((7, "hello".into(), Some(0), Some(5))));
}

#[test]
fn plain_a_inserts_when_no_action_modifier() {
    let mut kb = attached_keyboard("", 0, 0);
    let out = match kb.key_event(press(LogicalKey::Character(chars("a")), Some("a"))) {
        KeyOutcome::Delivered(effs) => effs,
        KeyOutcome::Dropped => panic!("expected delivery"),
    };
    assert_eq!(editing_of(&out), Some((7, "a".into(), Some(1), Some(1))));
}

#[test]
fn cut_removes_the_selection_even_without_a_clipboard() {
    let mut kb = attached_keyboard("hello", 1, 4);
    kb.modifiers_changed(false, true);
    let out = match kb.key_event(press(LogicalKey::Character(chars("x")), Some("x"))) {
        KeyOutcome::Delivered(effs) => effs,
        KeyOutcome::Dropped => panic!("expected delivery"),
    };
    assert_eq!(editing_of(&out), Some((7, "ho".into(), Some(1), Some(1))));
}

#[test]
fn copy_leaves_the_buffer_unchanged() {
    let mut kb = attached_keyboard("hello", 1, 4);
    kb.modifiers_changed(false, true);
    let out = match kb.key_event(press(LogicalKey::Character(chars("c")), Some("c"))) {
        KeyOutcome::Delivered(effs) => effs,
        KeyOutcome::Dropped => panic!("expected delivery"),
    };
    assert_eq!(editing_of(&out), Some((7, "hello".into(), Some(1), Some(4))));
}

#[test]
fn paste_with_nothing_available_is_a_silent_no_op() {
    let mut kb = attached_keyboard("ab", 1, 1);
    kb.modifiers_changed(false, true);
    let out = match kb.key_event(press(LogicalKey::Character(chars("v")), Some("v"))) {
        KeyOutcome::Delivered(effs) => effs,
        KeyOutcome::Dropped => panic!("expected delivery"),
    };
    assert_eq!(editing_of(&out), Some((7, "ab".into(), Some(1), Some(1))));
}

#[test]
fn other_named_key_inserts_its_text() {
    let mut kb = attached_keyboard("ab", 2, 2);
    let out = match kb.key_event(press(LogicalKey::OtherNamed, Some(" "))) {
        KeyOutcome::Delivered(effs) => effs,
        KeyOutcome::Dropped => panic!("expected delivery"),
    };
    assert_eq!(editing_of(&out), Some((7, "ab ".into(), Some(3), Some(3))));
}

#[test]
fn arrow_key_event_moves_the_cursor() {
    let mut kb = attached_keyboard("abc", 2, 2);
    let out = match kb.key_event(press(LogicalKey::Named(NamedEditKey::ArrowLeft), None)) {
        KeyOutcome::Delivered(effs) => effs,
        KeyOutcome::Dropped => panic!("expected delivery"),
    };
    assert_eq!(editing_of(&out), Some((7, "abc".into(), Some(1), Some(1))));
}

#[test]
fn set_editing_state_round_trips_exactly() {
    let mut kb = Keyboard::new();
    kb.handle_textinput_message(TextInput::SetEditingState(EditingState {
        text: chars("round trip"),
        selection_base: Some(3),
        selection_extent: Some(7),
    }));
    let s = kb.editing_state();
    assert_eq!(s.text.iter().collect::<String>(), "round trip");
    assert_eq!(s.selection_base, Some(3));
    assert_eq!(s.selection_extent, Some(7));
}

#[test]
fn clear_client_detaches() {
    let mut kb = attached_keyboard("abc", 1, 1);
    kb.handle_textinput_message(TextInput::ClearClient);
    let out = match kb.key_event(press(LogicalKey::Character(chars("z")), Some("z"))) {
        KeyOutcome::Delivered(effs) => effs,
        KeyOutcome::Dropped => panic!("expected delivery"),
    };
    assert_eq!(out.len(), 1);
    assert_eq!(kb.editing_state().text.iter().collect::<String>(), "abc");
}

#[test]
fn unsupported_message_changes_nothing() {
    let mut kb = attached_keyboard("abc", 1, 2);
    kb.handle_textinput_message(TextInput::Unsupported);
    let s = kb.editing_state();
    assert_eq!(s.text.iter().collect::<String>(), "abc");
    assert_eq!(s.selection_base, Some(1));
    assert_eq!(s.selection_extent, Some(2));
}

#[test]
fn selection_stays_paired_through_key_events() {
    let mut kb = attached_keyboard("abcd", 1, 3);
    for key in [
        LogicalKey::Named(NamedEditKey::ArrowLeft),
        LogicalKey::Named(NamedEditKey::ArrowRight),
        LogicalKey::Named(NamedEditKey::Home),
        LogicalKey::Named(NamedEditKey::End),
        LogicalKey::Named(NamedEditKey::Backspace),
        LogicalKey::Named(NamedEditKey::Delete),
        LogicalKey::Character(chars("q")),
    ] {
        let _ = kb.key_event(press(key, Some("q")));
        let s = kb.editing_state();
        assert_eq!(s.selection_base.is_some(), s.selection_extent.is_some());
    }
}

#[test]
fn repeat_press_is_typed_as_repeat() {
    let mut kb = attached_keyboard("", 0, 0);
    let mut input = press(LogicalKey::Character(chars("r")), Some("r"));
    input.repeat = true;
    let out = match kb.key_event(input) {
        KeyOutcome::Delivered(effs) => effs,
        KeyOutcome::Dropped => panic!("expected delivery"),
    };
    match &out[0] {
        Outbound::RawKey(raw) => {
            assert_eq!(raw.kind, flutter_embedder::keyboard::KeyEventKind::Repeat)
        }
        _ => panic!("raw event first"),
    }
}
