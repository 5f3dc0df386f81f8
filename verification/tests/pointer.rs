use flutter_embedder::pointer::{PointerButton, PointerEvent, PointerPhase, PointerTracker};

#[test]
fn first_contact_emits_exactly_one_add() {
    let mut t = PointerTracker::new();
    let ev = t.touch(42, 5).expect("a fresh device is announced");
    assert_eq!(ev.phase, PointerPhase::Add);
    assert_eq!(ev.device, 0);
    assert_eq!((ev.x_bits, ev.y_bits, ev.buttons), (0, 0, 0));
    assert_eq!(t.touch(42, 6), None);
}

#[test]
fn add_comes_before_hover_for_an_unseen_device() {
    let mut t = PointerTracker::new();
    let evs = t.move_to(42, f64::to_bits(10.5), f64::to_bits(20.25), 7);
    assert_eq!(evs.len(), 2);
    assert_eq!(evs[0].phase, PointerPhase::Add);
    assert_eq!(evs[1].phase, PointerPhase::Hover);
    assert_eq!(evs[1].x_bits, f64::to_bits(10.5));
    assert_eq!(evs[1].y_bits, f64::to_bits(20.25));
    assert_eq!(evs[0].device, evs[1].device);
}

#[test]
fn add_comes_before_down_for_an_unseen_device() {
    let mut t = PointerTracker::new();
    let evs = t.button_event(9, true, PointerButton::Left, 1);
    assert_eq!(evs.len(), 2);
    assert_eq!(evs[0].phase, PointerPhase::Add);
    assert_eq!(evs[1].phase, PointerPhase::Down);
    assert_eq!(evs[1].buttons, 1);
}

#[test]
fn motion_with_a_held_button_is_move_not_hover() {
    let mut t = PointerTracker::new();
    t.touch(1, 0);
    t.button_event(1, true, PointerButton::Right, 1);
    let evs = t.move_to(1, f64::to_bits(3.0), f64::to_bits(4.0), 2);
    assert_eq!(evs.len(), 1);
    assert_eq!(evs[0].phase, PointerPhase::Move);
    assert_eq!(evs[0].buttons, 2);
}

#[test]
fn button_masks_follow_the_recognized_set() {
    let mut t = PointerTracker::new();
    t.touch(1, 0);
    assert_eq!(t.button_event(1, true, PointerButton::Left, 1)[0].buttons, 1);
    assert_eq!(t.button_event(1, true, PointerButton::Right, 2)[0].buttons, 1 | 2);
    assert_eq!(t.button_event(1, true, PointerButton::Middle, 3)[0].buttons, 1 | 2 | 4);
    assert_eq!(
        t.button_event(1, true, PointerButton::Other(4), 4)[0].buttons,
        1 | 2 | 4 | 16
    );
}

#[test]
fn pressing_the_same_button_twice_toggles_its_bit_off() {
    let mut t = PointerTracker::new();
    t.touch(1, 0);
    assert_eq!(t.button_event(1, true, PointerButton::Left, 1)[0].buttons, 1);
    let evs = t.button_event(1, true, PointerButton::Left, 2);
    assert_eq!(evs[0].phase, PointerPhase::Down);
    assert_eq!(evs[0].buttons, 0);
}

#[test]
fn release_clears_the_button_bit() {
    let mut t = PointerTracker::new();
    t.touch(1, 0);
    t.button_event(1, true, PointerButton::Left, 1);
    t.button_event(1, true, PointerButton::Right, 2);
    let evs = t.button_event(1, false, PointerButton::Left, 3);
    assert_eq!(evs[0].phase, PointerPhase::Up);
    assert_eq!(evs[0].buttons, 2);
}

#[test]
fn a_button_index_past_the_mask_width_sets_no_bit() {
    let mut t = PointerTracker::new();
    t.touch(1, 0);
    let evs = t.button_event(1, true, PointerButton::Other(200), 1);
    assert_eq!(evs[0].phase, PointerPhase::Down);
    assert_eq!(evs[0].buttons, 0);
}

#[test]
fn leave_emits_remove_then_forgets_the_device() {
    let mut t = PointerTracker::new();
    t.touch(5, 0);
    t.move_to(5, f64::to_bits(1.0), f64::to_bits(2.0), 1);
    let ev = t.leave(5, 2).expect("a tracked device is removed");
    assert_eq!(ev.phase, PointerPhase::Remove);
    assert_eq!(ev.x_bits, f64::to_bits(1.0));
    assert_eq!(ev.y_bits, f64::to_bits(2.0));
    assert_eq!(t.leave(5, 3), None);
}

#[test]
fn leave_for_an_unknown_device_is_a_silent_no_op() {
    let mut t = PointerTracker::new();
    assert_eq!(t.leave(77, 1), None);
}

#[test]
fn virtual_ids_increase_and_are_never_reused() {
    let mut t = PointerTracker::new();
    let a = t.touch(10, 0).unwrap().device;
    let b = t.touch(11, 1).unwrap().device;
    assert!(a < b);
    t.leave(10, 2);
    let c = t.touch(10, 3).unwrap().device;
    assert!(b < c, "a returning physical device gets a fresh virtual id");
}

#[test]
fn events_echo_the_engine_clock_timestamp() {
    let mut t = PointerTracker::new();
    let ev: PointerEvent = t.touch(1, 987654321).unwrap();
    assert_eq!(ev.timestamp, 987654321);
}
