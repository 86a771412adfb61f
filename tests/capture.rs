use input::capture::{
    FLAGS_CHANGED, KEY_DOWN, KEY_UP, LEFT_MOUSE_DOWN, LEFT_MOUSE_UP, LISTEN_EVENT_MASK,
    MOUSE_MOVED, RIGHT_MOUSE_DOWN, RIGHT_MOUSE_UP, SCROLL_WHEEL, TAP_DISABLED_BY_TIMEOUT,
    TAP_DISABLED_BY_USER_INPUT,
};
use input::{
    check_hook_setup, convert, convert_all, Button, CGEventTapOption, CaptureHook, Direction,
    Event, HookAction, InputError, Key, KeyKind, ModifierTracker, NativeEvent,
};

const SHIFT_FLAG: u64 = 0x0002_0000;

fn native(event_type: u32, keycode: i64, flags: u64) -> NativeEvent {
    NativeEvent { event_type, keycode, flags, scroll_delta: 0 }
}

fn key(direction: Direction, k: Key) -> Event {
    Event::Key { direction, kind: KeyKind::Key(k) }
}

fn button(direction: Direction, b: Button) -> Event {
    Event::Key { direction, kind: KeyKind::Button(b) }
}

#[test]
fn capture_preserves_delivery_order() {
    let mut t = ModifierTracker::new();
    let natives = vec![native(KEY_DOWN, 0, 0), native(KEY_UP, 0, 0), native(KEY_DOWN, 11, 0)];
    let out = convert_all(&mut t, &natives);
    assert_eq!(
        out,
        vec![key(Direction::Down, Key::A), key(Direction::Up, Key::A), key(Direction::Down, Key::B)]
    );
}

#[test]
fn modifier_changes_become_press_and_release() {
    let mut t = ModifierTracker::new();
    let natives = vec![
        native(FLAGS_CHANGED, 56, 0),
        native(FLAGS_CHANGED, 56, SHIFT_FLAG),
        native(FLAGS_CHANGED, 56, 0),
    ];
    let out = convert_all(&mut t, &natives);
    assert_eq!(out, vec![key(Direction::Down, Key::LeftShift), key(Direction::Up, Key::LeftShift)]);
    assert_eq!(t.last_flags, 0);
}

#[test]
fn modifier_state_is_kept_between_calls() {
    let mut t = ModifierTracker::new();
    assert_eq!(
        convert(&mut t, &native(FLAGS_CHANGED, 56, SHIFT_FLAG)),
        Some(key(Direction::Down, Key::LeftShift))
    );
    assert_eq!(t.last_flags, SHIFT_FLAG);
    assert_eq!(convert(&mut t, &native(KEY_DOWN, 0, SHIFT_FLAG)), Some(key(Direction::Down, Key::A)));
    assert_eq!(t.last_flags, SHIFT_FLAG);
    assert_eq!(
        convert(&mut t, &native(FLAGS_CHANGED, 58, SHIFT_FLAG | 0x0008_0000)),
        Some(key(Direction::Down, Key::LeftAlt))
    );
    assert_eq!(
        convert(&mut t, &native(FLAGS_CHANGED, 56, 0x0008_0000)),
        Some(key(Direction::Up, Key::LeftShift))
    );
}

#[test]
fn unchanged_or_unknown_modifier_is_dropped_but_tracked() {
    let mut t = ModifierTracker::new();
    assert_eq!(convert(&mut t, &native(FLAGS_CHANGED, 56, 0)), None);
    assert_eq!(convert(&mut t, &native(FLAGS_CHANGED, 62, SHIFT_FLAG)), None);
    assert_eq!(t.last_flags, SHIFT_FLAG);
    assert_eq!(convert(&mut t, &native(FLAGS_CHANGED, 56, 0)), Some(key(Direction::Up, Key::LeftShift)));
}

#[test]
fn buttons_are_converted() {
    let mut t = ModifierTracker::new();
    assert_eq!(convert(&mut t, &native(LEFT_MOUSE_DOWN, 0, 0)), Some(button(Direction::Down, Button::Left)));
    assert_eq!(convert(&mut t, &native(LEFT_MOUSE_UP, 0, 0)), Some(button(Direction::Up, Button::Left)));
    assert_eq!(convert(&mut t, &native(RIGHT_MOUSE_DOWN, 0, 0)), Some(button(Direction::Down, Button::Right)));
    assert_eq!(convert(&mut t, &native(RIGHT_MOUSE_UP, 0, 0)), Some(button(Direction::Up, Button::Right)));
}

#[test]
fn unconvertible_notifications_are_dropped() {
    let mut t = ModifierTracker::new();
    assert_eq!(convert(&mut t, &native(0, 0, 0)), None);
    assert_eq!(convert(&mut t, &native(MOUSE_MOVED, 0, 0)), None);
    assert_eq!(convert(&mut t, &native(24, 0, 0)), None);
    assert_eq!(convert(&mut t, &native(0xFFFF_FFFE, 0, 0)), None);
    assert_eq!(convert(&mut t, &native(KEY_DOWN, 10, 0)), None);
    assert_eq!(convert(&mut t, &native(KEY_DOWN, -1, 0)), None);
    assert_eq!(convert(&mut t, &native(KEY_UP, 65536, 0)), None);
    assert_eq!(t.last_flags, 0);
}

#[test]
fn scroll_is_converted_within_range() {
    let mut t = ModifierTracker::new();
    let mut ev = native(SCROLL_WHEEL, 0, 0);
    ev.scroll_delta = -7;
    assert_eq!(convert(&mut t, &ev), Some(Event::MouseScroll { delta: -7 }));
    ev.scroll_delta = i32::MAX as i64 + 1;
    assert_eq!(convert(&mut t, &ev), None);
}

#[test]
fn conversion_of_concatenation_concatenates() {
    let a = vec![native(FLAGS_CHANGED, 56, SHIFT_FLAG), native(MOUSE_MOVED, 0, 0), native(KEY_DOWN, 1, 0)];
    let b = vec![native(FLAGS_CHANGED, 56, 0), native(LEFT_MOUSE_DOWN, 0, 0)];
    let mut whole_tracker = ModifierTracker::new();
    let mut both = a.clone();
    both.extend(b.iter().copied());
    let whole = convert_all(&mut whole_tracker, &both);
    let mut split_tracker = ModifierTracker::new();
    let mut parts = convert_all(&mut split_tracker, &a);
    parts.extend(convert_all(&mut split_tracker, &b));
    assert_eq!(whole, parts);
    assert_eq!(whole_tracker, split_tracker);
    assert_eq!(whole.len(), 4);
}

#[test]
fn hook_setup_failures_are_distinct() {
    assert_eq!(check_hook_setup(false, false), Err(InputError::TapCreate));
    assert_eq!(check_hook_setup(false, true), Err(InputError::TapCreate));
    assert_eq!(check_hook_setup(true, false), Err(InputError::LoopSource));
    assert_eq!(check_hook_setup(true, true), Ok(()));
}

#[test]
fn tap_option_and_mask_values() {
    assert_eq!(CGEventTapOption::Default.raw(), 0);
    assert_eq!(CGEventTapOption::ListenOnly.raw(), 1);
    assert_eq!(LISTEN_EVENT_MASK, 0x0040_1CFE);
}

#[test]
fn hook_delivers_skips_and_stops() {
    let mut h = CaptureHook::new();
    assert_eq!(h.outcome(), Ok(()));
    assert_eq!(
        h.on_native(&native(FLAGS_CHANGED, 56, SHIFT_FLAG)),
        HookAction::Deliver(key(Direction::Down, Key::LeftShift))
    );
    assert_eq!(h.on_native(&native(MOUSE_MOVED, 0, 0)), HookAction::Skip);
    assert_eq!(h.outcome(), Ok(()));
    assert_eq!(h.on_native(&native(TAP_DISABLED_BY_TIMEOUT, 0, 0)), HookAction::Stop);
    assert_eq!(h.tracker.last_flags, SHIFT_FLAG);
    assert_eq!(h.outcome(), Err(InputError::CaptureFailed));
}

#[test]
fn hook_revoked_by_user_is_a_capture_failure() {
    let mut h = CaptureHook::new();
    assert_eq!(h.on_native(&native(TAP_DISABLED_BY_USER_INPUT, 0, 0)), HookAction::Stop);
    assert_eq!(h.outcome(), Err(InputError::CaptureFailed));
}
