//! Conversion of native input notifications into canonical events.
//!
//! A native notification is reduced to the plain values that conversion
//! reads. Notifications without a canonical equivalent, and keys without a
//! table entry, are dropped. Modifier changes arrive as a new modifier flag
//! set and are turned into a press or a release by comparing it with the
//! previously observed set, which a [`ModifierTracker`] keeps.
use vstd::prelude::*;

use crate::error::InputError;
use crate::event::{Button, Direction, Event, Key, KeyKind};
use crate::keycode::key_for_code;

verus! {

/// Native event type of a left button press.
pub const LEFT_MOUSE_DOWN: u32 = 1;
/// Native event type of a left button release.
pub const LEFT_MOUSE_UP: u32 = 2;
/// Native event type of a right button press.
pub const RIGHT_MOUSE_DOWN: u32 = 3;
/// Native event type of a right button release.
pub const RIGHT_MOUSE_UP: u32 = 4;
/// Native event type of a pointer move.
pub const MOUSE_MOVED: u32 = 5;
/// Native event type of a key press.
pub const KEY_DOWN: u32 = 10;
/// Native event type of a key release.
pub const KEY_UP: u32 = 11;
/// Native event type of a change of the modifier flags.
pub const FLAGS_CHANGED: u32 = 12;
/// Native event type of a scroll-wheel movement.
pub const SCROLL_WHEEL: u32 = 22;
/// Native notification that the OS disabled the hook because it was too slow.
pub const TAP_DISABLED_BY_TIMEOUT: u32 = 0xFFFF_FFFE;
/// Native notification that the OS disabled the hook on user input (permission revoked).
pub const TAP_DISABLED_BY_USER_INPUT: u32 = 0xFFFF_FFFF;
/// Position at which a listen hook is inserted: ahead of every other hook.
pub const HEAD_INSERT_EVENT_TAP: u32 = 0;

/// How a listen hook is installed: able to modify events, or listening only.
#[derive(Clone, Copy, Debug, PartialEq, Eq, Structural)]
pub enum CGEventTapOption {
    Default,
    ListenOnly,
}

impl CGEventTapOption {
    /// The native value of this option.
    pub fn raw(&self) -> (r: u32)
        ensures
            r == (match *self {
                CGEventTapOption::Default => 0u32,
                CGEventTapOption::ListenOnly => 1u32,
            }),
    {
        match self {
            CGEventTapOption::Default => 0,
            CGEventTapOption::ListenOnly => 1,
        }
    }
}

/// Native event types a listen hook asks for, one bit per type: the button
/// transitions, pointer moves and drags, key transitions, modifier changes
/// and scroll-wheel movements.
pub const LISTEN_EVENT_MASK: u64 = (1u64 << 1u64) | (1u64 << 2u64) | (1u64 << 3u64) | (1u64 << 4u64)
    | (1u64 << 5u64) | (1u64 << 6u64) | (1u64 << 7u64) | (1u64 << 10u64) | (1u64 << 11u64) | (
1u64 << 12u64) | (1u64 << 22u64);

/// The values of one native notification that conversion reads.
#[derive(Clone, Copy, Debug, PartialEq, Eq, Structural)]
pub struct NativeEvent {
    /// The native event type.
    pub event_type: u32,
    /// The keyboard key-code field.
    pub keycode: i64,
    /// The modifier flag set carried by the notification.
    pub flags: u64,
    /// The scroll delta on the first wheel axis, in pixels.
    pub scroll_delta: i64,
}

/// The modifier flag set last observed by one hook installation.
#[derive(Clone, Copy, Debug, PartialEq, Eq, Structural)]
pub struct ModifierTracker {
    pub last_flags: u64,
}

/// The key named by a key-code field, if the field holds a declared code.
pub open spec fn key_of_field(code: i64) -> Option<Key> {
    if 0 <= code && code <= u16::MAX as i64 {
        key_for_code(code as u16)
    } else {
        None
    }
}

/// A key transition of `key` in `direction`.
pub open spec fn key_event(direction: Direction, key: Key) -> Event {
    Event::Key { direction, kind: KeyKind::Key(key) }
}

/// A button transition of `button` in `direction`.
pub open spec fn button_event(direction: Direction, button: Button) -> Event {
    Event::Key { direction, kind: KeyKind::Button(button) }
}

/// The canonical event for `ev`, given the modifier flags observed before it.
pub open spec fn converted(last_flags: u64, ev: NativeEvent) -> Option<Event> {
    let t = ev.event_type;
    if t == LEFT_MOUSE_DOWN {
        Some(button_event(Direction::Down, Button::Left))
    } else if t == LEFT_MOUSE_UP {
        Some(button_event(Direction::Up, Button::Left))
    } else if t == RIGHT_MOUSE_DOWN {
        Some(button_event(Direction::Down, Button::Right))
    } else if t == RIGHT_MOUSE_UP {
        Some(button_event(Direction::Up, Button::Right))
    } else if t == KEY_DOWN || t == KEY_UP {
        match key_of_field(ev.keycode) {
            Some(k) => Some(key_event(if t == KEY_DOWN { Direction::Down } else { Direction::Up }, k)),
            None => None,
        }
    } else if t == FLAGS_CHANGED {
        match key_of_field(ev.keycode) {
            Some(k) => if ev.flags > last_flags {
                Some(key_event(Direction::Down, k))
            } else if ev.flags < last_flags {
                Some(key_event(Direction::Up, k))
            } else {
                None
            },
            None => None,
        }
    } else if t == SCROLL_WHEEL {
        if i32::MIN <= ev.scroll_delta && ev.scroll_delta <= i32::MAX {
            Some(Event::MouseScroll { delta: ev.scroll_delta as i32 })
        } else {
            None
        }
    } else {
        None
    }
}

/// The modifier flags observed after `ev`.
pub open spec fn flags_after_event(last_flags: u64, ev: NativeEvent) -> u64 {
    if ev.event_type == FLAGS_CHANGED {
        ev.flags
    } else {
        last_flags
    }
}

/// The canonical events for the notifications `evs`, delivered in order
/// starting from the modifier flags `last_flags`.
pub open spec fn converted_seq(last_flags: u64, evs: Seq<NativeEvent>) -> Seq<Event>
    decreases evs.len(),
{
    if evs.len() == 0 {
        Seq::empty()
    } else {
        let head = match converted(last_flags, evs[0]) {
            Some(e) => seq![e],
            None => Seq::empty(),
        };
        head + converted_seq(flags_after_event(last_flags, evs[0]), evs.drop_first())
    }
}

/// The modifier flags observed after the notifications `evs`.
pub open spec fn flags_after(last_flags: u64, evs: Seq<NativeEvent>) -> u64
    decreases evs.len(),
{
    if evs.len() == 0 {
        last_flags
    } else {
        flags_after(flags_after_event(last_flags, evs[0]), evs.drop_first())
    }
}

impl ModifierTracker {
    /// A tracker for a new hook installation: no modifier held.
    pub fn new() -> (r: ModifierTracker)
        ensures
            r.last_flags == 0,
    {
        ModifierTracker { last_flags: 0 }
    }
}

fn key_of_keycode(code: i64) -> (r: Option<Key>)
    ensures
        r == key_of_field(code),
{
    if 0 <= code && code <= u16::MAX as i64 {
        Key::from_raw(code as u16)
    } else {
        None
    }
}

/// Converts one native notification into a canonical event, or `None` where
/// it has none; a modifier change updates the tracker.
pub fn convert(tracker: &mut ModifierTracker, native: &NativeEvent) -> (r: Option<Event>)
    ensures
        r == converted(old(tracker).last_flags, *native),
        final(tracker).last_flags == flags_after_event(old(tracker).last_flags, *native),
{
    let t = native.event_type;
    if t == LEFT_MOUSE_DOWN {
        Some(Event::Key { direction: Direction::Down, kind: KeyKind::Button(Button::Left) })
    } else if t == LEFT_MOUSE_UP {
        Some(Event::Key { direction: Direction::Up, kind: KeyKind::Button(Button::Left) })
    } else if t == RIGHT_MOUSE_DOWN {
        Some(Event::Key { direction: Direction::Down, kind: KeyKind::Button(Button::Right) })
    } else if t == RIGHT_MOUSE_UP {
        Some(Event::Key { direction: Direction::Up, kind: KeyKind::Button(Button::Right) })
    } else if t == KEY_DOWN || t == KEY_UP {
        let direction = if t == KEY_DOWN { Direction::Down } else { Direction::Up };
        match key_of_keycode(native.keycode) {
            Some(k) => Some(Event::Key { direction, kind: KeyKind::Key(k) }),
            None => None,
        }
    } else if t == FLAGS_CHANGED {
        let last = tracker.last_flags;
        tracker.last_flags = native.flags;
        match key_of_keycode(native.keycode) {
            Some(k) => if native.flags > last {
                Some(Event::Key { direction: Direction::Down, kind: KeyKind::Key(k) })
            } else if native.flags < last {
                Some(Event::Key { direction: Direction::Up, kind: KeyKind::Key(k) })
            } else {
                None
            },
            None => None,
        }
    } else if t == SCROLL_WHEEL {
        let d = native.scroll_delta;
        if i32::MIN as i64 <= d && d <= i32::MAX as i64 {
            Some(Event::MouseScroll { delta: d as i32 })
        } else {
            None
        }
    } else {
        None
    }
}

/// Splitting a delivered sequence splits its conversion at the same place:
/// the events of the earlier notifications all come first, in their order,
/// and the later ones are converted from the modifier state the earlier left.
pub proof fn lemma_converted_concat(last_flags: u64, a: Seq<NativeEvent>, b: Seq<NativeEvent>)
    ensures
        converted_seq(last_flags, a + b) == converted_seq(last_flags, a) + converted_seq(
            flags_after(last_flags, a),
            b,
        ),
        flags_after(last_flags, a + b) == flags_after(flags_after(last_flags, a), b),
    decreases a.len(),
{
    if a.len() == 0 {
        assert(a + b =~= b);
    } else {
        let next = flags_after_event(last_flags, a[0]);
        lemma_converted_concat(next, a.drop_first(), b);
        assert((a + b).drop_first() =~= a.drop_first() + b);
        assert((a + b)[0] == a[0]);
        let head = match converted(last_flags, a[0]) {
            Some(e) => seq![e],
            None => Seq::<Event>::empty(),
        };
        assert(head + (converted_seq(next, a.drop_first()) + converted_seq(
            flags_after(next, a.drop_first()),
            b,
        )) =~= (head + converted_seq(next, a.drop_first())) + converted_seq(
            flags_after(next, a.drop_first()),
            b,
        ));
    }
}

proof fn lemma_converted_single(last_flags: u64, ev: NativeEvent)
    ensures
        converted_seq(last_flags, seq![ev]) == match converted(last_flags, ev) {
            Some(e) => seq![e],
            None => Seq::<Event>::empty(),
        },
        flags_after(last_flags, seq![ev]) == flags_after_event(last_flags, ev),
{
    let s = seq![ev];
    assert(s.drop_first() =~= Seq::<NativeEvent>::empty());
    reveal_with_fuel(converted_seq, 2);
    reveal_with_fuel(flags_after, 2);
    match converted(last_flags, ev) {
        Some(e) => {
            assert(seq![e] + Seq::<Event>::empty() =~= seq![e]);
        },
        None => {
            assert(Seq::<Event>::empty() + Seq::<Event>::empty() =~= Seq::<Event>::empty());
        },
    }
}

/// Converts the notifications `natives` in delivery order, dropping those
/// without a canonical equivalent; the tracker follows every modifier change.
pub fn convert_all(tracker: &mut ModifierTracker, natives: &Vec<NativeEvent>) -> (r: Vec<Event>)
    ensures
        r@ == converted_seq(old(tracker).last_flags, natives@),
        final(tracker).last_flags == flags_after(old(tracker).last_flags, natives@),
{
    let ghost start = tracker.last_flags;
    let mut out: Vec<Event> = Vec::new();
    let mut i: usize = 0;
    while i < natives.len()
        invariant
            i <= natives@.len(),
            out@ == converted_seq(start, natives@.take(i as int)),
            tracker.last_flags == flags_after(start, natives@.take(i as int)),
        decreases natives@.len() - i,
    {
        let ghost before = tracker.last_flags;
        let r = convert(tracker, &natives[i]);
        proof {
            let ev = natives@[i as int];
            assert(natives@.take(i as int + 1) =~= natives@.take(i as int) + seq![ev]);
            lemma_converted_concat(start, natives@.take(i as int), seq![ev]);
            lemma_converted_single(before, ev);
        }
        match r {
            Some(e) => {
                out.push(e);
            },
            None => {},
        }
        proof {
            let ev = natives@[i as int];
            match converted(before, ev) {
                Some(e) => {},
                None => {
                    assert(out@ + Seq::<Event>::empty() =~= out@);
                },
            }
        }
        i = i + 1;
    }
    assert(natives@.take(natives@.len() as int) =~= natives@);
    out
}

/// Whether the native type `t` reports that the OS tore the hook down.
pub open spec fn tap_disabled(t: u32) -> bool {
    t == TAP_DISABLED_BY_TIMEOUT || t == TAP_DISABLED_BY_USER_INPUT
}

/// What a running hook does with one native notification.
#[derive(Clone, Copy, Debug, PartialEq, Eq, Structural)]
pub enum HookAction {
    /// Hand this canonical event to the callback.
    Deliver(Event),
    /// Drop the notification: it has no canonical equivalent.
    Skip,
    /// The OS tore the hook down: stop its event loop.
    Stop,
}

/// The state of one hook installation: the modifier flags last observed,
/// and whether the OS has torn the hook down.
#[derive(Clone, Copy, Debug, PartialEq, Eq, Structural)]
pub struct CaptureHook {
    pub tracker: ModifierTracker,
    pub failed: bool,
}

impl CaptureHook {
    /// The state of a newly installed hook.
    pub fn new() -> (r: CaptureHook)
        ensures
            r.tracker.last_flags == 0,
            !r.failed,
    {
        CaptureHook { tracker: ModifierTracker::new(), failed: false }
    }

    /// Handles one native notification in delivery order: a teardown stops
    /// the hook and marks it failed; anything else is converted.
    pub fn on_native(&mut self, native: &NativeEvent) -> (r: HookAction)
        ensures
            tap_disabled(native.event_type) ==> r == HookAction::Stop && final(self).failed
                && final(self).tracker == old(self).tracker,
            !tap_disabled(native.event_type) ==> r == (match converted(
                old(self).tracker.last_flags,
                *native,
            ) {
                Some(e) => HookAction::Deliver(e),
                None => HookAction::Skip,
            }) && final(self).failed == old(self).failed && final(self).tracker.last_flags
                == flags_after_event(old(self).tracker.last_flags, *native),
    {
        let t = native.event_type;
        if t == TAP_DISABLED_BY_TIMEOUT || t == TAP_DISABLED_BY_USER_INPUT {
            self.failed = true;
            return HookAction::Stop;
        }
        match convert(&mut self.tracker, native) {
            Some(e) => HookAction::Deliver(e),
            None => HookAction::Skip,
        }
    }

    /// How the hook ended once its event loop returned: a teardown by the OS
    /// is a capture failure.
    pub fn outcome(&self) -> (r: Result<(), InputError>)
        ensures
            self.failed ==> r == Err::<(), InputError>(InputError::CaptureFailed),
            !self.failed ==> r == Ok::<(), InputError>(()),
    {
        if self.failed {
            Err(InputError::CaptureFailed)
        } else {
            Ok(())
        }
    }
}

/// The outcome of installing a listen hook: installing it and attaching it
/// to the event loop fail with distinct errors, the first failure reported.
pub fn check_hook_setup(tap_created: bool, source_attached: bool) -> (r: Result<(), InputError>)
    ensures
        !tap_created ==> r == Err::<(), InputError>(InputError::TapCreate),
        tap_created && !source_attached ==> r == Err::<(), InputError>(InputError::LoopSource),
        r is Ok <==> tap_created && source_attached,
{
    if !tap_created {
        Err(InputError::TapCreate)
    } else if !source_attached {
        Err(InputError::LoopSource)
    } else {
        Ok(())
    }
}

} // verus!
