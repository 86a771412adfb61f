//! Planning of synthetic native input from canonical events.
//!
//! A plan names the native event to submit in plain values. Pointer moves
//! are planned as an offset from the pointer location that the OS reports
//! when the plan is carried out, so the axis that an event does not name
//! keeps its position. Keyboard keys are a declared gap of this backend:
//! no keyboard event is synthesized, and every key transition is not
//! representable.
use vstd::prelude::*;

use crate::capture::{LEFT_MOUSE_DOWN, LEFT_MOUSE_UP, RIGHT_MOUSE_DOWN, RIGHT_MOUSE_UP};
use crate::event::{Axis, Button, Direction, Event, KeyKind};

verus! {

/// Number of wheel axes a synthetic scroll reports.
pub const SCROLL_WHEEL_COUNT: u32 = 2;

/// A synthetic native input to submit.
#[derive(Clone, Copy, Debug, PartialEq, Eq, Structural)]
pub enum NativeInjection {
    /// A scroll of `wheel1` and `wheel2` pixels on `wheel_count` wheel axes.
    Scroll { wheel_count: u32, wheel1: i32, wheel2: i32 },
    /// A pointer move to the current location shifted by `dx` and `dy`.
    MoveBy { dx: i32, dy: i32 },
    /// A button transition of native type `event_type` at the current location.
    ButtonAt { event_type: u32 },
}

/// The native type of a transition of `button` in `direction`, if it has one.
pub open spec fn button_type(button: Button, direction: Direction) -> Option<u32> {
    match (button, direction) {
        (Button::Left, Direction::Down) => Some(LEFT_MOUSE_DOWN),
        (Button::Left, Direction::Up) => Some(LEFT_MOUSE_UP),
        (Button::Right, Direction::Down) => Some(RIGHT_MOUSE_DOWN),
        (Button::Right, Direction::Up) => Some(RIGHT_MOUSE_UP),
        _ => None,
    }
}

/// The synthetic input for `e`, or `None` where the platform cannot represent
/// it. Keyboard synthesis is a declared gap: every key transition is `None`.
pub open spec fn injection_of(e: Event) -> Option<NativeInjection> {
    match e {
        Event::MouseScroll { delta } => Some(
            NativeInjection::Scroll { wheel_count: SCROLL_WHEEL_COUNT, wheel1: delta, wheel2: delta },
        ),
        Event::MouseMove { axis, delta } => match axis {
            Axis::X => Some(NativeInjection::MoveBy { dx: delta, dy: 0 }),
            Axis::Y => Some(NativeInjection::MoveBy { dx: 0, dy: delta }),
        },
        Event::Key { direction, kind } => match kind {
            KeyKind::Button(b) => match button_type(b, direction) {
                Some(t) => Some(NativeInjection::ButtonAt { event_type: t }),
                None => None,
            },
            KeyKind::Key(_) => None,
        },
    }
}

/// Where the pointer at (`x`, `y`) goes when the plan for `e` is carried out.
pub open spec fn pointer_after(x: int, y: int, e: Event) -> (int, int) {
    match injection_of(e) {
        Some(NativeInjection::MoveBy { dx, dy }) => (x + dx, y + dy),
        _ => (x, y),
    }
}

impl Event {
    /// The synthetic native input for this event, or `None` where the
    /// platform has no equivalent: a button without a native transition, or
    /// any keyboard key, whose synthesis this backend does not offer.
    pub fn to_raw(&self) -> (r: Option<NativeInjection>)
        ensures
            r == injection_of(*self),
    {
        match self {
            Event::MouseScroll { delta } => Some(
                NativeInjection::Scroll {
                    wheel_count: SCROLL_WHEEL_COUNT,
                    wheel1: *delta,
                    wheel2: *delta,
                },
            ),
            Event::MouseMove { axis, delta } => match axis {
                Axis::X => Some(NativeInjection::MoveBy { dx: *delta, dy: 0 }),
                Axis::Y => Some(NativeInjection::MoveBy { dx: 0, dy: *delta }),
            },
            Event::Key { direction, kind } => match kind {
                KeyKind::Button(b) => {
                    let t = match (b, direction) {
                        (Button::Left, Direction::Down) => LEFT_MOUSE_DOWN,
                        (Button::Left, Direction::Up) => LEFT_MOUSE_UP,
                        (Button::Right, Direction::Down) => RIGHT_MOUSE_DOWN,
                        (Button::Right, Direction::Up) => RIGHT_MOUSE_UP,
                        _ => {
                            return None;
                        },
                    };
                    Some(NativeInjection::ButtonAt { event_type: t })
                },
                KeyKind::Key(_) => None,
            },
        }
    }
}

/// A pointer move changes only the axis it names: the other coordinate
/// keeps its last position, so a move on X followed by a move on Y lands on
/// both offsets.
pub proof fn lemma_move_keeps_other_axis(x: int, y: int, dx: i32, dy: i32)
    ensures
        pointer_after(x, y, Event::MouseMove { axis: Axis::X, delta: dx }) == (x + dx, y),
        pointer_after(x, y, Event::MouseMove { axis: Axis::Y, delta: dy }) == (x, y + dy),
        pointer_after(
            x + dx,
            y,
            Event::MouseMove { axis: Axis::Y, delta: dy },
        ) == (x + dx, y + dy),
{
}

} // verus!
