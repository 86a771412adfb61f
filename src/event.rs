//! The canonical event model shared by every backend.
use vstd::prelude::*;

verus! {

/// A symbolic keyboard key. A platform may have no native code for some keys.
#[derive(Clone, Copy, Debug, PartialEq, Eq, Structural)]
pub enum Key {
    A,
    B,
    C,
    D,
    E,
    F,
    G,
    H,
    I,
    J,
    K,
    L,
    M,
    N,
    O,
    P,
    Q,
    R,
    S,
    T,
    U,
    V,
    W,
    X,
    Y,
    Z,
    Num0,
    Num1,
    Num2,
    Num3,
    Num4,
    Num5,
    Num6,
    Num7,
    Num8,
    Num9,
    F1,
    F2,
    F3,
    F4,
    F5,
    F6,
    F7,
    F8,
    F9,
    F10,
    F11,
    F12,
    Esc,
    Backspace,
    Tab,
    Enter,
    Space,
    CapsLock,
    LeftShift,
    RightShift,
    Controlpanel,
    LeftAlt,
    RightAlt,
    LeftMeta,
    RightMeta,
    Function,
    Up,
    Down,
    Left,
    Right,
    Insert,
    PrintScreen,
}

/// A pointer button.
#[derive(Clone, Copy, Debug, PartialEq, Eq, Structural)]
pub enum Button {
    Left,
    Right,
    Middle,
}

/// The transition phase of a key or a button.
#[derive(Clone, Copy, Debug, PartialEq, Eq, Structural)]
pub enum Direction {
    Down,
    Up,
}

/// What changed direction: a pointer button or a keyboard key.
#[derive(Clone, Copy, Debug, PartialEq, Eq, Structural)]
pub enum KeyKind {
    Button(Button),
    Key(Key),
}

/// The movement axis that a relative pointer delta applies to.
#[derive(Clone, Copy, Debug, PartialEq, Eq, Structural)]
pub enum Axis {
    X,
    Y,
}

/// One canonical input event. Spatial data is always a relative delta.
#[derive(Clone, Copy, Debug, PartialEq, Eq, Structural)]
pub enum Event {
    Key { direction: Direction, kind: KeyKind },
    MouseMove { axis: Axis, delta: i32 },
    MouseScroll { delta: i32 },
}

} // verus!
