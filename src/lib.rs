//! Platform-independent capture and injection of keyboard and pointer input.
//!
//! The library holds the canonical event model, the native key-code table,
//! the conversion of native input notifications into canonical events, the
//! planning of synthetic native input from canonical events, and the
//! multiplexer that merges captured events with a fatal-error cell.
pub mod capture;
pub mod error;
pub mod event;
pub mod inject;
pub mod keycode;
pub mod manager;

pub use capture::{
    check_hook_setup, convert, convert_all, CGEventTapOption, CaptureHook, HookAction, ModifierTracker,
    NativeEvent,
};
pub use error::InputError;
pub use inject::NativeInjection;
pub use manager::{EventManager, ReadStep};
pub use event::{Axis, Button, Direction, Event, Key, KeyKind};
