//! The failures that the library reports.
use vstd::prelude::*;

verus! {

/// Why an operation failed. Conversion gaps and events that cannot be
/// injected are not failures and have no variant here.
#[derive(Clone, Copy, Debug, PartialEq, Eq, Structural)]
pub enum InputError {
    /// The listen hook could not be installed (no permission, or the OS refused).
    TapCreate,
    /// The installed hook could not be attached to the event loop.
    LoopSource,
    /// No synthetic-input event source could be acquired.
    EventSource,
    /// A running capture source failed after it had been installed.
    CaptureFailed,
    /// Every capture source has ended and no event is left: nothing more will arrive.
    AllSourcesClosed,
}

} // verus!
