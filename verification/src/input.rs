//! Input events delivered by the host bar protocol. Only the data needed to
//! map a wheel event onto a logical direction lives here; click handling
//! itself belongs to the scheduler.

use vstd::prelude::*;

verus! {

/// A mouse button reported with a click event.
#[derive(Copy, Clone, Debug, PartialEq, Eq, Structural)]
pub enum MouseButton {
    Left,
    Middle,
    Right,
    WheelUp,
    WheelDown,
    Unknown,
}

} // verus!
