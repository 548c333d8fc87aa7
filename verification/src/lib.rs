//! Driver core for a monochrome e-paper panel: a packed 1-bit framebuffer
//! and the controller state machine that sequences reset, initialization,
//! frame transfer, refresh and deep sleep over a serial bus.

use vstd::prelude::*;

pub mod driver;
pub mod framebuffer;
pub mod hal;
pub mod sim;

verus! {

/// Every way a driver or framebuffer operation can fail.
#[derive(Clone, Copy, Debug, PartialEq, Eq, Structural)]
pub enum EpdError {
    /// Framebuffer width is not a multiple of 8.
    InvalidGeometry,
    /// Supplied byte buffer does not match the packed size for the geometry.
    SizeMismatch,
    /// A bus transfer failed during hardware bring-up.
    HardwareInitError,
    /// A bus transfer failed while sending a command or frame data.
    TransferError,
    /// The panel did not clear its busy line within the allotted window.
    BusyTimeout,
    /// An operation was invoked outside the state that permits it.
    IllegalState,
}

} // verus!
