use vstd::prelude::*;

verus! {

/// The error taxonomy of the capture core.
///
/// `TimedOut` is what a native backend reports when no frame became ready
/// within the acquisition window; the duplication capturer remaps it to
/// `WouldBlock`, the recoverable "poll again" signal. Every other kind is
/// surfaced unchanged from the native engines: transient device errors
/// (`DeviceLost`, `AccessDenied`, `Disconnected`), capability and lookup
/// failures (`Unsupported`, `NotFound`), and invalid construction geometry
/// (`InvalidInput`).
#[derive(Clone, Copy, Debug, PartialEq, Eq, Structural)]
pub enum ErrorKind {
    /// A native backend saw its acquisition window elapse with no frame ready.
    TimedOut,
    /// Recoverable "no frame yet, poll again" signal; never fatal.
    WouldBlock,
    /// A lookup found nothing; also the outcome of the primary-display stub.
    NotFound,
    /// The native engine denied access to the display or region.
    AccessDenied,
    /// The capture device was lost, commonly during a mode switch.
    DeviceLost,
    /// The captured display was disconnected.
    Disconnected,
    /// The requested backend or feature is unavailable on this system.
    Unsupported,
    /// The requested display or region geometry is invalid.
    InvalidInput,
}

} // verus!
