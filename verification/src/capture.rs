use crate::error::ErrorKind;
use crate::frame::Frame;
use vstd::prelude::*;

verus! {

/// The caller-specified bound on one acquisition: seconds plus sub-second
/// nanoseconds. The native duplication engine takes whole milliseconds, so
/// the bound is converted by truncating any sub-millisecond remainder.
#[derive(Clone, Copy, Debug, PartialEq, Eq, Structural)]
pub struct CaptureTimeout {
    pub secs: u64,
    pub nanos: u32,
}

impl CaptureTimeout {
    /// This bound in whole milliseconds, truncating the sub-millisecond
    /// remainder.
    pub fn millis(&self) -> (r: u128)
        ensures
            r == self.secs * 1000 + self.nanos / 1_000_000,
    {
        (self.secs as u128) * 1000 + (self.nanos / 1_000_000) as u128
    }
}

/// The native acquisition outcome as a mathematical value: the captured bytes
/// or the native error kind.
pub open spec fn spec_native_outcome(native: Result<Vec<u8>, ErrorKind>) -> Result<
    Seq<u8>,
    ErrorKind,
> {
    match native {
        Ok(d) => Ok(d@),
        Err(e) => Err(e),
    }
}

/// Relates an acquisition result to its model: the same error kind, or a
/// frame holding exactly the modeled bytes and row strides.
pub open spec fn spec_frame_matches(
    r: Result<Frame, ErrorKind>,
    m: Result<(Seq<u8>, Seq<usize>), ErrorKind>,
) -> bool {
    match (r, m) {
        (Ok(f), Ok(p)) => f.spec_data() == p.0 && f.spec_stride() == p.1,
        (Err(e), Err(k)) => e == k,
        _ => false,
    }
}

/// The capture capability both backends satisfy, the polymorphism boundary
/// callers program against: frame acquisition bounded by a timeout, and the
/// GDI-mode query/force pair. The native engines live outside this crate, so
/// each acquisition takes the native outcome — the raw bytes the engine
/// produced within the window, or its error — as a plain value; the embedding
/// makes the native call and hands the outcome in.
pub trait TraitCapturer: Sized {
    /// Whether acquisition may be attempted on this state: the stride
    /// derivation needs a positive row count.
    spec fn spec_acquirable(&self) -> bool;

    /// The backend's current capture mode: true iff the GDI fallback.
    spec fn spec_gdi(&self) -> bool;

    /// Whether two states of this backend agree on its capture
    /// configuration: for the display-bound backend the geometry cached at
    /// construction, for the region backend the configured rect and the
    /// recorded exclusions. No acquisition and no mode toggle ever changes
    /// the configuration.
    spec fn spec_same_config(self, other: Self) -> bool;

    /// Whether two states of this backend agree on everything observable
    /// except the capture mode: the configuration and, for a backend owning
    /// a frame buffer, the buffer contents.
    spec fn spec_same_but_mode(self, other: Self) -> bool;

    /// What one acquisition returns, as a function of the backend state, the
    /// caller's bound, and the native outcome.
    spec fn spec_frame_model(
        &self,
        timeout: CaptureTimeout,
        native: Result<Seq<u8>, ErrorKind>,
    ) -> Result<(Seq<u8>, Seq<usize>), ErrorKind>;

    /// What a request to force GDI mode reports, given the native engine's
    /// answer `honored` to the forwarded switch: a backend that never uses
    /// GDI reports false whatever the engine answered.
    spec fn spec_gdi_switch_honored(&self, honored: bool) -> bool;

    /// One acquisition: normalizes the native outcome into a frame or an
    /// error, exactly as `spec_frame_model` says, leaving the capture
    /// configuration as it was. The returned frame must be fully consumed or
    /// copied before the next acquisition on this backend.
    fn frame(&mut self, timeout: CaptureTimeout, native: Result<Vec<u8>, ErrorKind>) -> (r: Result<
        Frame,
        ErrorKind,
    >)
        requires
            old(self).spec_acquirable(),
        ensures
            final(self).spec_acquirable(),
            old(self).spec_same_config(*final(self)),
            spec_frame_matches(r, old(self).spec_frame_model(timeout, spec_native_outcome(native))),
    ;

    /// Whether the backend is currently in GDI capture mode.
    fn is_gdi(&self) -> (r: bool)
        ensures
            r == self.spec_gdi(),
    ;

    /// Requests the GDI capture mode. `honored` is the native engine's
    /// answer to the forwarded switch request, handed in by the embedding; a
    /// backend that never uses GDI ignores it, leaves its mode untouched and
    /// reports false. Nothing observable changes but, at most, the mode.
    fn set_gdi(&mut self, honored: bool) -> (r: bool)
        ensures
            final(self).spec_acquirable() == old(self).spec_acquirable(),
            old(self).spec_same_but_mode(*final(self)),
            r == old(self).spec_gdi_switch_honored(honored),
            final(self).spec_gdi() == (old(self).spec_gdi() || r),
    ;
}

} // verus!
