use crate::capture::{CaptureTimeout, TraitCapturer};
use crate::display::Display;
use crate::error::ErrorKind;
use crate::frame::{stride_of, Frame};
use vstd::prelude::*;

verus! {

/// The duplication-based capturer: the high-performance backend, bound to one
/// display. The display's geometry is cached at construction and not
/// re-queried per frame; the capture mode (native duplication vs. the GDI
/// fallback the engine manages) is the one piece of mutable state. The native
/// duplication handle itself is opened, driven and released by the embedding,
/// which hands each acquisition outcome to [`TraitCapturer::frame`].
pub struct Capturer {
    width: usize,
    height: usize,
    gdi: bool,
}

/// What one acquisition on the duplication capturer returns, given the cached
/// height and the native outcome. This is the core's single semantic remap: a
/// native `TimedOut` — no frame became ready within the window — surfaces as
/// the recoverable `WouldBlock`; every other error kind is surfaced
/// unchanged; success wraps the bytes with the stride derived from the cached
/// height.
pub open spec fn spec_dup_frame_model(height: usize, native: Result<Seq<u8>, ErrorKind>) -> Result<
    (Seq<u8>, Seq<usize>),
    ErrorKind,
>
    recommends
        height > 0,
{
    match native {
        Ok(d) => Ok((d, seq![stride_of(d.len(), height as nat) as usize])),
        Err(e) => if e == ErrorKind::TimedOut {
            Err(ErrorKind::WouldBlock)
        } else {
            Err(e)
        },
    }
}

impl Capturer {
    /// The display width cached at construction.
    pub closed spec fn spec_width(&self) -> usize {
        self.width
    }

    /// The display height cached at construction.
    pub closed spec fn spec_height(&self) -> usize {
        self.height
    }

    /// The backend's capture mode: true iff the GDI fallback is engaged.
    pub closed spec fn spec_gdi_mode(&self) -> bool {
        self.gdi
    }

    /// Builds the capturer for one display, caching its width and height. A
    /// display with a zero dimension is rejected as invalid, since no frame
    /// stride could be derived from it; the embedding then opens the native
    /// duplication handle and surfaces whatever error the engine reports.
    pub fn new(display: Display) -> (r: Result<Capturer, ErrorKind>)
        ensures
            match r {
                Ok(c) => {
                    &&& display.spec_width() > 0
                    &&& display.spec_height() > 0
                    &&& c.spec_width() == display.spec_width()
                    &&& c.spec_height() == display.spec_height()
                    &&& !c.spec_gdi()
                    &&& c.spec_acquirable()
                },
                Err(e) => e == ErrorKind::InvalidInput && (display.spec_width() == 0
                    || display.spec_height() == 0),
            },
    {
        let width = display.width();
        let height = display.height();
        if width == 0 || height == 0 {
            Err(ErrorKind::InvalidInput)
        } else {
            Ok(Capturer { width, height, gdi: false })
        }
    }

    /// Instructs the backend to release any GDI fallback mode it engaged,
    /// returning to the primary duplication mode. The cached geometry is
    /// untouched.
    pub fn cancel_gdi(&mut self)
        ensures
            final(self).spec_width() == old(self).spec_width(),
            final(self).spec_height() == old(self).spec_height(),
            !final(self).spec_gdi(),
    {
        self.gdi = false;
    }

    /// The cached display width in pixels.
    pub fn width(&self) -> (r: usize)
        ensures
            r == self.spec_width(),
    {
        self.width
    }

    /// The cached display height in pixels.
    pub fn height(&self) -> (r: usize)
        ensures
            r == self.spec_height(),
    {
        self.height
    }
}

impl TraitCapturer for Capturer {
    /// Acquisition derives the stride from the cached height, so it must be
    /// positive; construction guarantees it.
    open spec fn spec_acquirable(&self) -> bool {
        self.spec_height() > 0
    }

    open spec fn spec_gdi(&self) -> bool {
        self.spec_gdi_mode()
    }

    /// The configuration of this backend is the geometry cached at
    /// construction.
    open spec fn spec_same_config(self, other: Self) -> bool {
        self.spec_width() == other.spec_width() && self.spec_height() == other.spec_height()
    }

    /// This backend owns no frame buffer, so outside the mode flag only the
    /// cached geometry is observable.
    open spec fn spec_same_but_mode(self, other: Self) -> bool {
        self.spec_same_config(other)
    }

    open spec fn spec_frame_model(
        &self,
        timeout: CaptureTimeout,
        native: Result<Seq<u8>, ErrorKind>,
    ) -> Result<(Seq<u8>, Seq<usize>), ErrorKind> {
        spec_dup_frame_model(self.spec_height(), native)
    }

    /// This backend drives the duplication engine: the switch goes exactly
    /// as the engine answered.
    open spec fn spec_gdi_switch_honored(&self, honored: bool) -> bool {
        honored
    }

    fn frame(&mut self, _timeout: CaptureTimeout, native: Result<Vec<u8>, ErrorKind>) -> (r: Result<
        Frame,
        ErrorKind,
    >) {
        match native {
            Ok(d) => Ok(Frame::new(d, self.height)),
            Err(e) => if e == ErrorKind::TimedOut {
                Err(ErrorKind::WouldBlock)
            } else {
                Err(e)
            },
        }
    }

    fn is_gdi(&self) -> (r: bool) {
        self.gdi
    }

    fn set_gdi(&mut self, honored: bool) -> (r: bool) {
        if honored {
            self.gdi = true;
        }
        honored
    }
}

/// A native acquisition timeout is always surfaced as `WouldBlock`, and any
/// other native error kind is surfaced unchanged — in particular never
/// downgraded to `WouldBlock`.
pub proof fn lemma_timeout_surfaces_as_would_block(height: usize, e: ErrorKind)
    ensures
        e == ErrorKind::TimedOut ==> spec_dup_frame_model(
            height,
            Result::<Seq<u8>, ErrorKind>::Err(e),
        ) == Result::<(Seq<u8>, Seq<usize>), ErrorKind>::Err(ErrorKind::WouldBlock),
        e != ErrorKind::TimedOut ==> spec_dup_frame_model(
            height,
            Result::<Seq<u8>, ErrorKind>::Err(e),
        ) == Result::<(Seq<u8>, Seq<usize>), ErrorKind>::Err(e),
{
}

/// No acquisition on the duplication capturer ever surfaces a generic
/// `TimedOut`: the remap leaves no path for it.
pub proof fn lemma_no_timed_out_surfaced(height: usize, native: Result<Seq<u8>, ErrorKind>)
    ensures
        spec_dup_frame_model(height, native) != Result::<(Seq<u8>, Seq<usize>), ErrorKind>::Err(
            ErrorKind::TimedOut,
        ),
{
}

} // verus!
