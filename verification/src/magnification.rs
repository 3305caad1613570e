use crate::capture::{CaptureTimeout, TraitCapturer};
use crate::error::ErrorKind;
use crate::frame::{stride_of, Frame};
use vstd::prelude::*;

verus! {

/// The region-based capturer: the fallback backend over the magnification
/// engine. It captures an arbitrary screen rectangle, independent of any
/// display handle, owns a reusable byte buffer that receives each captured
/// frame, and records which windows are excluded from the composition. The
/// native magnification handle is opened, driven and released by the
/// embedding, which hands each capture outcome to [`TraitCapturer::frame`].
/// GDI fallback is the duplication backend's concept only: this backend
/// always reports non-GDI and rejects mode toggling.
pub struct CapturerMag {
    origin: (i32, i32),
    width: usize,
    height: usize,
    data: Vec<u8>,
    excluded: Vec<(String, String)>,
}

/// What one acquisition on the region capturer returns, given the configured
/// height and the native outcome. The caller's timeout plays no part — this
/// backend is synchronous, not pollable — and no error is remapped: success
/// wraps the captured bytes with the stride derived from the region height,
/// and any native error is surfaced unchanged.
pub open spec fn spec_mag_frame_model(height: usize, native: Result<Seq<u8>, ErrorKind>) -> Result<
    (Seq<u8>, Seq<usize>),
    ErrorKind,
>
    recommends
        height > 0,
{
    match native {
        Ok(d) => Ok((d, seq![stride_of(d.len(), height as nat) as usize])),
        Err(e) => Err(e),
    }
}

impl CapturerMag {
    /// The configured region origin.
    pub closed spec fn spec_origin(&self) -> (i32, i32) {
        self.origin
    }

    /// The configured region width in pixels.
    pub closed spec fn spec_width(&self) -> usize {
        self.width
    }

    /// The configured region height in pixels.
    pub closed spec fn spec_height(&self) -> usize {
        self.height
    }

    /// The contents of the reusable frame buffer: the bytes of the most
    /// recently captured frame, empty before the first capture.
    pub closed spec fn spec_data(&self) -> Seq<u8> {
        self.data@
    }

    /// The window exclusions registered so far, each a (class, title) pair,
    /// in registration order.
    pub closed spec fn spec_excluded(&self) -> Seq<(Seq<char>, Seq<char>)> {
        self.excluded@.map_values(|p: (String, String)| (p.0@, p.1@))
    }

    /// Capability probe for the region backend: whether the native
    /// magnification engine is available on this system. Only the embedding
    /// can ask the native engine, so it hands the probe's answer in, and it
    /// is reported unchanged; construction must be gated on it.
    pub fn is_supported(available: bool) -> (r: bool)
        ensures
            r == available,
    {
        available
    }

    /// Builds the capturer for one screen rectangle. A region with a zero
    /// dimension is rejected as invalid, since no frame stride could be
    /// derived from it; the embedding then opens the native magnification
    /// handle and surfaces whatever error the engine reports. The frame
    /// buffer starts empty and no window is excluded yet.
    pub fn new(origin: (i32, i32), width: usize, height: usize) -> (r: Result<
        CapturerMag,
        ErrorKind,
    >)
        ensures
            match r {
                Ok(c) => {
                    &&& width > 0
                    &&& height > 0
                    &&& c.spec_origin() == origin
                    &&& c.spec_width() == width
                    &&& c.spec_height() == height
                    &&& c.spec_data() == Seq::<u8>::empty()
                    &&& c.spec_excluded() == Seq::<(Seq<char>, Seq<char>)>::empty()
                    &&& c.spec_acquirable()
                },
                Err(e) => e == ErrorKind::InvalidInput && (width == 0 || height == 0),
            },
    {
        if width == 0 || height == 0 {
            Err(ErrorKind::InvalidInput)
        } else {
            let c = CapturerMag { origin, width, height, data: Vec::new(), excluded: Vec::new() };
            proof {
                assert(c.spec_excluded() =~= Seq::<(Seq<char>, Seq<char>)>::empty());
            }
            Ok(c)
        }
    }

    /// Registers a window, identified by its platform class and title, to be
    /// excluded from the captured composition. The embedding forwards the
    /// pair to the native engine's window filter and hands the registration
    /// outcome in as `native`: accepted, declined, or the engine's lookup or
    /// registration error. The outcome is returned unchanged; the exclusion
    /// is recorded exactly when the engine accepted it, and the configured
    /// region is never modified.
    pub fn exclude(&mut self, cls: &str, name: &str, native: Result<bool, ErrorKind>) -> (r: Result<
        bool,
        ErrorKind,
    >)
        ensures
            final(self).spec_origin() == old(self).spec_origin(),
            final(self).spec_width() == old(self).spec_width(),
            final(self).spec_height() == old(self).spec_height(),
            final(self).spec_data() == old(self).spec_data(),
            final(self).spec_excluded() == (if native == Result::<bool, ErrorKind>::Ok(true) {
                old(self).spec_excluded().push((cls@, name@))
            } else {
                old(self).spec_excluded()
            }),
            r == native,
    {
        if let Ok(true) = native {
            let pair = (cls.to_owned(), name.to_owned());
            self.excluded.push(pair);
            proof {
                assert(final(self).spec_excluded() =~= old(self).spec_excluded().push(
                    (cls@, name@),
                ));
            }
        }
        native
    }

    /// The configured capture rectangle as ((origin x, origin y), width,
    /// height).
    pub fn get_rect(&self) -> (r: ((i32, i32), usize, usize))
        ensures
            r == (self.spec_origin(), self.spec_width(), self.spec_height()),
    {
        (self.origin, self.width, self.height)
    }
}

impl TraitCapturer for CapturerMag {
    /// Acquisition derives the stride from the region height, so it must be
    /// positive; construction guarantees it.
    open spec fn spec_acquirable(&self) -> bool {
        self.spec_height() > 0
    }

    /// GDI fallback is the duplication backend's concept: this backend is
    /// never in GDI mode.
    open spec fn spec_gdi(&self) -> bool {
        false
    }

    /// The configuration of this backend is the constructed rect and the
    /// recorded window exclusions.
    open spec fn spec_same_config(self, other: Self) -> bool {
        self.spec_origin() == other.spec_origin() && self.spec_width() == other.spec_width()
            && self.spec_height() == other.spec_height() && self.spec_excluded()
            == other.spec_excluded()
    }

    /// Outside the (constant) mode, the configuration and the reusable frame
    /// buffer are all that is observable.
    open spec fn spec_same_but_mode(self, other: Self) -> bool {
        self.spec_same_config(other) && self.spec_data() == other.spec_data()
    }

    open spec fn spec_frame_model(
        &self,
        timeout: CaptureTimeout,
        native: Result<Seq<u8>, ErrorKind>,
    ) -> Result<(Seq<u8>, Seq<usize>), ErrorKind> {
        spec_mag_frame_model(self.spec_height(), native)
    }

    /// This backend never switches to GDI mode; the request is a no-op
    /// whatever the embedding hands in.
    open spec fn spec_gdi_switch_honored(&self, honored: bool) -> bool {
        false
    }

    fn frame(&mut self, _timeout: CaptureTimeout, native: Result<Vec<u8>, ErrorKind>) -> (r: Result<
        Frame,
        ErrorKind,
    >) {
        match native {
            Ok(d) => {
                self.data = d;
                let copy = self.data.clone();
                proof {
                    assert(copy@ =~= self.data@);
                }
                let h = self.height;
                Ok(Frame::new(copy, h))
            },
            Err(e) => Err(e),
        }
    }

    fn is_gdi(&self) -> (r: bool) {
        false
    }

    fn set_gdi(&mut self, _honored: bool) -> (r: bool) {
        false
    }
}

/// The region capturer's acquisition ignores its timeout bound entirely: two
/// acquisitions with different bounds, on the same backend state and native
/// outcome, have the same modeled outcome.
pub proof fn lemma_mag_frame_ignores_timeout(
    mag: CapturerMag,
    t1: CaptureTimeout,
    t2: CaptureTimeout,
    native: Result<Seq<u8>, ErrorKind>,
)
    ensures
        mag.spec_frame_model(t1, native) == mag.spec_frame_model(t2, native),
{
}

} // verus!
