use crate::error::ErrorKind;
use vstd::prelude::*;

verus! {

/// One physical or virtual monitor of the virtual desktop. Created only by
/// enumeration and immutable afterwards: geometry in pixels, a signed origin
/// in the virtual desktop coordinate space, an online flag, and a
/// human-readable name (already decoded from the backend's wide-character
/// form by the embedding). The primary flag is derived: a display is primary
/// iff its origin is `(0, 0)`, mirroring the platform convention that the
/// primary display anchors the desktop at the origin. The heuristic is kept
/// exactly as the platform documents it, even though a secondary display
/// placed at the origin would be misclassified.
pub struct Display {
    width: usize,
    height: usize,
    origin: (i32, i32),
    online: bool,
    name: String,
}

/// Which list one enumeration call returns, given the duplication engine's
/// outcome (`None` where its enumeration failed) and the basic
/// graphics-device-interface outcome: the duplication list whenever it is
/// non-empty, else the fallback list, together with whether the fallback path
/// was taken. The two sources are never mixed in one result.
pub open spec fn spec_select_displays(
    duplication: Option<Seq<Display>>,
    fallback: Seq<Display>,
) -> (Seq<Display>, bool) {
    match duplication {
        Some(d) => if d.len() > 0 {
            (d, false)
        } else {
            (fallback, true)
        },
        None => (fallback, true),
    }
}

/// The duplication outcome as a mathematical value.
pub open spec fn spec_duplication_outcome(duplication: Option<Vec<Display>>) -> Option<
    Seq<Display>,
> {
    match duplication {
        Some(d) => Some(d@),
        None => None,
    }
}

impl Display {
    /// Width of this display in pixels.
    pub closed spec fn spec_width(&self) -> usize {
        self.width
    }

    /// Height of this display in pixels.
    pub closed spec fn spec_height(&self) -> usize {
        self.height
    }

    /// Signed origin of this display in the virtual desktop.
    pub closed spec fn spec_origin(&self) -> (i32, i32) {
        self.origin
    }

    /// Whether this display is online.
    pub closed spec fn spec_online(&self) -> bool {
        self.online
    }

    /// The decoded name of this display.
    pub closed spec fn spec_name(&self) -> Seq<char> {
        self.name@
    }

    /// The derived primary classification: origin at `(0, 0)`.
    pub open spec fn spec_is_primary(&self) -> bool {
        self.spec_origin() == (0i32, 0i32)
    }

    /// Builds the record of one enumerated display. The embedding calls this
    /// while converting what either native enumeration reported, decoding the
    /// backend-native wide-character name first.
    pub fn new(
        width: usize,
        height: usize,
        origin: (i32, i32),
        online: bool,
        name: String,
    ) -> (r: Display)
        ensures
            r.spec_width() == width,
            r.spec_height() == height,
            r.spec_origin() == origin,
            r.spec_online() == online,
            r.spec_name() == name@,
    {
        Display { width, height, origin, online, name }
    }

    /// The primary display straight from the duplication engine. A deliberate
    /// stub in this revision: it always fails with `NotFound`, whatever the
    /// actual display configuration; callers enumerate and filter on the
    /// primary flag instead.
    pub fn primary() -> (r: Result<Display, ErrorKind>)
        ensures
            r == Result::<Display, ErrorKind>::Err(ErrorKind::NotFound),
    {
        Err(ErrorKind::NotFound)
    }

    /// One-shot multi-display enumeration. `duplication` is what the
    /// duplication engine's enumeration yielded (`None` where it failed),
    /// `fallback` what the best-effort graphics-device-interface enumeration
    /// yielded; the embedding performs both native calls. Returns the selected
    /// list and whether the fallback path was taken, so the embedding can log
    /// the degradation. Enumeration never errors: when both sources are empty
    /// the result is empty, a valid outcome.
    pub fn all(duplication: Option<Vec<Display>>, fallback: Vec<Display>) -> (r: (
        Vec<Display>,
        bool,
    ))
        ensures
            r.0@ == spec_select_displays(
                spec_duplication_outcome(duplication),
                fallback@,
            ).0,
            r.1 == spec_select_displays(spec_duplication_outcome(duplication), fallback@).1,
    {
        match duplication {
            Some(d) => {
                if d.len() > 0 {
                    (d, false)
                } else {
                    (fallback, true)
                }
            },
            None => (fallback, true),
        }
    }

    /// Width of this display in pixels.
    pub fn width(&self) -> (r: usize)
        ensures
            r == self.spec_width(),
    {
        self.width
    }

    /// Height of this display in pixels.
    pub fn height(&self) -> (r: usize)
        ensures
            r == self.spec_height(),
    {
        self.height
    }

    /// The decoded human-readable name of this display.
    pub fn name(&self) -> (r: String)
        ensures
            r@ == self.spec_name(),
    {
        self.name.clone()
    }

    /// Whether this display is online.
    pub fn is_online(&self) -> (r: bool)
        ensures
            r == self.spec_online(),
    {
        self.online
    }

    /// Signed origin of this display in the virtual desktop coordinate space.
    pub fn origin(&self) -> (r: (i32, i32))
        ensures
            r == self.spec_origin(),
    {
        self.origin
    }

    /// Whether this display is classified as primary: true iff its origin is
    /// `(0, 0)`.
    pub fn is_primary(&self) -> (r: bool)
        ensures
            r == self.spec_is_primary(),
    {
        self.origin.0 == 0 && self.origin.1 == 0
    }
}

/// A display is primary exactly when its origin is `(0, 0)`, whichever
/// enumeration source produced it.
pub proof fn lemma_primary_iff_origin_zero(d: Display)
    ensures
        d.spec_is_primary() <==> d.spec_origin() == (0i32, 0i32),
{
}

/// Enumeration never mixes the two sources: the selected list is, as a whole,
/// either the duplication engine's list or the fallback's list.
pub proof fn lemma_enumeration_unmixed(duplication: Option<Seq<Display>>, fallback: Seq<Display>)
    ensures
        spec_select_displays(duplication, fallback).0 == fallback || (duplication matches Some(d)
            && spec_select_displays(duplication, fallback).0 == d),
{
}

/// Whenever the duplication engine's enumeration fails or yields an empty
/// list, the selection is exactly the fallback's list — possibly empty, never
/// an error.
pub proof fn lemma_empty_duplication_yields_fallback(
    duplication: Option<Seq<Display>>,
    fallback: Seq<Display>,
)
    requires
        duplication matches Some(d) ==> d.len() == 0,
    ensures
        spec_select_displays(duplication, fallback) == (fallback, true),
{
}

} // verus!
