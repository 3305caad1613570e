use vstd::prelude::*;

verus! {

/// Pixel format of every frame this core produces: 4-byte interleaved color,
/// B-G-R-A channel order. No other format is produced by either backend.
#[derive(Clone, Copy, Debug, PartialEq, Eq, Structural)]
pub enum Pixfmt {
    BGRA,
}

/// A normalized frame: the pixel bytes of one capture plus the derived
/// per-plane row strides. Exactly one plane is produced today, so the stride
/// sequence has a single entry, `data.len() / height`; the sequence form
/// reserves room for multi-plane formats. The buffer is assumed to be an
/// exact, unpadded multiple of the height — handling backends that pad rows
/// beyond this relation is a non-goal.
pub struct Frame {
    data: Vec<u8>,
    stride: Vec<usize>,
}

/// The stride of one row of an unpadded buffer of `len` bytes and `h` rows.
pub open spec fn stride_of(len: nat, h: nat) -> nat
    recommends
        h > 0,
{
    len / h
}

impl Frame {
    /// The pixel bytes of this frame.
    pub closed spec fn spec_data(&self) -> Seq<u8> {
        self.data@
    }

    /// The per-plane row strides of this frame.
    pub closed spec fn spec_stride(&self) -> Seq<usize> {
        self.stride@
    }

    /// Wraps raw backend bytes as a frame of `h` rows, deriving the single
    /// row stride as `data.len() / h`.
    pub fn new(data: Vec<u8>, h: usize) -> (r: Frame)
        requires
            h > 0,
        ensures
            r.spec_data() == data@,
            r.spec_stride() == seq![stride_of(data@.len(), h as nat) as usize],
    {
        let stride: usize = data.len() / h;
        let mut v: Vec<usize> = Vec::new();
        v.push(stride);
        Frame { data, stride: v }
    }

    /// The raw pixel bytes, valid until the next acquisition call on the
    /// backend that produced them.
    pub fn data(&self) -> (r: &[u8])
        ensures
            r@ == self.spec_data(),
    {
        self.data.as_slice()
    }

    /// The row stride of each plane, in bytes.
    pub fn stride(&self) -> (r: Vec<usize>)
        ensures
            r@ == self.spec_stride(),
    {
        let r = self.stride.clone();
        proof {
            assert(r@ =~= self.stride@);
        }
        r
    }

    /// The fixed pixel format of this core.
    pub fn pixfmt(&self) -> (r: Pixfmt)
        ensures
            r == Pixfmt::BGRA,
    {
        Pixfmt::BGRA
    }
}

/// On an unpadded buffer — a byte length `n` that is an exact multiple of the
/// row count `h` — the derived stride recovers the buffer length exactly:
/// `stride * h == n`.
pub proof fn lemma_stride_exact(n: nat, h: nat)
    requires
        h > 0,
        n % h == 0,
    ensures
        stride_of(n, h) * h == n,
{
    vstd::arithmetic::div_mod::lemma_fundamental_div_mod(n as int, h as int);
    assert(n == h * (n / h) + n % h);
    assert(stride_of(n, h) * h == (n / h) * h);
    assert((n / h) * h == h * (n / h)) by (nonlinear_arith);
}

} // verus!
