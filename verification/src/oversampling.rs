//! Oversampling configuration and the FIR delay line used by the 2x stages.

use vstd::prelude::*;

verus! {

/// Oversampling factor selection.
#[derive(Clone, Copy, PartialEq, Eq, Debug, Structural)]
pub enum OversamplingFactor {
    /// No oversampling (1x).
    X1,
    /// 2x oversampling.
    X2,
    /// 4x oversampling (two cascaded 2x stages).
    X4,
}

/// The integer multiplier that a factor stands for.
pub open spec fn factor_multiplier(f: OversamplingFactor) -> u32 {
    match f {
        OversamplingFactor::X1 => 1,
        OversamplingFactor::X2 => 2,
        OversamplingFactor::X4 => 4,
    }
}

impl OversamplingFactor {
    /// Returns the integer multiplier (1, 2, or 4).
    pub fn multiplier(self) -> (m: u32)
        ensures
            m == factor_multiplier(self),
    {
        match self {
            OversamplingFactor::X1 => 1,
            OversamplingFactor::X2 => 2,
            OversamplingFactor::X4 => 4,
        }
    }
}

impl Default for OversamplingFactor {
    fn default() -> (f: Self)
        ensures
            f == OversamplingFactor::X1,
    {
        OversamplingFactor::X1
    }
}


/// Number of taps of the half-band FIR lowpass used by each 2x stage.
pub const FIR_TAPS: usize = 15;

/// Index of the centre tap ((FIR_TAPS - 1) / 2).
pub const FIR_HALF: usize = 7;

/// IEEE-754 binary64 bit pattern of the centre tap value 0.5.
pub const FIR_CENTER_BITS: u64 = 0x3fe0_0000_0000_0000;

/// The FIR coefficients as IEEE-754 binary64 bit patterns, indexed by tap.
///
/// The coefficients are a Kaiser-windowed sinc (beta 4.5) for a half-band
/// lowpass, normalised for unity DC gain at the 2x rate. They are symmetric
/// around the centre tap, and every tap at a non-zero even distance from
/// the centre is exactly zero (the all-zero bit pattern, +0.0).
pub open spec fn spec_fir_bits(k: int) -> u64 {
    if k == 0 || k == 14 {
        0xbf61_0503_dd96_c863u64
    } else if k == 2 || k == 12 {
        0x3f92_26ea_a5a5_8b5eu64
    } else if k == 4 || k == 10 {
        0xbfb1_cf62_9e84_2786u64
    } else if k == 6 || k == 8 {
        0x3fd3_7374_0501_debeu64
    } else if k == 7 {
        FIR_CENTER_BITS
    } else {
        0u64
    }
}

/// Returns the bit pattern of FIR coefficient `k`.
pub fn fir_coefficient_bits(k: usize) -> (bits: u64)
    requires
        k < FIR_TAPS,
    ensures
        bits == spec_fir_bits(k as int),
{
    if k == 0 || k == 14 {
        0xbf61_0503_dd96_c863u64
    } else if k == 2 || k == 12 {
        0x3f92_26ea_a5a5_8b5eu64
    } else if k == 4 || k == 10 {
        0xbfb1_cf62_9e84_2786u64
    } else if k == 6 || k == 8 {
        0x3fd3_7374_0501_debeu64
    } else if k == FIR_HALF {
        FIR_CENTER_BITS
    } else {
        0u64
    }
}

/// The FIR impulse response is symmetric: tap `k` equals tap `14 - k`,
/// so the filter has linear phase.
pub proof fn lemma_fir_symmetric(k: int)
    requires
        0 <= k < FIR_TAPS,
    ensures
        spec_fir_bits(k) == spec_fir_bits((FIR_TAPS - 1) - k),
{
}

/// Half-band property: every tap at a non-zero even distance from the
/// centre tap is exactly zero, and the centre tap is exactly 0.5.
pub proof fn lemma_fir_half_band(k: int)
    requires
        0 <= k < FIR_TAPS,
    ensures
        k != FIR_HALF && (k - FIR_HALF) % 2 == 0 ==> spec_fir_bits(k) == 0,
        k == FIR_HALF ==> spec_fir_bits(k) == FIR_CENTER_BITS,
{
}

/// Position in the buffer of window element `i`, where the window starts at
/// buffer slot `start`: `(start + i) mod n`, written without a division.
pub open spec fn ring_slot(start: int, i: int, n: int) -> int {
    if start + i < n {
        start + i
    } else {
        start + i - n
    }
}

/// A fixed-length delay line: it holds the most recent `len()` samples that
/// were pushed into it (initially `len()` copies of a fill value), and reads
/// the sample pushed `k` steps ago in constant time.
///
/// Its view is the window of held samples, oldest first and newest last.
#[derive(Clone)]
pub struct DelayLine<T> {
    buf: Vec<T>,
    /// Slot that the next push writes; it also holds the oldest sample.
    pos: usize,
}

impl<T> DelayLine<T> {
    /// The buffer is non-empty and the write slot lies inside it.
    pub closed spec fn wf(self) -> bool {
        &&& self.buf.len() > 0
        &&& self.pos < self.buf.len()
    }

    /// The held samples, oldest first.
    pub closed spec fn window(self) -> Seq<T> {
        Seq::new(
            self.buf.len() as nat,
            |i: int| self.buf@[ring_slot(self.pos as int, i, self.buf.len() as int)],
        )
    }
}

impl<T> View for DelayLine<T> {
    type V = Seq<T>;

    closed spec fn view(&self) -> Seq<T> {
        self.window()
    }
}

impl<T: Copy> DelayLine<T> {
    /// Creates a delay line of `len` samples, all equal to `fill`.
    pub fn new(len: usize, fill: T) -> (d: Self)
        requires
            len > 0,
        ensures
            d.wf(),
            d@ == Seq::new(len as nat, |i: int| fill),
    {
        let mut buf: Vec<T> = Vec::new();
        let mut i: usize = 0;
        while i < len
            invariant
                i <= len,
                buf@ == Seq::new(i as nat, |j: int| fill),
            decreases len - i,
        {
            buf.push(fill);
            i = i + 1;
        }
        let d = DelayLine { buf, pos: 0 };
        assert(d@ =~= Seq::new(len as nat, |i: int| fill));
        d
    }

    /// Number of samples held.
    pub fn len(&self) -> (n: usize)
        requires
            self.wf(),
        ensures
            n == self@.len(),
            n > 0,
    {
        self.buf.len()
    }

    /// Overwrites every held sample with `fill` (the state right after `new`).
    pub fn fill(&mut self, fill: T)
        requires
            old(self).wf(),
        ensures
            final(self).wf(),
            final(self)@ == Seq::new(old(self)@.len(), |i: int| fill),
    {
        let n = self.buf.len();
        let mut i: usize = 0;
        while i < n
            invariant
                i <= n,
                n == self.buf.len(),
                n > 0,
                self.pos < n,
                forall|j: int| 0 <= j < i ==> self.buf@[j] == fill,
            decreases n - i,
        {
            self.buf.set(i, fill);
            i = i + 1;
        }
        self.pos = 0;
        assert(self@ =~= Seq::new(old(self)@.len(), |i: int| fill));
    }

    /// Pushes a new sample: the oldest one leaves the window.
    pub fn push(&mut self, x: T)
        requires
            old(self).wf(),
        ensures
            final(self).wf(),
            final(self)@ == old(self)@.drop_first().push(x),
    {
        let n = self.buf.len();
        let p = self.pos;
        self.buf.set(p, x);
        self.pos = if p + 1 == n { 0 } else { p + 1 };
        proof {
            let w = old(self)@;
            assert(self@.len() == w.len());
            assert forall|i: int| 0 <= i < self@.len() implies #[trigger] self@[i] == w.drop_first().push(x)[i] by {
                if i < n - 1 {
                    assert(w.drop_first().push(x)[i] == w[i + 1]);
                } else {
                    assert(w.drop_first().push(x)[i] == x);
                }
            }
            assert(self@ =~= w.drop_first().push(x));
        }
    }

    /// The sample pushed `k` steps ago (`k == 0` is the newest one).
    pub fn tap(&self, k: usize) -> (s: T)
        requires
            self.wf(),
            k < self@.len(),
        ensures
            s == self@[self@.len() - 1 - k],
    {
        let n = self.buf.len();
        let i = n - 1 - k;
        let slot = if i < n - self.pos { self.pos + i } else { i - (n - self.pos) };
        self.buf[slot]
    }
}

} // verus!
