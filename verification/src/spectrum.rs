//! Bookkeeping of the triple buffer that carries samples from the audio
//! thread to the spectrum display.
//!
//! The audio thread fills one of three sample buffers; when it is full, that
//! buffer becomes the ready one (the one the display reads) and writing moves
//! on to another buffer. The samples themselves are stored by the caller; this
//! module decides which slot each sample goes to.

use vstd::prelude::*;

verus! {

/// FFT size (a power of two).
pub const FFT_SIZE: usize = 8192;

/// Number of magnitude bins the display reads (FFT_SIZE / 2).
pub const NUM_BINS: usize = 4096;

/// Number of sample buffers.
pub const BUFFER_COUNT: usize = 3;

/// The third buffer: the one that is neither `a` nor `b` (for distinct
/// buffers `a` and `b`).
pub open spec fn spec_other_buffer(a: int, b: int) -> int {
    3 - a - b
}

/// Picks the next buffer to write, given the buffer that was just written
/// (`wi`) and the buffer the display may still be reading (`ri`): the
/// buffer that is neither, or the following one when those two coincide.
pub fn next_write_index(wi: usize, ri: usize) -> (n: usize)
    requires
        wi < BUFFER_COUNT,
        ri < BUFFER_COUNT,
    ensures
        n < BUFFER_COUNT,
        n != wi,
        wi != ri ==> n == spec_other_buffer(wi as int, ri as int),
        wi == ri ==> n == (wi + 1) % 3,
{
    match (wi, ri) {
        (0, 1) | (1, 0) => 2,
        (0, 2) | (2, 0) => 1,
        (1, 2) | (2, 1) => 0,
        _ => (wi + 1) % 3,
    }
}

/// Positions of the triple buffer: the slot the next sample goes to
/// (`write_pos` in buffer `write_idx`) and the buffer the display reads.
#[derive(Clone, Copy, PartialEq, Eq, Debug, Structural)]
pub struct SpectrumCursor {
    pub write_pos: usize,
    pub write_idx: usize,
    pub ready_idx: usize,
}

impl SpectrumCursor {
    /// All indices in range, and the display never reads the buffer that is
    /// being written.
    pub open spec fn wf(self) -> bool {
        &&& self.write_pos < FFT_SIZE
        &&& self.write_idx < BUFFER_COUNT
        &&& self.ready_idx < BUFFER_COUNT
        &&& self.write_idx != self.ready_idx
    }

    /// The cursor after one sample has been written at its slot: the write
    /// position moves on; when the buffer is full, it becomes the ready one
    /// and writing restarts in the third buffer, the one that was neither
    /// being written nor ready (the display may still be reading the
    /// previously ready buffer).
    pub open spec fn spec_advance(self) -> SpectrumCursor {
        if self.write_pos + 1 >= FFT_SIZE {
            SpectrumCursor {
                write_pos: 0,
                write_idx: spec_other_buffer(self.write_idx as int, self.ready_idx as int) as usize,
                ready_idx: self.write_idx,
            }
        } else {
            SpectrumCursor { write_pos: (self.write_pos + 1) as usize, ..self }
        }
    }

    /// The state of a fresh buffer: writing buffer 0 from its start, buffer 1
    /// marked ready.
    pub fn new() -> (c: Self)
        ensures
            c == (SpectrumCursor { write_pos: 0, write_idx: 0, ready_idx: 1 }),
            c.wf(),
    {
        SpectrumCursor { write_pos: 0, write_idx: 0, ready_idx: 1 }
    }

    /// Accounts for one pushed sample. Returns the slot `(buffer, position)`
    /// that the sample goes to, and moves on; when the buffer is full it
    /// becomes the ready one and writing moves to another buffer.
    pub fn advance(&mut self) -> (slot: (usize, usize))
        requires
            old(self).wf(),
        ensures
            slot == (old(self).write_idx, old(self).write_pos),
            slot.0 < BUFFER_COUNT,
            slot.1 < FFT_SIZE,
            *final(self) == old(self).spec_advance(),
            final(self).wf(),
            final(self).write_idx != old(self).ready_idx,
    {
        let wi = self.write_idx;
        let ri = self.ready_idx;
        let pos = self.write_pos;
        let next_pos = pos + 1;
        if next_pos >= FFT_SIZE {
            self.write_pos = 0;
            self.write_idx = next_write_index(wi, ri);
            self.ready_idx = wi;
        } else {
            self.write_pos = next_pos;
        }
        (wi, pos)
    }

    /// The buffer the display reads.
    pub fn read_index(&self) -> (i: usize)
        ensures
            i == self.ready_idx,
    {
        self.ready_idx
    }
}

/// The display never reads the buffer the audio thread is writing, and the
/// audio thread never moves into the buffer the display read before the
/// step: every push keeps the cursor well formed and writes within bounds.
pub proof fn lemma_reader_never_sees_writer(c: SpectrumCursor)
    requires
        c.wf(),
    ensures
        c.spec_advance().wf(),
        c.spec_advance().write_idx != c.spec_advance().ready_idx,
        c.spec_advance().write_idx != c.ready_idx,
        c.write_idx < BUFFER_COUNT && c.write_pos < FFT_SIZE,
{
}

/// When a buffer is completed it becomes the one the display reads, and
/// writing restarts at the beginning of a buffer that is neither the one
/// just completed nor the one the display was reading until now (no
/// contention with a reader still holding the previous buffer).
pub proof fn lemma_completed_buffer_becomes_ready(c: SpectrumCursor)
    requires
        c.wf(),
        c.write_pos == FFT_SIZE - 1,
    ensures
        c.spec_advance().ready_idx == c.write_idx,
        c.spec_advance().write_pos == 0,
        c.spec_advance().write_idx != c.write_idx,
        c.spec_advance().write_idx != c.ready_idx,
        c.spec_advance().write_idx < BUFFER_COUNT,
{
}

/// Until a buffer is full, pushing only moves the write position forward and
/// the display keeps reading the same buffer.
pub proof fn lemma_partial_buffer_keeps_reader(c: SpectrumCursor)
    requires
        c.wf(),
        c.write_pos + 1 < FFT_SIZE,
    ensures
        c.spec_advance().ready_idx == c.ready_idx,
        c.spec_advance().write_idx == c.write_idx,
        c.spec_advance().write_pos == c.write_pos + 1,
{
}

} // verus!
