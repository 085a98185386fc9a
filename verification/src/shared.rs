//! Lock-free state shared between the audio thread and the editor.
//!
//! Every value here is read and written by more than one thread, so nothing
//! is claimed about what a load returns: it is whatever some thread stored
//! last. Floating-point values are carried as their IEEE-754 bit patterns.

use std::sync::atomic::AtomicBool;
use std::sync::atomic::AtomicU32;
use std::sync::atomic::Ordering;
use vstd::prelude::*;

use crate::auto::AutoPhase;
use crate::auto::NUM_BANDS;
use crate::auto::flags_active;
use crate::auto::flags_for_phase;
use crate::auto::phase_from_flags;

verus! {

/// A 32-bit float shared between threads, stored as its bit pattern.
pub struct AtomicF32 {
    bits: AtomicU32,
}

impl AtomicF32 {
    /// Creates the cell holding the float whose bit pattern is `bits`.
    pub fn from_bits(bits: u32) -> (a: Self) {
        AtomicF32 { bits: AtomicU32::new(bits) }
    }

    /// Stores the float whose bit pattern is `bits`.
    pub fn store_bits(&self, bits: u32) {
        self.bits.store(bits, Ordering::Relaxed);
    }

    /// Loads the bit pattern of the float stored last.
    pub fn load_bits(&self) -> (bits: u32) {
        self.bits.load(Ordering::Relaxed)
    }
}

/// Per-band GR meter outputs shared with the editor: the current smoothed GR
/// and the peak GR of each band (dB, negative means compression).
pub struct GrMeterOutputs {
    pub band_gr: [AtomicF32; NUM_BANDS],
    pub band_peak_gr: [AtomicF32; NUM_BANDS],
}

impl GrMeterOutputs {
    /// All meters at 0 dB (bit pattern 0 is +0.0).
    pub fn new() -> (o: Self) {
        GrMeterOutputs {
            band_gr: [
                AtomicF32::from_bits(0),
                AtomicF32::from_bits(0),
                AtomicF32::from_bits(0),
                AtomicF32::from_bits(0),
            ],
            band_peak_gr: [
                AtomicF32::from_bits(0),
                AtomicF32::from_bits(0),
                AtomicF32::from_bits(0),
                AtomicF32::from_bits(0),
            ],
        }
    }
}

/// One of the three flags of a `SharedAutoPhase`.
#[derive(Clone, Copy, PartialEq, Eq, Debug, Structural)]
pub enum PhaseFlag {
    BpmInput,
    Measuring,
    Done,
}

/// A write of `value` into one flag of a `SharedAutoPhase`.
pub struct FlagWrite {
    pub flag: PhaseFlag,
    pub value: bool,
}

/// The flags `(bpm_input, measuring, done)` after `w` is written over `f`.
pub open spec fn flags_after_write(f: (bool, bool, bool), w: FlagWrite) -> (bool, bool, bool) {
    match w.flag {
        PhaseFlag::BpmInput => (w.value, f.1, f.2),
        PhaseFlag::Measuring => (f.0, w.value, f.2),
        PhaseFlag::Done => (f.0, f.1, w.value),
    }
}

/// The flags after the writes `ws`, in order, over `f`.
pub open spec fn flags_after_writes(f: (bool, bool, bool), ws: Seq<FlagWrite>) -> (bool, bool, bool)
    decreases ws.len(),
{
    if ws.len() == 0 {
        f
    } else {
        flags_after_write(flags_after_writes(f, ws.drop_last()), ws.last())
    }
}

/// Writes made one run after another act in turn: the flags after `w1`
/// then `w2` are those that `w2` leaves over what `w1` left. With the
/// contract of `SharedAutoPhase::store`, which holds whatever the flags held
/// before, the last phase stored is the one a load decodes.
pub proof fn lemma_flag_writes_in_turn(f: (bool, bool, bool), w1: Seq<FlagWrite>, w2: Seq<FlagWrite>)
    ensures
        flags_after_writes(f, w1 + w2) == flags_after_writes(flags_after_writes(f, w1), w2),
    decreases w2.len(),
{
    if w2.len() == 0 {
        assert(w1 + w2 =~= w1);
    } else {
        lemma_flag_writes_in_turn(f, w1, w2.drop_last());
        assert((w1 + w2).drop_last() =~= w1 + w2.drop_last());
    }
}

/// Phase of the AUTO analysis shared between the AUTO button and the
/// overlay, kept in three flags (see `crate::auto::spec_flags_of_phase`).
pub struct SharedAutoPhase {
    bpm_input: AtomicBool,
    measuring: AtomicBool,
    done: AtomicBool,
}

impl SharedAutoPhase {
    /// The Idle phase (no flag set).
    pub fn new() -> (s: Self) {
        SharedAutoPhase {
            bpm_input: AtomicBool::new(false),
            measuring: AtomicBool::new(false),
            done: AtomicBool::new(false),
        }
    }

    /// Loads the phase: the flags are read in priority order (done, then
    /// measuring, then BPM entry) and decoded.
    pub fn load(&self) -> (p: AutoPhase) {
        let done = self.done.load(Ordering::Relaxed);
        if done {
            return phase_from_flags(false, false, true);
        }
        let measuring = self.measuring.load(Ordering::Relaxed);
        if measuring {
            return phase_from_flags(false, true, false);
        }
        let bpm_input = self.bpm_input.load(Ordering::Relaxed);
        phase_from_flags(bpm_input, false, false)
    }

    fn write_flag(&self, flag: PhaseFlag, value: bool, log: Ghost<Seq<FlagWrite>>) -> (r: Ghost<Seq<FlagWrite>>)
        ensures
            r@ == log@.push(FlagWrite { flag, value }),
            forall|f: (bool, bool, bool)| #[trigger] flags_after_writes(f, r@)
                == flags_after_write(flags_after_writes(f, log@), FlagWrite { flag, value }),
    {
        match flag {
            PhaseFlag::BpmInput => self.bpm_input.store(value, Ordering::Relaxed),
            PhaseFlag::Measuring => self.measuring.store(value, Ordering::Relaxed),
            PhaseFlag::Done => self.done.store(value, Ordering::Relaxed),
        }
        let r: Ghost<Seq<FlagWrite>> = Ghost(log@.push(FlagWrite { flag, value }));
        assert(r@.drop_last() =~= log@);
        r
    }

    /// Stores a phase: the flags that must be cleared are cleared first, then
    /// the flag of the phase is set. `writes` are the flag writes made, in
    /// order: whatever the flags held before, afterwards exactly the flag of
    /// `phase` is set (none for Idle), so a load decodes `phase` and the
    /// analysis counts as active exactly when `phase` is not Idle.
    pub fn store(&self, phase: AutoPhase) -> (writes: Ghost<Seq<FlagWrite>>)
        ensures
            forall|f: (bool, bool, bool)| #[trigger] flags_after_writes(f, writes@) == (
                phase == AutoPhase::BpmInput,
                phase == AutoPhase::MeasuringGR,
                phase == AutoPhase::Done,
            ),
            forall|f: (bool, bool, bool)| ({
                let g = #[trigger] flags_after_writes(f, writes@);
                &&& crate::auto::spec_phase_of_flags(g.0, g.1, g.2) == phase
                &&& (g.0 || g.1 || g.2) == (phase != AutoPhase::Idle)
            }),
    {
        let (b, m, d) = flags_for_phase(phase);
        let mut log: Ghost<Seq<FlagWrite>> = Ghost(Seq::empty());
        if !b {
            log = self.write_flag(PhaseFlag::BpmInput, false, log);
        }
        if !m {
            log = self.write_flag(PhaseFlag::Measuring, false, log);
        }
        if !d {
            log = self.write_flag(PhaseFlag::Done, false, log);
        }
        if b {
            log = self.write_flag(PhaseFlag::BpmInput, true, log);
        }
        if m {
            log = self.write_flag(PhaseFlag::Measuring, true, log);
        }
        if d {
            log = self.write_flag(PhaseFlag::Done, true, log);
        }
        log
    }

    /// Whether any phase other than Idle is stored.
    pub fn is_active(&self) -> (a: bool) {
        let b = self.bpm_input.load(Ordering::Relaxed);
        if b {
            return true;
        }
        let m = self.measuring.load(Ordering::Relaxed);
        if m {
            return true;
        }
        let d = self.done.load(Ordering::Relaxed);
        flags_active(b, m, d)
    }
}

/// Lock-free communication between the audio thread (GR measurement) and the
/// editor during AUTO threshold convergence.
pub struct AutoAnalysisState {
    /// Editor to audio: start a GR measurement.
    pub active: AtomicBool,
    /// Audio to editor: measurement complete.
    pub done: AtomicBool,
    /// Progress 0.0..1.0 for the editor's animation.
    pub progress: AtomicF32,
    /// Audio thread sets this when the target thresholds are computed.
    pub params_ready: AtomicBool,
    /// The editor sets this after reporting the thresholds to the host.
    pub params_applied: AtomicBool,
    /// Average GR measured per band (dB).
    pub avg_gr: [AtomicF32; NUM_BANDS],
    /// Target threshold per band (normalized 0..1).
    pub target_threshold: [AtomicF32; NUM_BANDS],
    /// Current convergence iteration.
    pub iteration: AtomicU32,
}

impl AutoAnalysisState {
    /// Everything cleared: flags false, floats 0.0, iteration 0.
    pub fn new() -> (s: Self) {
        AutoAnalysisState {
            active: AtomicBool::new(false),
            done: AtomicBool::new(false),
            progress: AtomicF32::from_bits(0),
            params_ready: AtomicBool::new(false),
            params_applied: AtomicBool::new(false),
            avg_gr: [
                AtomicF32::from_bits(0),
                AtomicF32::from_bits(0),
                AtomicF32::from_bits(0),
                AtomicF32::from_bits(0),
            ],
            target_threshold: [
                AtomicF32::from_bits(0),
                AtomicF32::from_bits(0),
                AtomicF32::from_bits(0),
                AtomicF32::from_bits(0),
            ],
            iteration: AtomicU32::new(0),
        }
    }
}

/// Lock-free communication for the TRIM (dry/wet gain matching) measurement.
pub struct TrimState {
    /// Editor to audio: start the RMS measurement.
    pub active: AtomicBool,
    /// Audio to editor: measurement complete.
    pub done: AtomicBool,
    /// Progress 0.0..1.0 for the editor's animation.
    pub progress: AtomicF32,
    /// Computed trim gain in dB.
    pub trim_gain_db: AtomicF32,
}

impl TrimState {
    /// Everything cleared: flags false, floats 0.0.
    pub fn new() -> (s: Self) {
        TrimState {
            active: AtomicBool::new(false),
            done: AtomicBool::new(false),
            progress: AtomicF32::from_bits(0),
            trim_gain_db: AtomicF32::from_bits(0),
        }
    }
}

} // verus!
