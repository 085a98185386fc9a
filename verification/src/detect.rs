//! Integer side of the two analysers that run on the audio thread: the
//! measurement window shared by the BPM and TRIM detectors, onset tracking
//! with a re-trigger cooldown, and the inter-onset-interval histogram that
//! turns onsets into a tempo.
//!
//! Envelope following, thresholds and RMS levels are floating-point and are
//! computed by the caller, which hands the outcome (whether the envelope is
//! above the threshold at each sample), together with the analysis length
//! and cooldown in samples and the sample rate as an exact fraction. Tempos
//! are exact fractions of that rate and are rounded here.

use vstd::prelude::*;

verus! {

// ── Measurement window ────────────────────────────────────────

/// Abstract state of a measurement window.
pub struct WindowView {
    /// Number of samples the analysis lasts.
    pub analysis_samples: u64,
    /// Samples analysed so far.
    pub sample_count: u64,
    /// Whether samples are being accumulated.
    pub active: bool,
    /// Whether the analysis has completed.
    pub done: bool,
}

/// The window after counting one sample: the count grows by one, and the
/// analysis completes (stops, done) once the count reaches its length.
pub open spec fn spec_count_step(w: WindowView) -> WindowView {
    let n = w.sample_count + 1;
    WindowView {
        sample_count: n as u64,
        active: n < w.analysis_samples,
        done: n >= w.analysis_samples,
        ..w
    }
}

/// The window after counting `k` samples one by one.
pub open spec fn spec_counted(w: WindowView, k: nat) -> WindowView
    decreases k,
{
    if k == 0 {
        w
    } else {
        spec_count_step(spec_counted(w, (k - 1) as nat))
    }
}

/// Start/stop bookkeeping of an analysis that accumulates a fixed number of
/// samples and then completes.
pub struct MeasurementWindow {
    analysis_samples: u64,
    sample_count: u64,
    active: bool,
    done: bool,
}

impl View for MeasurementWindow {
    type V = WindowView;

    closed spec fn view(&self) -> WindowView {
        WindowView {
            analysis_samples: self.analysis_samples,
            sample_count: self.sample_count,
            active: self.active,
            done: self.done,
        }
    }
}

impl MeasurementWindow {
    /// An idle window lasting `analysis_samples` samples.
    pub fn new(analysis_samples: u64) -> (w: Self)
        ensures
            w@.analysis_samples == analysis_samples,
            w@.sample_count == 0,
            !w@.active,
            !w@.done,
    {
        MeasurementWindow { analysis_samples, sample_count: 0, active: false, done: false }
    }

    /// Changes the length of the analysis (after a sample-rate change); the
    /// progress so far is kept.
    pub fn set_length(&mut self, analysis_samples: u64)
        ensures
            final(self)@ == (WindowView { analysis_samples, ..old(self)@ }),
    {
        self.analysis_samples = analysis_samples;
    }

    /// Starts a new analysis from zero.
    pub fn start(&mut self)
        ensures
            final(self)@ == (WindowView { sample_count: 0, active: true, done: false, ..old(self)@ }),
    {
        self.sample_count = 0;
        self.active = true;
        self.done = false;
    }

    /// Returns to idle, discarding any progress and result.
    pub fn reset(&mut self)
        ensures
            final(self)@ == (WindowView { sample_count: 0, active: false, done: false, ..old(self)@ }),
    {
        self.sample_count = 0;
        self.active = false;
        self.done = false;
    }

    /// Whether the caller should accumulate the current sample: the window is
    /// running and has not completed.
    pub fn accepts(&self) -> (a: bool)
        ensures
            a == (self@.active && !self@.done),
    {
        self.active && !self.done
    }

    /// Counts one accumulated sample while the window is running. Returns
    /// `true` when this sample completes the analysis; the window then stops
    /// and is marked done. A window that is idle or done ignores the sample.
    pub fn count_sample(&mut self) -> (completed: bool)
        requires
            old(self)@.active && !old(self)@.done ==> old(self)@.sample_count < u64::MAX,
        ensures
            old(self)@.active && !old(self)@.done ==> final(self)@ == spec_count_step(old(self)@),
            old(self)@.active && !old(self)@.done ==> completed == (final(self)@.sample_count
                >= old(self)@.analysis_samples),
            !(old(self)@.active && !old(self)@.done) ==> final(self)@ == old(self)@ && !completed,
            final(self)@.analysis_samples == old(self)@.analysis_samples,
            final(self)@.done == (old(self)@.done || completed),
    {
        if !self.active || self.done {
            return false;
        }
        self.sample_count = self.sample_count + 1;
        if self.sample_count >= self.analysis_samples {
            self.active = false;
            self.done = true;
            true
        } else {
            false
        }
    }

    /// Whether samples are being accumulated.
    pub fn is_active(&self) -> (a: bool)
        ensures
            a == self@.active,
    {
        self.active
    }

    /// Whether the analysis has completed.
    pub fn is_done(&self) -> (d: bool)
        ensures
            d == self@.done,
    {
        self.done
    }

    /// Samples analysed so far.
    pub fn sample_count(&self) -> (n: u64)
        ensures
            n == self@.sample_count,
    {
        self.sample_count
    }

    /// Number of samples the analysis lasts.
    pub fn analysis_samples(&self) -> (n: u64)
        ensures
            n == self@.analysis_samples,
    {
        self.analysis_samples
    }
}

/// A started window of `n >= 1` samples runs for exactly `n` samples: after
/// `k < n` of them it is still running and not done, and the `n`-th sample
/// completes it. (Samples are only counted while it is running.)
pub proof fn lemma_window_runs_its_length(w: WindowView, k: nat)
    requires
        w.active,
        !w.done,
        w.sample_count == 0,
        w.analysis_samples >= 1,
        k <= w.analysis_samples,
    ensures
        spec_counted(w, k).sample_count == k,
        spec_counted(w, k).analysis_samples == w.analysis_samples,
        k < w.analysis_samples ==> spec_counted(w, k).active && !spec_counted(w, k).done,
        k == w.analysis_samples ==> !spec_counted(w, k).active && spec_counted(w, k).done,
        k > 0 ==> (spec_counted(w, (k - 1) as nat).active && !spec_counted(w, (k - 1) as nat).done),
    decreases k,
{
    if k > 0 {
        lemma_window_runs_its_length(w, (k - 1) as nat);
    }
}

// ── Onset tracking ────────────────────────────────────────────

/// Maximum number of onsets tracked in one analysis window.
pub const MAX_ONSETS: usize = 256;

/// Abstract state of the onset tracker.
pub struct OnsetView {
    /// Sample positions of the recorded onsets, in recording order.
    pub positions: Seq<u64>,
    /// Samples left before another onset may be recorded.
    pub cooldown_remaining: u32,
    /// Cooldown length set after each onset.
    pub cooldown_samples: u32,
    /// Whether the envelope was below the threshold at the previous sample.
    pub was_below: bool,
    /// Samples seen since the tracker was cleared.
    pub sample_count: u64,
}

/// Well-formedness: at most MAX_ONSETS onsets, at strictly increasing
/// positions, all before the current sample.
pub open spec fn onset_view_wf(v: OnsetView) -> bool {
    &&& v.positions.len() <= MAX_ONSETS
    &&& forall|i: int, j: int| 0 <= i < j < v.positions.len() ==> v.positions[i] < v.positions[j]
    &&& forall|i: int| 0 <= i < v.positions.len() ==> v.positions[i] < v.sample_count
}

/// Spacing of the recorded onsets for cooldown `c`: any two onsets are more
/// than `c` samples apart, and the time since the last onset plus the
/// cooldown still running covers `c`.
pub open spec fn spaced_by(v: OnsetView, c: u32) -> bool {
    &&& forall|i: int, j: int| 0 <= i < j < v.positions.len() ==> v.positions[j] - v.positions[i] > c
    &&& v.positions.len() > 0 ==> v.cooldown_remaining + (v.sample_count - 1 - v.positions.last()) >= c
}

/// Records the sample positions of onsets: an onset is the envelope
/// crossing above the adaptive threshold while it was below at the previous
/// sample, and after an onset no other is recorded during a cooldown.
pub struct OnsetTracker {
    /// Onset positions; the first `count` entries are recorded (a fixed
    /// array: recording never allocates on the audio thread).
    positions: [u64; MAX_ONSETS],
    count: usize,
    cooldown_remaining: u32,
    cooldown_samples: u32,
    was_below: bool,
    sample_count: u64,
}

impl View for OnsetTracker {
    type V = OnsetView;

    closed spec fn view(&self) -> OnsetView {
        OnsetView {
            positions: self.positions@.subrange(0, self.count as int),
            cooldown_remaining: self.cooldown_remaining,
            cooldown_samples: self.cooldown_samples,
            was_below: self.was_below,
            sample_count: self.sample_count,
        }
    }
}

impl OnsetTracker {
    #[verifier::type_invariant]
    spec fn count_fits(&self) -> bool {
        self.count <= MAX_ONSETS
    }

    pub open spec fn wf(&self) -> bool {
        onset_view_wf(self@)
    }

    /// A cleared tracker with the given cooldown length.
    pub fn new(cooldown_samples: u32) -> (t: Self)
        ensures
            t.wf(),
            t@.positions.len() == 0,
            t@.cooldown_remaining == 0,
            t@.cooldown_samples == cooldown_samples,
            t@.was_below,
            t@.sample_count == 0,
            spaced_by(t@, cooldown_samples),
    {
        OnsetTracker {
            positions: [0u64; MAX_ONSETS],
            count: 0,
            cooldown_remaining: 0,
            cooldown_samples,
            was_below: true,
            sample_count: 0,
        }
    }

    /// Changes the cooldown length (after a sample-rate change).
    pub fn set_cooldown(&mut self, cooldown_samples: u32)
        requires
            old(self).wf(),
        ensures
            final(self).wf(),
            final(self)@ == (OnsetView { cooldown_samples, ..old(self)@ }),
    {
        proof {
            use_type_invariant(&*self);
        }
        self.cooldown_samples = cooldown_samples;
    }

    /// Forgets every onset and starts counting samples from zero.
    pub fn clear(&mut self)
        ensures
            final(self).wf(),
            final(self)@ == (OnsetView {
                positions: Seq::empty(),
                cooldown_remaining: 0,
                was_below: true,
                sample_count: 0,
                ..old(self)@
            }),
            spaced_by(final(self)@, final(self)@.cooldown_samples),
    {
        self.count = 0;
        self.cooldown_remaining = 0;
        self.was_below = true;
        self.sample_count = 0;
        assert(self@.positions =~= Seq::<u64>::empty());
    }

    /// Processes one sample, given whether the onset envelope is above the
    /// threshold. While the cooldown runs it only counts down; otherwise a
    /// rising edge records an onset at the current sample (if there is room)
    /// and restarts the cooldown. Returns whether an onset was recorded.
    pub fn step(&mut self, is_above: bool) -> (recorded: bool)
        requires
            old(self).wf(),
            old(self)@.sample_count < u64::MAX,
        ensures
            final(self).wf(),
            recorded == (old(self)@.cooldown_remaining == 0 && is_above && old(self)@.was_below
                && old(self)@.positions.len() < MAX_ONSETS),
            recorded ==> final(self)@.positions == old(self)@.positions.push(old(self)@.sample_count),
            recorded ==> final(self)@.cooldown_remaining == old(self)@.cooldown_samples,
            !recorded ==> final(self)@.positions == old(self)@.positions,
            !recorded && old(self)@.cooldown_remaining > 0 ==> final(self)@.cooldown_remaining
                == old(self)@.cooldown_remaining - 1,
            !recorded && old(self)@.cooldown_remaining == 0 ==> final(self)@.cooldown_remaining == 0,
            final(self)@.was_below == !is_above,
            final(self)@.sample_count == old(self)@.sample_count + 1,
            final(self)@.cooldown_samples == old(self)@.cooldown_samples,
            spaced_by(old(self)@, old(self)@.cooldown_samples) ==> spaced_by(
                final(self)@,
                final(self)@.cooldown_samples,
            ),
    {
        proof {
            use_type_invariant(&*self);
        }
        let mut recorded = false;
        if self.cooldown_remaining > 0 {
            self.cooldown_remaining = self.cooldown_remaining - 1;
        } else if is_above && self.was_below && self.count < MAX_ONSETS {
            let ghost before = self@.positions;
            let c = self.count;
            self.positions[c] = self.sample_count;
            self.count = c + 1;
            assert(self@.positions =~= before.push(old(self)@.sample_count));
            self.cooldown_remaining = self.cooldown_samples;
            recorded = true;
        }
        self.was_below = !is_above;
        self.sample_count = self.sample_count + 1;
        recorded
    }

    /// Number of recorded onsets.
    pub fn onset_count(&self) -> (n: usize)
        ensures
            n == self@.positions.len(),
    {
        proof {
            use_type_invariant(self);
        }
        self.count
    }

    /// Sample position of onset `i`.
    pub fn onset(&self, i: usize) -> (p: u64)
        requires
            i < self@.positions.len(),
        ensures
            p == self@.positions[i as int],
    {
        proof {
            use_type_invariant(self);
        }
        self.positions[i]
    }

    /// Samples between onset `idx - skip` and onset `idx` (positive).
    pub fn interval(&self, idx: usize, skip: usize) -> (d: u64)
        requires
            self.wf(),
            skip <= idx < self@.positions.len(),
        ensures
            d == self@.positions[idx as int] - self@.positions[idx - skip],
            skip > 0 ==> d > 0,
    {
        proof {
            use_type_invariant(self);
            assert(self@.positions[idx as int] == self.positions@[idx as int]);
            assert(self@.positions[idx - skip] == self.positions@[idx - skip]);
        }
        self.positions[idx] - self.positions[idx - skip]
    }

    /// Samples seen since the tracker was cleared.
    pub fn sample_count(&self) -> (n: u64)
        ensures
            n == self@.sample_count,
    {
        self.sample_count
    }

    /// The IOI histogram of the recorded onsets at a sample rate of
    /// `rate`: for each span width, every pair of onsets that far
    /// apart votes for its tempo candidates (see `votes_of_spans` and
    /// `all_spans`); each bin holds the total weight of the votes that land
    /// in it. Works in fixed-size storage.
    pub fn tempo_histogram(&self, rate: SampleRate) -> (h: [u32; NUM_BPM_BINS])
        requires
            self.wf(),
        ensures
            forall|b: int|
                0 <= b < NUM_BPM_BINS ==> #[trigger] h@[b] == bin_votes(
                    votes_of_spans(all_spans(self@.positions), rate),
                    b,
                ),
            forall|b: int| 0 <= b < NUM_BPM_BINS ==> #[trigger] h@[b] <= HISTOGRAM_BIN_BOUND,
    {
        let count = self.onset_count();
        let mut h = [0u32; NUM_BPM_BINS];
        let ghost pos = self@.positions;
        let ghost mut done: Seq<IoiSpan> = Seq::empty();
        proof {
            assert forall|b: int| 0 <= b < NUM_BPM_BINS implies #[trigger] h@[b] == bin_votes(
                votes_of_spans(done, rate),
                b,
            ) by {}
        }
        let mut skip: usize = 1;
        while skip <= MAX_SKIP
            invariant
                1 <= skip <= MAX_SKIP + 1,
                count == pos.len(),
                count <= MAX_ONSETS,
                pos == self@.positions,
                self.wf(),
                done == (if skip == 1 {
                    Seq::empty()
                } else if skip == 2 {
                    spans_for_skip(pos, 1)
                } else if skip == 3 {
                    spans_for_skip(pos, 1) + spans_for_skip(pos, 2)
                } else {
                    all_spans(pos)
                }),
                done.len() <= (skip - 1) * MAX_ONSETS,
                forall|b: int|
                    0 <= b < NUM_BPM_BINS ==> #[trigger] h@[b] == bin_votes(votes_of_spans(done, rate), b),
                forall|b: int| 0 <= b < NUM_BPM_BINS ==> #[trigger] h@[b] <= 6 * done.len(),
            decreases MAX_SKIP + 1 - skip,
        {
            let weight = span_weight(skip);
            let ghost before = done;
            let mut idx: usize = skip;
            while idx < count
                invariant
                    1 <= skip <= MAX_SKIP,
                    skip <= idx,
                    count > skip ==> idx <= count,
                    count <= skip ==> idx == skip,
                    count == pos.len(),
                    count <= MAX_ONSETS,
                    pos == self@.positions,
                    self.wf(),
                    weight == MAX_SKIP + 1 - skip,
                    before.len() <= (skip - 1) * MAX_ONSETS,
                    count > skip ==> done == before + spans_for_skip(pos, skip as int).subrange(0, idx - skip),
                    count <= skip ==> done == before,
                    done.len() <= before.len() + (idx - skip),
                    forall|b: int|
                        0 <= b < NUM_BPM_BINS ==> #[trigger] h@[b] == bin_votes(votes_of_spans(done, rate), b),
                    forall|b: int| 0 <= b < NUM_BPM_BINS ==> #[trigger] h@[b] <= 6 * done.len(),
                decreases count - idx,
            {
                let d = self.interval(idx, skip);
                let span = IoiSpan { ioi_samples: d, skip, weight };
                let ghost prev = done;
                proof {
                    let full = spans_for_skip(pos, skip as int);
                    assert(full[idx - skip] == span);
                    assert(full.subrange(0, idx + 1 - skip) =~= full.subrange(0, idx - skip).push(span));
                    done = done.push(span);
                    assert(done.drop_last() =~= prev);
                    lemma_bin_votes_append(
                        votes_of_spans(prev, rate),
                        candidate_vote(span, rate, 1),
                    );
                    lemma_bin_votes_append(
                        votes_of_spans(prev, rate) + candidate_vote(span, rate, 1),
                        candidate_vote(span, rate, 2),
                    );
                }
                add_candidate_vote(&mut h, span, rate, 1, Ghost((6 * prev.len()) as int));
                add_candidate_vote(&mut h, span, rate, 2, Ghost((6 * prev.len() + 3) as int));
                idx = idx + 1;
            }
            proof {
                if count > skip {
                    let full = spans_for_skip(pos, skip as int);
                    assert(full.subrange(0, count - skip) =~= full);
                } else {
                    assert(spans_for_skip(pos, skip as int) =~= Seq::<IoiSpan>::empty());
                }
                assert(done =~= before + spans_for_skip(pos, skip as int));
            }
            skip = skip + 1;
        }
        h
    }
}

/// With a fixed cooldown of `c` samples, two recorded onsets are always more
/// than `c` samples apart (no double triggering on one transient).
pub proof fn lemma_onsets_respect_cooldown(v: OnsetView, c: u32, i: int, j: int)
    requires
        spaced_by(v, c),
        0 <= i < j < v.positions.len(),
    ensures
        v.positions[j] - v.positions[i] > c,
{
}

// ── Tempo from inter-onset intervals ──────────────────────────

/// Slowest tempo that is detected.
pub const DETECT_BPM_MIN: u64 = 60;

/// Fastest tempo that is detected.
pub const DETECT_BPM_MAX: u64 = 200;

/// Histogram bins: one per integer BPM from DETECT_BPM_MIN to DETECT_BPM_MAX.
pub const NUM_BPM_BINS: usize = 141;

/// Tempo reported when detection fails (a common EDM tempo).
pub const FALLBACK_BPM: u32 = 128;

/// Minimum number of onsets for a confident detection.
pub const MIN_ONSETS_FOR_CONFIDENCE: usize = 6;

/// Widest onset span that votes: intervals between onsets `idx - skip` and
/// `idx` for skip 1, 2 and 3 vote with weights 3, 2 and 1.
pub const MAX_SKIP: usize = 3;

/// Bound on a histogram bin: at most three spans per onset, each giving at
/// most two votes of weight at most three.
pub const HISTOGRAM_BIN_BOUND: u32 = 4608;

/// Half-width of the smoothing window, in BPM bins.
pub const SMOOTH_RADIUS: usize = 2;

/// A vote for a tempo, rounded to an integer BPM.
#[derive(Clone, Copy, PartialEq, Eq, Debug, Structural)]
pub struct BpmVote {
    pub rounded_bpm: u64,
    pub weight: u32,
}

/// Weight of the votes of a span: 3 for consecutive onsets, 2 for skip 2,
/// 1 for skip 3.
pub fn span_weight(skip: usize) -> (w: u32)
    requires
        1 <= skip <= MAX_SKIP,
    ensures
        w == MAX_SKIP + 1 - skip,
{
    if skip == 1 {
        3
    } else if skip == 2 {
        2
    } else {
        1
    }
}

/// An interval between two recorded onsets that votes for a tempo: the
/// onsets are `skip` apart in recording order, and the interval spans
/// `ioi_samples` samples.
#[derive(Clone, Copy, PartialEq, Eq, Debug, Structural)]
pub struct IoiSpan {
    pub ioi_samples: u64,
    pub skip: usize,
    pub weight: u32,
}

/// The spans between onsets `skip` apart, in recording order.
pub open spec fn spans_for_skip(positions: Seq<u64>, skip: int) -> Seq<IoiSpan> {
    if positions.len() > skip {
        Seq::new(
            (positions.len() - skip) as nat,
            |t: int| IoiSpan {
                ioi_samples: (positions[t + skip] - positions[t]) as u64,
                skip: skip as usize,
                weight: (MAX_SKIP + 1 - skip) as u32,
            },
        )
    } else {
        Seq::empty()
    }
}

/// Every voting span: consecutive onsets first, then onsets two apart, then
/// onsets three apart.
pub open spec fn all_spans(positions: Seq<u64>) -> Seq<IoiSpan> {
    spans_for_skip(positions, 1) + spans_for_skip(positions, 2) + spans_for_skip(positions, 3)
}

/// Histogram bin of a rounded tempo (tempos below the range go to bin 0).
pub open spec fn vote_bin(bpm: u64) -> int {
    if bpm >= DETECT_BPM_MIN {
        bpm - DETECT_BPM_MIN
    } else {
        0
    }
}

/// Total weight of the votes that land in bin `b` (votes past the last bin
/// are dropped).
pub open spec fn bin_votes(votes: Seq<BpmVote>, b: int) -> int
    decreases votes.len(),
{
    if votes.len() == 0 {
        0
    } else {
        let v = votes.last();
        bin_votes(votes.drop_last(), b) + (if vote_bin(v.rounded_bpm) == b && vote_bin(v.rounded_bpm)
            < NUM_BPM_BINS { v.weight as int } else { 0 })
    }
}

/// Sum of a sequence of counts.
pub open spec fn seq_sum(s: Seq<u32>) -> int
    decreases s.len(),
{
    if s.len() == 0 {
        0
    } else {
        seq_sum(s.drop_last()) + s.last()
    }
}

/// First bin of the smoothing window around bin `i`.
pub open spec fn window_lo(i: int) -> int {
    if i >= SMOOTH_RADIUS {
        i - SMOOTH_RADIUS
    } else {
        0
    }
}

/// Last bin (inclusive) of the smoothing window around bin `i`.
pub open spec fn window_hi(i: int) -> int {
    if i + SMOOTH_RADIUS < NUM_BPM_BINS {
        i + SMOOTH_RADIUS
    } else {
        NUM_BPM_BINS - 1
    }
}

/// The histogram smoothed with a window of +-2 BPM (cut at the ends).
pub open spec fn smoothed_bin(h: Seq<u32>, i: int) -> int {
    seq_sum(h.subrange(window_lo(i), window_hi(i) + 1))
}

/// `bin` holds the largest count `count` of `s`, and is the first bin that
/// does; when every count is zero, `bin` and `count` are both zero.
pub open spec fn is_peak(s: Seq<u32>, bin: int, count: u32) -> bool {
    &&& forall|i: int| 0 <= i < s.len() ==> s[i] <= count
    &&& count > 0 ==> (0 <= bin < s.len() && s[bin] == count && forall|i: int| 0 <= i < bin ==> s[i] < count)
    &&& count == 0 ==> bin == 0
}

/// The tempo read from a smoothed histogram: the BPM of its peak bin, or the
/// fallback tempo when the histogram is empty.
pub open spec fn tempo_of_peak(bin: int, count: u32) -> int {
    if count == 0 {
        FALLBACK_BPM as int
    } else {
        DETECT_BPM_MIN + bin
    }
}

proof fn lemma_seq_sum_bounded(s: Seq<u32>, bound: int)
    requires
        bound >= 0,
        forall|i: int| 0 <= i < s.len() ==> #[trigger] s[i] <= bound,
    ensures
        0 <= seq_sum(s) <= bound * s.len(),
    decreases s.len(),
{
    if s.len() > 0 {
        let d = s.drop_last();
        assert forall|i: int| 0 <= i < d.len() implies #[trigger] d[i] <= bound by {
            assert(d[i] == s[i]);
        }
        lemma_seq_sum_bounded(d, bound);
        assert(s[s.len() - 1] <= bound);
        assert(bound * s.len() == bound * d.len() + bound) by (nonlinear_arith)
            requires
                s.len() == d.len() + 1,
        ;
    }
}

/// Smooths the histogram with a window of +-2 BPM: each bin becomes the sum
/// of the bins within two BPM of it.
pub fn smooth_histogram(h: &[u32; NUM_BPM_BINS]) -> (s: [u32; NUM_BPM_BINS])
    requires
        forall|b: int| 0 <= b < NUM_BPM_BINS ==> #[trigger] h@[b] <= u32::MAX / 5,
    ensures
        forall|i: int| 0 <= i < NUM_BPM_BINS ==> #[trigger] s@[i] == smoothed_bin(h@, i),
{
    let mut s = [0u32; NUM_BPM_BINS];
    let mut i: usize = 0;
    while i < NUM_BPM_BINS
        invariant
            i <= NUM_BPM_BINS,
            h@.len() == NUM_BPM_BINS,
            forall|b: int| 0 <= b < NUM_BPM_BINS ==> #[trigger] h@[b] <= u32::MAX / 5,
            forall|k: int| 0 <= k < i ==> #[trigger] s@[k] == smoothed_bin(h@, k),
        decreases NUM_BPM_BINS - i,
    {
        let start: usize = if i >= SMOOTH_RADIUS { i - SMOOTH_RADIUS } else { 0 };
        let end: usize = if i + SMOOTH_RADIUS < NUM_BPM_BINS { i + SMOOTH_RADIUS } else { NUM_BPM_BINS - 1 };
        let mut sum: u32 = 0;
        let mut j: usize = start;
        while j <= end
            invariant
                start <= j <= end + 1,
                end < NUM_BPM_BINS,
                end - start <= 4,
                h@.len() == NUM_BPM_BINS,
                forall|b: int| 0 <= b < NUM_BPM_BINS ==> #[trigger] h@[b] <= u32::MAX / 5,
                sum == seq_sum(h@.subrange(start as int, j as int)),
            decreases end + 1 - j,
        {
            proof {
                let a = h@.subrange(start as int, j as int);
                let b = h@.subrange(start as int, j + 1);
                assert(b.drop_last() =~= a);
                assert forall|k: int| 0 <= k < a.len() implies #[trigger] a[k] <= u32::MAX / 5 by {
                    assert(a[k] == h@[start + k]);
                }
                lemma_seq_sum_bounded(a, (u32::MAX / 5) as int);
                assert((u32::MAX / 5) as int * a.len() <= (u32::MAX / 5) as int * 4) by (nonlinear_arith)
                    requires
                        a.len() <= 4,
                ;
            }
            sum = sum + h[j];
            j = j + 1;
        }
        s[i] = sum;
        i = i + 1;
    }
    s
}

/// Finds the first bin with the largest count.
pub fn peak_bin(s: &[u32; NUM_BPM_BINS]) -> (r: (usize, u32))
    ensures
        is_peak(s@, r.0 as int, r.1),
{
    let mut best_bin: usize = 0;
    let mut best_count: u32 = 0;
    let mut i: usize = 0;
    while i < NUM_BPM_BINS
        invariant
            i <= s@.len(),
            s@.len() == NUM_BPM_BINS,
            is_peak(s@.subrange(0, i as int), best_bin as int, best_count),
        decreases s@.len() - i,
    {
        let count = s[i];
        proof {
            assert forall|k: int| 0 <= k < i implies s@.subrange(0, i as int)[k] == #[trigger] s@[k] by {}
            assert forall|k: int| 0 <= k <= i implies s@.subrange(0, i + 1)[k] == #[trigger] s@[k] by {}
        }
        if count > best_count {
            best_count = count;
            best_bin = i;
        }
        i = i + 1;
    }
    assert(s@.subrange(0, s@.len() as int) =~= s@);
    (best_bin, best_count)
}

/// The tempo detected from the onsets: the fallback tempo with fewer than
/// MIN_ONSETS_FOR_CONFIDENCE onsets or when no interval voted in range,
/// otherwise the BPM of the first peak of the smoothed histogram.
pub open spec fn spec_detected_bpm(onset_count: int, votes: Seq<BpmVote>, bin: int, count: u32) -> bool {
    onset_count >= MIN_ONSETS_FOR_CONFIDENCE ==> is_peak(
        Seq::new(NUM_BPM_BINS as nat, |i: int| smoothed_bin(Seq::new(NUM_BPM_BINS as nat, |b: int| bin_votes(votes, b) as u32), i) as u32),
        bin,
        count,
    )
}

/// A sample rate in Hz as an exact fraction `num / den` (a host rate such
/// as 44100.0 is `44100 / 1`; a fractional rate keeps its fraction).
#[derive(Clone, Copy, PartialEq, Eq, Debug, Structural)]
pub struct SampleRate {
    pub num: u64,
    pub den: u32,
}

/// Numerator of a tempo candidate of `span` at sample rate `rate`, over
/// `candidate_denominator`: the span's own tempo is
/// `60 * rate * skip / ioi_samples` BPM (`mult == 1`), and twice it is also
/// a candidate for eighth-note patterns (`mult == 2`).
pub open spec fn candidate_numerator(span: IoiSpan, rate: SampleRate, mult: int) -> int {
    60 * rate.num * span.skip * mult
}

/// Denominator of the tempo candidates of `span` at sample rate `rate`.
pub open spec fn candidate_denominator(span: IoiSpan, rate: SampleRate) -> int {
    rate.den * span.ioi_samples
}

/// Whether the tempo `num / den` lies in the detected range.
pub open spec fn tempo_in_range(num: int, den: int) -> bool {
    DETECT_BPM_MIN * den <= num <= DETECT_BPM_MAX * den
}

/// `num / den` rounded to the nearest integer, halves rounded up.
pub open spec fn round_ratio(num: int, den: int) -> int {
    (2 * num + den) / (2 * den)
}

/// The vote of one tempo candidate of `span`: none when the candidate lies
/// outside the detected range, otherwise its rounded tempo with the span's
/// weight.
pub open spec fn candidate_vote(span: IoiSpan, rate: SampleRate, mult: int) -> Seq<BpmVote> {
    let num = candidate_numerator(span, rate, mult);
    let den = candidate_denominator(span, rate);
    if den > 0 && tempo_in_range(num, den) {
        seq![BpmVote { rounded_bpm: round_ratio(num, den) as u64, weight: span.weight }]
    } else {
        Seq::empty()
    }
}

/// The votes of every span, in order: for each span its own tempo, then
/// twice its tempo (half the tempo is never voted for; wider spans cover it).
pub open spec fn votes_of_spans(spans: Seq<IoiSpan>, rate: SampleRate) -> Seq<BpmVote>
    decreases spans.len(),
{
    if spans.len() == 0 {
        Seq::empty()
    } else {
        let s = spans.last();
        votes_of_spans(spans.drop_last(), rate) + candidate_vote(s, rate, 1)
            + candidate_vote(s, rate, 2)
    }
}

proof fn lemma_round_ratio_in_range(num: int, den: int)
    requires
        den > 0,
        tempo_in_range(num, den),
    ensures
        DETECT_BPM_MIN <= round_ratio(num, den) <= DETECT_BPM_MAX,
{
    let r = round_ratio(num, den);
    assert(r * (2 * den) <= 2 * num + den < (r + 1) * (2 * den)) by (nonlinear_arith)
        requires
            den > 0,
            r == (2 * num + den) / (2 * den),
    ;
    assert(r <= DETECT_BPM_MAX) by (nonlinear_arith)
        requires
            den > 0,
            r * (2 * den) <= 2 * num + den,
            num <= 200 * den,
    ;
    assert(r >= DETECT_BPM_MIN) by (nonlinear_arith)
        requires
            den > 0,
            2 * num + den < (r + 1) * (2 * den),
            num >= 60 * den,
    ;
}

/// Total vote weight of a concatenation, per bin.
proof fn lemma_bin_votes_append(a: Seq<BpmVote>, c: Seq<BpmVote>)
    ensures
        forall|b: int| #[trigger] bin_votes(a + c, b) == bin_votes(a, b) + bin_votes(c, b),
    decreases c.len(),
{
    if c.len() == 0 {
        assert forall|b: int| #[trigger] bin_votes(a + c, b) == bin_votes(a, b) + bin_votes(c, b) by {
            assert(a + c =~= a);
        }
    } else {
        lemma_bin_votes_append(a, c.drop_last());
        assert forall|b: int| #[trigger] bin_votes(a + c, b) == bin_votes(a, b) + bin_votes(c, b) by {
            assert((a + c).drop_last() =~= a + c.drop_last());
            assert((a + c).last() == c.last());
            assert(bin_votes(a + c.drop_last(), b) == bin_votes(a, b) + bin_votes(c.drop_last(), b));
        }
    }
}

/// Adds the vote of one tempo candidate of `span` to the histogram (see
/// `candidate_vote`); `bound` bounds every bin before the vote.
fn add_candidate_vote(
    h: &mut [u32; NUM_BPM_BINS],
    span: IoiSpan,
    rate: SampleRate,
    mult: u8,
    Ghost(bound): Ghost<int>,
)
    requires
        span.ioi_samples > 0,
        1 <= span.skip <= MAX_SKIP,
        span.weight <= MAX_SKIP,
        1 <= mult <= 2,
        0 <= bound <= HISTOGRAM_BIN_BOUND,
        forall|b: int| 0 <= b < NUM_BPM_BINS ==> #[trigger] old(h)@[b] <= bound,
    ensures
        forall|b: int|
            0 <= b < NUM_BPM_BINS ==> #[trigger] final(h)@[b] == old(h)@[b] + bin_votes(
                candidate_vote(span, rate, mult as int),
                b,
            ),
        forall|b: int| 0 <= b < NUM_BPM_BINS ==> #[trigger] final(h)@[b] <= bound + span.weight,
{
    let sr = rate.num as u128;
    let q = rate.den as u128;
    let skip = span.skip as u128;
    let m = mult as u128;
    let ioi = span.ioi_samples as u128;
    assert(sr * skip <= 0xffff_ffff_ffff_ffff * 3) by (nonlinear_arith)
        requires
            sr <= 0xffff_ffff_ffff_ffff,
            skip <= 3,
    ;
    assert(sr * skip * m <= 0xffff_ffff_ffff_ffff * 6) by (nonlinear_arith)
        requires
            sr * skip <= 0xffff_ffff_ffff_ffff * 3,
            m <= 2,
    ;
    let num: u128 = 60 * (sr * skip * m);
    assert(num == candidate_numerator(span, rate, mult as int)) by (nonlinear_arith)
        requires
            num == 60 * (sr * skip * m),
            sr == rate.num,
            skip == span.skip,
            m == mult,
    ;
    assert(q * ioi <= 0xffff_ffff * 0xffff_ffff_ffff_ffff) by (nonlinear_arith)
        requires
            q <= 0xffff_ffff,
            ioi <= 0xffff_ffff_ffff_ffff,
    ;
    let den: u128 = q * ioi;
    assert(den == candidate_denominator(span, rate));
    let cv = Ghost(candidate_vote(span, rate, mult as int));
    if den > 0 && 60 * den <= num && num <= 200 * den {
        proof {
            lemma_round_ratio_in_range(num as int, den as int);
        }
        let r = (2 * num + den) / (2 * den);
        let vote = BpmVote { rounded_bpm: r as u64, weight: span.weight };
        let bi = (r - 60) as usize;
        proof {
            assert(cv@ =~= seq![vote]);
            assert(cv@.drop_last() =~= Seq::<BpmVote>::empty());
            assert(vote_bin(vote.rounded_bpm) == bi);
            assert forall|b: int| 0 <= b < NUM_BPM_BINS implies #[trigger] bin_votes(cv@, b) == (if b
                == bi {
                span.weight as int
            } else {
                0
            }) by {
                assert(bin_votes(cv@.drop_last(), b) == 0);
                assert(cv@.last() == vote);
            }
        }
        let cur = h[bi];
        h[bi] = cur + span.weight;
    } else {
        proof {
            assert(cv@ =~= Seq::<BpmVote>::empty());
            assert forall|b: int| 0 <= b < NUM_BPM_BINS implies #[trigger] bin_votes(cv@, b) == 0 by {}
        }
    }
}

/// `bpm` is the tempo found from onsets at `positions` at a sample rate of
/// `rate`: the fallback tempo with too few onsets, otherwise the
/// tempo of the peak of the smoothed histogram of the votes of every interval.
pub open spec fn tempo_result(positions: Seq<u64>, rate: SampleRate, bpm: u32) -> bool {
    &&& positions.len() < MIN_ONSETS_FOR_CONFIDENCE ==> bpm == FALLBACK_BPM
    &&& positions.len() >= MIN_ONSETS_FOR_CONFIDENCE ==> exists|bin: int, count: u32|
        spec_detected_bpm(
            positions.len() as int,
            votes_of_spans(all_spans(positions), rate),
            bin,
            count,
        ) && bpm == tempo_of_peak(bin, count)
}

/// The tempo found from the onsets of `tracker` at a sample rate of
/// `rate`: the fallback tempo with too few onsets, otherwise the
/// peak of the smoothed histogram of the votes of every interval.
pub fn detect_tempo(tracker: &OnsetTracker, rate: SampleRate) -> (bpm: u32)
    requires
        tracker.wf(),
    ensures
        tempo_result(tracker@.positions, rate, bpm),
{
    if tracker.onset_count() < MIN_ONSETS_FOR_CONFIDENCE {
        return FALLBACK_BPM;
    }
    let h = tracker.tempo_histogram(rate);
    let s = smooth_histogram(&h);
    let (bin, count) = peak_bin(&s);
    let ghost votes = votes_of_spans(all_spans(tracker@.positions), rate);
    proof {
        let hs = Seq::new(NUM_BPM_BINS as nat, |b: int| bin_votes(votes, b) as u32);
        assert(hs =~= h@);
        let ss = Seq::new(NUM_BPM_BINS as nat, |i: int| smoothed_bin(hs, i) as u32);
        assert(ss =~= s@);
        assert(spec_detected_bpm(tracker@.positions.len() as int, votes, bin as int, count));
    }
    let bpm = if count == 0 {
        FALLBACK_BPM
    } else {
        DETECT_BPM_MIN as u32 + bin as u32
    };
    assert(spec_detected_bpm(tracker@.positions.len() as int, votes, bin as int, count) && bpm
        == tempo_of_peak(bin as int, count));
    bpm
}

// ── Tempo detector ────────────────────────────────────────────

/// Abstract state of a tempo detector.
pub struct TempoView {
    pub window: WindowView,
    pub onsets: OnsetView,
    /// The sample rate the tempo is computed at.
    pub rate: SampleRate,
    /// The detected tempo (meaningful once the window is done).
    pub detected_bpm: u32,
}

/// Integer side of the BPM detector: counts the analysis window, records
/// onsets from the caller's threshold decisions, and computes the tempo when
/// the window completes.
pub struct TempoDetector {
    window: MeasurementWindow,
    onsets: OnsetTracker,
    rate: SampleRate,
    detected_bpm: u32,
}

impl View for TempoDetector {
    type V = TempoView;

    closed spec fn view(&self) -> TempoView {
        TempoView {
            window: self.window@,
            onsets: self.onsets@,
            rate: self.rate,
            detected_bpm: self.detected_bpm,
        }
    }
}

/// Whether a step of the detector records an onset: the cooldown has run
/// out, the envelope rises above the threshold after being below it, and
/// there is room for another onset.
pub open spec fn tempo_onset_recorded(v: TempoView, is_above: bool) -> bool {
    v.onsets.cooldown_remaining == 0 && is_above && v.onsets.was_below && v.onsets.positions.len()
        < MAX_ONSETS
}

/// Whether the detector is analysing (started and not yet done).
pub open spec fn tempo_running(v: TempoView) -> bool {
    v.window.active && !v.window.done
}

/// One analysed sample of a running detector, from `v` to `w`: the window
/// counts it (and completes on its last sample), an onset is recorded when
/// `tempo_onset_recorded` holds, the cooldown restarts after an onset and
/// otherwise runs down, the edge memory follows `is_above`, and the result
/// is kept unless the window completes.
pub open spec fn tempo_stepped(v: TempoView, w: TempoView, is_above: bool, completed: bool) -> bool {
    let rec = tempo_onset_recorded(v, is_above);
    &&& w.rate == v.rate
    &&& w.window == spec_count_step(v.window)
    &&& completed == (w.window.sample_count >= v.window.analysis_samples)
    &&& w.onsets.positions == (if rec {
        v.onsets.positions.push(v.window.sample_count)
    } else {
        v.onsets.positions
    })
    &&& w.onsets.cooldown_remaining == (if rec {
        v.onsets.cooldown_samples
    } else if v.onsets.cooldown_remaining > 0 {
        (v.onsets.cooldown_remaining - 1) as u32
    } else {
        0
    })
    &&& w.onsets.was_below == !is_above
    &&& w.onsets.cooldown_samples == v.onsets.cooldown_samples
    &&& w.onsets.sample_count == v.onsets.sample_count + 1
    &&& !completed ==> w.detected_bpm == v.detected_bpm
}

impl TempoDetector {
    /// Well-formedness: the onset tracker is well formed and counts the same
    /// samples as the window.
    pub open spec fn wf(&self) -> bool {
        &&& onset_view_wf(self@.onsets)
        &&& self@.onsets.sample_count == self@.window.sample_count
    }


    /// An idle detector for sample rate `rate`, whose analysis lasts
    /// `analysis_samples` samples and whose onset cooldown lasts
    /// `cooldown_samples` samples (5 s and 100 ms at the sample rate, as the
    /// caller computes them).
    pub fn new(rate: SampleRate, analysis_samples: u64, cooldown_samples: u32) -> (d: Self)
        ensures
            d.wf(),
            d@.rate == rate,
            d@.window.analysis_samples == analysis_samples,
            d@.onsets.cooldown_samples == cooldown_samples,
            !d@.window.active,
            !d@.window.done,
            d@.window.sample_count == 0,
            d@.onsets.positions.len() == 0,
            d@.onsets.cooldown_remaining == 0,
            d@.onsets.was_below,
            d@.detected_bpm == 0,
    {
        TempoDetector {
            window: MeasurementWindow::new(analysis_samples),
            onsets: OnsetTracker::new(cooldown_samples),
            rate,
            detected_bpm: 0,
        }
    }

    /// Changes the sample rate, with the analysis length and the cooldown
    /// that go with it.
    pub fn set_sample_rate(&mut self, rate: SampleRate, analysis_samples: u64, cooldown_samples: u32)
        requires
            old(self).wf(),
        ensures
            final(self)@.rate == rate,
            final(self)@.window == (WindowView { analysis_samples, ..old(self)@.window }),
            final(self)@.onsets == (OnsetView { cooldown_samples, ..old(self)@.onsets }),
            final(self)@.detected_bpm == old(self)@.detected_bpm,
            final(self).wf(),
    {
        self.rate = rate;
        self.window.set_length(analysis_samples);
        self.onsets.set_cooldown(cooldown_samples);
    }

    /// Starts a new analysis: forgets every onset and the previous result.
    pub fn start(&mut self)
        ensures
            final(self).wf(),
            final(self)@.window == (WindowView {
                sample_count: 0,
                active: true,
                done: false,
                ..old(self)@.window
            }),
            final(self)@.onsets.positions.len() == 0,
            final(self)@.onsets.cooldown_remaining == 0,
            final(self)@.onsets.was_below,
            final(self)@.onsets.cooldown_samples == old(self)@.onsets.cooldown_samples,
            spaced_by(final(self)@.onsets, final(self)@.onsets.cooldown_samples),
            final(self)@.rate == old(self)@.rate,
            final(self)@.detected_bpm == 0,
    {
        self.onsets.clear();
        self.window.start();
        self.detected_bpm = 0;
    }

    /// Returns to idle, discarding onsets, progress and result.
    pub fn reset(&mut self)
        ensures
            final(self).wf(),
            final(self)@.window == (WindowView {
                sample_count: 0,
                active: false,
                done: false,
                ..old(self)@.window
            }),
            final(self)@.onsets.positions.len() == 0,
            final(self)@.onsets.cooldown_remaining == 0,
            final(self)@.onsets.was_below,
            final(self)@.onsets.cooldown_samples == old(self)@.onsets.cooldown_samples,
            final(self)@.rate == old(self)@.rate,
            final(self)@.detected_bpm == 0,
    {
        self.onsets.clear();
        self.window.reset();
        self.detected_bpm = 0;
    }

    /// Whether the caller should feed the current sample.
    pub fn accepts(&self) -> (a: bool)
        ensures
            a == (self@.window.active && !self@.window.done),
    {
        self.window.accepts()
    }

    /// Processes one sample, given whether the onset envelope is above the
    /// adaptive threshold. When this sample completes the window, the tempo
    /// is computed from the onsets (see `tempo_result`). Returns whether the
    /// analysis completed.
    pub fn step(&mut self, is_above: bool) -> (completed: bool)
        requires
            old(self).wf(),
            tempo_running(old(self)@) ==> old(self)@.window.sample_count < u64::MAX,
        ensures
            final(self).wf(),
            !tempo_running(old(self)@) ==> final(self)@ == old(self)@ && !completed,
            tempo_running(old(self)@) ==> tempo_stepped(old(self)@, final(self)@, is_above, completed),
            completed ==> tempo_result(
                final(self)@.onsets.positions,
                final(self)@.rate,
                final(self)@.detected_bpm,
            ),
            spaced_by(old(self)@.onsets, old(self)@.onsets.cooldown_samples) ==> spaced_by(
                final(self)@.onsets,
                final(self)@.onsets.cooldown_samples,
            ),
    {
        if !self.window.accepts() {
            return false;
        }
        self.onsets.step(is_above);
        let completed = self.window.count_sample();
        if completed {
            self.detected_bpm = detect_tempo(&self.onsets, self.rate);
        }
        completed
    }

    /// Whether the analysis is running.
    pub fn is_active(&self) -> (a: bool)
        ensures
            a == self@.window.active,
    {
        self.window.is_active()
    }

    /// Whether the analysis has completed.
    pub fn is_done(&self) -> (d: bool)
        ensures
            d == self@.window.done,
    {
        self.window.is_done()
    }

    /// The detected tempo (meaningful once `is_done`).
    pub fn detected_bpm(&self) -> (b: u32)
        ensures
            b == self@.detected_bpm,
    {
        self.detected_bpm
    }

    /// Samples analysed so far.
    pub fn sample_count(&self) -> (n: u64)
        ensures
            n == self@.window.sample_count,
    {
        self.window.sample_count()
    }

    /// Number of samples the analysis lasts.
    pub fn analysis_samples(&self) -> (n: u64)
        ensures
            n == self@.window.analysis_samples,
    {
        self.window.analysis_samples()
    }

    /// Number of onsets recorded so far.
    pub fn onset_count(&self) -> (n: usize)
        ensures
            n == self@.onsets.positions.len(),
    {
        self.onsets.onset_count()
    }
}

/// The detector never reports a tempo outside its range: the result is
/// always between 60 and 200 BPM (the fallback tempo included).
pub proof fn lemma_detected_tempo_in_range(positions: Seq<u64>, rate: SampleRate, bpm: u32)
    requires
        tempo_result(positions, rate, bpm),
    ensures
        DETECT_BPM_MIN <= bpm <= DETECT_BPM_MAX,
{
    if positions.len() >= MIN_ONSETS_FOR_CONFIDENCE {
        let votes = votes_of_spans(all_spans(positions), rate);
        let (bin, count) = choose|bin: int, count: u32|
            spec_detected_bpm(positions.len() as int, votes, bin, count) && bpm == tempo_of_peak(bin, count);
        assert(spec_detected_bpm(positions.len() as int, votes, bin, count));
    }
}

/// A sequence has only one peak: `is_peak` determines the bin and the count,
/// so the detected tempo is a function of the votes.
pub proof fn lemma_peak_unique(s: Seq<u32>, b1: int, c1: u32, b2: int, c2: u32)
    requires
        is_peak(s, b1, c1),
        is_peak(s, b2, c2),
    ensures
        b1 == b2,
        c1 == c2,
{
    if c1 > 0 {
        assert(s[b1] <= c2);
    }
    if c2 > 0 {
        assert(s[b2] <= c1);
    }
    if c1 > 0 && c2 > 0 {
        if b1 < b2 {
            assert(s[b1] < c2);
        } else if b2 < b1 {
            assert(s[b2] < c1);
        }
    }
}

} // verus!
