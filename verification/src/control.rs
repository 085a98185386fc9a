//! Per-block and per-sample control decisions of the processor and of the
//! editor buttons that drive it: stepped parameter indices, solo routing,
//! meter decimation, TRIM and A/B switching.

use vstd::prelude::*;

use crate::auto::NUM_BANDS;

verus! {

/// Saturation model type.
#[derive(Clone, Copy, PartialEq, Eq, Debug, Structural)]
pub enum SaturationType {
    /// Tube-like: primarily even harmonics, warm and musical.
    Tube,
    /// Tape-like: primarily odd harmonics with soft compression.
    Tape,
    /// Console channel: very subtle, mostly even harmonics.
    Console,
}

impl Default for SaturationType {
    fn default() -> (t: Self)
        ensures
            t == SaturationType::Console,
    {
        SaturationType::Console
    }
}

/// Number of attack steps (0.1, 0.3, 1, 3, 10, 30 ms).
pub const ATTACK_STEPS: usize = 6;

/// Number of release steps (100, 300, 600, 1200 ms and Auto).
pub const RELEASE_STEPS: usize = 5;

/// Number of ratio steps (2:1, 4:1, 10:1).
pub const RATIO_STEPS: usize = 3;

/// Release step that selects program-dependent auto release.
pub const AUTO_RELEASE_STEP: usize = 4;

/// Default attack step (10 ms).
pub const DEFAULT_ATTACK_STEP: u32 = 4;

/// Default release step (300 ms).
pub const DEFAULT_RELEASE_STEP: u32 = 1;

/// Default ratio step (4:1).
pub const DEFAULT_RATIO_STEP: u32 = 1;

/// GR meter outputs are published every this many samples.
pub const GR_METER_UPDATE_INTERVAL: u64 = 64;

/// A stored step index made safe for a table of `len` steps: indices past the
/// end select the last step.
pub fn clamp_step_index(idx: u32, len: usize) -> (i: usize)
    requires
        len > 0,
    ensures
        i < len,
        idx < len ==> i == idx,
        idx >= len ==> i == len - 1,
{
    if (idx as u64) < (len as u64) {
        idx as usize
    } else {
        len - 1
    }
}

/// Whether a release step selects the auto release.
pub fn release_step_is_auto(step: usize) -> (a: bool)
    ensures
        a == (step == AUTO_RELEASE_STEP),
{
    step == AUTO_RELEASE_STEP
}

/// Whether any band is soloed.
pub open spec fn any_solo(solo: [bool; NUM_BANDS]) -> bool {
    exists|i: int| 0 <= i < NUM_BANDS && solo@[i]
}

/// Whether band `i` reaches the output: every band when none is soloed,
/// otherwise only the soloed ones.
pub open spec fn band_passes(solo: [bool; NUM_BANDS], i: int) -> bool {
    !any_solo(solo) || solo@[i]
}

/// Which bands reach the output: all of them when no band is soloed,
/// otherwise exactly the soloed ones.
pub fn band_outputs(solo: [bool; NUM_BANDS]) -> (out: [bool; NUM_BANDS])
    ensures
        forall|i: int| 0 <= i < NUM_BANDS ==> #[trigger] out@[i] == band_passes(solo, i),
{
    let any = solo[0] || solo[1] || solo[2] || solo[3];
    proof {
        if any {
            if solo@[0] {
                assert(any_solo(solo));
            } else if solo@[1] {
                assert(any_solo(solo));
            } else if solo@[2] {
                assert(any_solo(solo));
            } else {
                assert(any_solo(solo));
            }
        }
    }
    [!any || solo[0], !any || solo[1], !any || solo[2], !any || solo[3]]
}

/// Solo routing over all four bands: band `i` is heard exactly when no band
/// at all is soloed, or band `i` itself is soloed. Soloing any band, the
/// highest included, silences every band that is not soloed.
pub proof fn lemma_solo_routing(solo: [bool; NUM_BANDS], i: int)
    requires
        0 <= i < NUM_BANDS,
    ensures
        band_passes(solo, i) == (!(solo@[0] || solo@[1] || solo@[2] || solo@[3]) || solo@[i]),
        solo@[3] && !solo@[i] ==> !band_passes(solo, i),
{
    if solo@[0] {
        assert(any_solo(solo));
    } else if solo@[1] {
        assert(any_solo(solo));
    } else if solo@[2] {
        assert(any_solo(solo));
    } else if solo@[3] {
        assert(any_solo(solo));
    }
}

/// Soloing never silences every band: whatever the solo switches, at least
/// one band reaches the output.
pub proof fn lemma_solo_keeps_a_band(solo: [bool; NUM_BANDS])
    ensures
        exists|i: int| 0 <= i < NUM_BANDS && #[trigger] band_passes(solo, i),
{
    if !any_solo(solo) {
        assert(band_passes(solo, 0));
    } else {
        let i = choose|i: int| 0 <= i < NUM_BANDS && solo@[i];
        assert(band_passes(solo, i));
    }
}

/// Advances a sample counter that fires once per `period` samples: returns
/// the next counter value and whether it fired (the counter then restarts
/// from zero).
pub fn tick_period(counter: u64, period: u64) -> (r: (u64, bool))
    requires
        counter < u64::MAX,
    ensures
        r.1 == (counter + 1 >= period),
        r.1 ==> r.0 == 0,
        !r.1 ==> r.0 == counter + 1,
{
    let next = counter + 1;
    if next >= period {
        (0, true)
    } else {
        (next, false)
    }
}

/// Starting from zero, a counter with period `p > 0` fires for the first time
/// at its `p`-th sample: the counter value after `k < p` samples is `k`.
pub proof fn lemma_tick_period_fires_on_period(counter: u64, period: u64)
    requires
        period > 0,
        counter < period,
    ensures
        (counter + 1 >= period) <==> counter == period - 1,
{
}

/// Peak-hold decision of a GR meter for one sample: a new (deeper) peak
/// restarts the hold; otherwise the hold counts down, and once it has run out
/// the peak decays toward the current value. Returns the next hold counter
/// and whether the peak decays at this sample.
pub fn peak_hold_step(counter: u32, hold_samples: u32, new_peak: bool) -> (r: (u32, bool))
    ensures
        new_peak ==> r == (hold_samples, false),
        !new_peak && counter > 0 ==> r == ((counter - 1) as u32, false),
        !new_peak && counter == 0 ==> r == (0u32, true),
{
    if new_peak {
        (hold_samples, false)
    } else if counter > 0 {
        (counter - 1, false)
    } else {
        (0, true)
    }
}

/// Soft-knee width in dB for a compression ratio (taken as an integer):
/// 6 dB at 2:1, 4 dB at 4:1 and 2 dB otherwise (10:1).
pub fn knee_width_db(ratio: u32) -> (w: u32)
    ensures
        ratio == 2 ==> w == 6,
        ratio == 4 ==> w == 4,
        ratio != 2 && ratio != 4 ==> w == 2,
{
    if ratio == 2 {
        6
    } else if ratio == 4 {
        4
    } else {
        2
    }
}

/// What a press of the TRIM button does.
#[derive(Clone, Copy, PartialEq, Eq, Debug, Structural)]
pub enum TrimPress {
    /// A measurement is running: stop it and disable trim.
    CancelMeasurement,
    /// Trim is applied: disable it.
    Disable,
    /// Start a new measurement (trim is enabled when it completes).
    StartMeasurement,
}

/// Decides what a press of the TRIM button does.
pub fn trim_button_press(measuring: bool, trim_on: bool) -> (p: TrimPress)
    ensures
        measuring ==> p == TrimPress::CancelMeasurement,
        !measuring && trim_on ==> p == TrimPress::Disable,
        !measuring && !trim_on ==> p == TrimPress::StartMeasurement,
{
    if measuring {
        TrimPress::CancelMeasurement
    } else if trim_on {
        TrimPress::Disable
    } else {
        TrimPress::StartMeasurement
    }
}

/// One of the two parameter slots.
#[derive(Clone, Copy, PartialEq, Eq, Debug, Structural)]
pub enum Slot {
    /// Manual settings.
    A,
    /// AUTO results.
    B,
}

/// What a press of the A/B button does.
#[derive(Clone, Copy, PartialEq, Eq, Debug, Structural)]
pub struct AbPress {
    /// The outgoing slot, saved for persistence.
    pub save: Slot,
    /// Whether slot A is re-read from the current parameters (when switching
    /// back to A).
    pub resync_a: bool,
    /// Whether slot B is active after the press.
    pub now_b: bool,
}

/// Decides what a press of the A/B button does: the outgoing slot is saved
/// and the other slot becomes active; switching to A re-reads A from the
/// parameters.
pub fn ab_button_press(is_b: bool) -> (p: AbPress)
    ensures
        p == ab_press_spec(is_b),
        p.save == (if is_b { Slot::B } else { Slot::A }),
        p.resync_a == is_b,
        p.now_b == !is_b,
{
    if is_b {
        AbPress { save: Slot::B, resync_a: true, now_b: false }
    } else {
        AbPress { save: Slot::A, resync_a: false, now_b: true }
    }
}

/// Two presses of the A/B button return to the slot that was active before
/// them, and each press saves the slot it leaves.
pub proof fn lemma_ab_press_twice_restores(is_b: bool)
    ensures
        ({
            let first = ab_press_spec(is_b);
            let second = ab_press_spec(first.now_b);
            &&& second.now_b == is_b
            &&& first.save != second.save
        }),
{
}

/// What `ab_button_press` returns (see its contract).
pub open spec fn ab_press_spec(is_b: bool) -> AbPress {
    if is_b {
        AbPress { save: Slot::B, resync_a: true, now_b: false }
    } else {
        AbPress { save: Slot::A, resync_a: false, now_b: true }
    }
}

} // verus!
