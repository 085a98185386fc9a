//! Decisions of the AUTO analysis: the phases it moves through, the BPM
//! entry overlay, the attack and release steps derived from a tempo, and the
//! threshold convergence loop.
//!
//! The overlay is modelled as a state machine: the editor reports what the
//! user did (a typed character, a click on one of the overlay's regions, a
//! scroll) or what it observed (a finished GR measurement), and receives the
//! new phase and the command it has to carry out.

use vstd::prelude::*;

verus! {

/// Smallest BPM that can be entered.
pub const BPM_MIN: u32 = 60;

/// Largest BPM that can be entered.
pub const BPM_MAX: u32 = 300;

/// BPM shown when the overlay opens for the first time.
pub const BPM_DEFAULT: u32 = 128;

/// Maximum number of threshold convergence iterations.
pub const MAX_ITERATIONS: u32 = 3;

/// Tempo above which the two low bands get the Auto release.
pub const FAST_TEMPO_BPM: u32 = 160;

/// Number of compressor bands.
pub const NUM_BANDS: usize = 4;

/// Auto-analysis phases.
#[derive(Clone, Copy, PartialEq, Eq, Debug, Structural)]
pub enum AutoPhase {
    Idle,
    BpmInput,
    MeasuringGR,
    Done,
}

// ── Phase encoding in three flags ─────────────────────────────

/// The phase that the three shared flags stand for. `done` wins over
/// `measuring`, which wins over `bpm_input`.
pub open spec fn spec_phase_of_flags(bpm_input: bool, measuring: bool, done: bool) -> AutoPhase {
    if done {
        AutoPhase::Done
    } else if measuring {
        AutoPhase::MeasuringGR
    } else if bpm_input {
        AutoPhase::BpmInput
    } else {
        AutoPhase::Idle
    }
}

/// The flags `(bpm_input, measuring, done)` that represent a phase: exactly
/// the flag of the phase is set (none for Idle).
pub open spec fn spec_flags_of_phase(p: AutoPhase) -> (bool, bool, bool) {
    match p {
        AutoPhase::Idle => (false, false, false),
        AutoPhase::BpmInput => (true, false, false),
        AutoPhase::MeasuringGR => (false, true, false),
        AutoPhase::Done => (false, false, true),
    }
}

/// Decodes the three shared flags into a phase.
pub fn phase_from_flags(bpm_input: bool, measuring: bool, done: bool) -> (p: AutoPhase)
    ensures
        p == spec_phase_of_flags(bpm_input, measuring, done),
{
    if done {
        AutoPhase::Done
    } else if measuring {
        AutoPhase::MeasuringGR
    } else if bpm_input {
        AutoPhase::BpmInput
    } else {
        AutoPhase::Idle
    }
}

/// Encodes a phase as the three shared flags `(bpm_input, measuring, done)`.
pub fn flags_for_phase(p: AutoPhase) -> (f: (bool, bool, bool))
    ensures
        f == spec_flags_of_phase(p),
{
    match p {
        AutoPhase::Idle => (false, false, false),
        AutoPhase::BpmInput => (true, false, false),
        AutoPhase::MeasuringGR => (false, true, false),
        AutoPhase::Done => (false, false, true),
    }
}

/// Whether the flags mark the analysis as active (any flag set).
pub fn flags_active(bpm_input: bool, measuring: bool, done: bool) -> (a: bool)
    ensures
        a == (bpm_input || measuring || done),
        a == (spec_phase_of_flags(bpm_input, measuring, done) != AutoPhase::Idle),
{
    bpm_input || measuring || done
}

/// Storing a phase and loading it back gives the same phase.
pub proof fn lemma_phase_flags_roundtrip(p: AutoPhase)
    ensures
        ({
            let (b, m, d) = spec_flags_of_phase(p);
            spec_phase_of_flags(b, m, d) == p
        }),
{
}

/// The analysis is active exactly when the stored phase is not Idle.
pub proof fn lemma_active_iff_not_idle(p: AutoPhase)
    ensures
        ({
            let (b, m, d) = spec_flags_of_phase(p);
            (b || m || d) == (p != AutoPhase::Idle)
        }),
{
}

/// The AUTO button opens the BPM entry when the analysis is idle, and does
/// nothing otherwise.
pub fn auto_button_press(p: AutoPhase) -> (q: AutoPhase)
    ensures
        p == AutoPhase::Idle ==> q == AutoPhase::BpmInput,
        p != AutoPhase::Idle ==> q == p,
{
    if p == AutoPhase::Idle {
        AutoPhase::BpmInput
    } else {
        p
    }
}

// ── BPM values ────────────────────────────────────────────────

/// `v` clamped into [BPM_MIN, BPM_MAX].
pub open spec fn spec_clamp_bpm(v: int) -> int {
    if v < BPM_MIN {
        BPM_MIN as int
    } else if v > BPM_MAX {
        BPM_MAX as int
    } else {
        v
    }
}

/// One BPM step up, not beyond BPM_MAX.
pub open spec fn spec_bpm_up(b: int) -> int {
    if b + 1 <= BPM_MAX {
        b + 1
    } else {
        BPM_MAX as int
    }
}

/// One BPM step down (saturating at zero), not below BPM_MIN.
pub open spec fn spec_bpm_down(b: int) -> int {
    if b - 1 >= BPM_MIN {
        b - 1
    } else {
        BPM_MIN as int
    }
}

/// Clamps a typed value into the BPM range.
pub fn clamp_bpm(v: u32) -> (b: u32)
    ensures
        b == spec_clamp_bpm(v as int),
        BPM_MIN <= b <= BPM_MAX,
{
    if v < BPM_MIN {
        BPM_MIN
    } else if v > BPM_MAX {
        BPM_MAX
    } else {
        v
    }
}

/// The value of a decimal digit character.
pub open spec fn digit_value(c: char) -> int {
    (c as int) - ('0' as int)
}

/// Whether `c` is an ASCII decimal digit.
pub open spec fn is_digit(c: char) -> bool {
    '0' <= c && c <= '9'
}

/// The number that a sequence of decimal digits denotes.
pub open spec fn digits_value(s: Seq<char>) -> nat
    decreases s.len(),
{
    if s.len() == 0 {
        0
    } else {
        (digits_value(s.drop_last()) * 10 + digit_value(s.last())) as nat
    }
}

/// Whether `c` is an ASCII decimal digit.
pub fn char_is_digit(c: char) -> (d: bool)
    ensures
        d == is_digit(c),
{
    '0' <= c && c <= '9'
}

proof fn lemma_digits_value_grows(s: Seq<char>, c: char)
    requires
        is_digit(c),
    ensures
        digits_value(s.push(c)) == digits_value(s) * 10 + digit_value(c),
        digits_value(s.push(c)) >= digits_value(s),
{
    assert(s.push(c).drop_last() =~= s);
}

/// Parses a non-empty string of decimal digits as a `u32`: `None` when the
/// string is empty or the number does not fit in 32 bits.
pub fn parse_digits(s: &Vec<char>) -> (r: Option<u32>)
    requires
        forall|i: int| 0 <= i < s@.len() ==> is_digit(#[trigger] s@[i]),
    ensures
        r is Some <==> (s@.len() > 0 && digits_value(s@) <= u32::MAX),
        r matches Some(v) ==> v == digits_value(s@),
{
    if s.len() == 0 {
        return None;
    }
    let mut v: u32 = 0;
    let mut overflow = false;
    let mut i: usize = 0;
    while i < s.len()
        invariant
            i <= s@.len(),
            forall|j: int| 0 <= j < s@.len() ==> is_digit(#[trigger] s@[j]),
            !overflow ==> v == digits_value(s@.subrange(0, i as int)),
            overflow ==> digits_value(s@.subrange(0, i as int)) > u32::MAX,
        decreases s@.len() - i,
    {
        let c = s[i];
        proof {
            lemma_digits_value_grows(s@.subrange(0, i as int), c);
            assert(s@.subrange(0, i as int).push(c) =~= s@.subrange(0, i + 1));
        }
        if !overflow {
            let d = (c as u32) - ('0' as u32);
            if v > (u32::MAX - d) / 10 {
                overflow = true;
            } else {
                v = v * 10 + d;
            }
        }
        i = i + 1;
    }
    assert(s@.subrange(0, s@.len() as int) =~= s@);
    if overflow {
        None
    } else {
        Some(v)
    }
}

// ── Attack and release steps from a tempo ─────────────────────

/// Attack step per band chosen by AUTO: 30 ms, 10 ms, 3 ms, 1 ms from the
/// lowest band up (indices into the attack table 0.1/0.3/1/3/10/30 ms).
pub open spec fn spec_auto_attack_index(band: int) -> u32 {
    if band == 0 {
        5
    } else if band == 1 {
        4
    } else if band == 2 {
        3
    } else {
        2
    }
}

/// Release choices that AUTO picks from, in ms (the table without Auto).
pub open spec fn release_option_ms(j: int) -> int {
    if j == 0 {
        100
    } else if j == 1 {
        300
    } else if j == 2 {
        600
    } else {
        1200
    }
}

/// Target release of each band as a multiple of a quarter note, times four
/// (two quarters, one, a half, a quarter), times the 60000 ms in a minute:
/// the target in ms is `band_target_scaled(band) / (4 * bpm)`.
pub open spec fn band_target_scaled(band: int) -> int {
    if band == 0 {
        480000
    } else if band == 1 {
        240000
    } else if band == 2 {
        120000
    } else {
        60000
    }
}

/// Distance between release option `j` and the band's target, scaled by
/// `4 * bpm` so that it is an integer.
pub open spec fn scaled_release_distance(bpm: int, band: int, j: int) -> int {
    let d = 4 * release_option_ms(j) * bpm - band_target_scaled(band);
    if d < 0 {
        -d
    } else {
        d
    }
}

/// Whether option `j` is the nearest release option to the band's target,
/// the earliest one on a tie.
pub open spec fn is_nearest_release(bpm: int, band: int, j: int) -> bool {
    &&& 0 <= j < 4
    &&& forall|k: int| 0 <= k < j ==> scaled_release_distance(bpm, band, k) > scaled_release_distance(bpm, band, j)
    &&& forall|k: int| j < k < 4 ==> scaled_release_distance(bpm, band, k) >= scaled_release_distance(bpm, band, j)
}

/// Attack step (index into the attack table) that AUTO sets for `band`.
pub fn auto_attack_index(band: usize) -> (i: u32)
    requires
        band < NUM_BANDS,
    ensures
        i == spec_auto_attack_index(band as int),
{
    if band == 0 {
        5
    } else if band == 1 {
        4
    } else if band == 2 {
        3
    } else {
        2
    }
}

fn release_option_scaled(j: usize, bpm: u32) -> (v: u64)
    requires
        j < 4,
    ensures
        v == 4 * release_option_ms(j as int) * bpm,
{
    let ms: u64 = if j == 0 {
        100
    } else if j == 1 {
        300
    } else if j == 2 {
        600
    } else {
        1200
    };
    let b = bpm as u64;
    assert(4 * ms * b <= 4 * 1200 * 0xffff_ffffu64) by (nonlinear_arith)
        requires
            ms <= 1200,
            b <= 0xffff_ffffu64,
    ;
    4 * ms * b
}

/// Release step (index into the release table 100/300/600/1200 ms/Auto) that
/// AUTO sets for `band` at tempo `bpm`: Auto for the two low bands when the
/// tempo is above 160 BPM, otherwise the option nearest to the band's target
/// (two quarter notes for the low band, then one, a half and a quarter).
pub fn auto_release_index(bpm: u32, band: usize) -> (i: usize)
    requires
        band < NUM_BANDS,
    ensures
        bpm > FAST_TEMPO_BPM && band <= 1 ==> i == 4,
        !(bpm > FAST_TEMPO_BPM && band <= 1) ==> is_nearest_release(bpm as int, band as int, i as int),
{
    if bpm > FAST_TEMPO_BPM && band <= 1 {
        return 4;
    }
    let target: u64 = if band == 0 {
        480000
    } else if band == 1 {
        240000
    } else if band == 2 {
        120000
    } else {
        60000
    };
    let mut best_idx: usize = 0;
    let mut best_dist: u64 = 0;
    let mut j: usize = 0;
    while j < 4
        invariant
            j <= 4,
            band < NUM_BANDS,
            target == band_target_scaled(band as int),
            j == 0 ==> best_idx == 0,
            j > 0 ==> best_idx < j,
            j > 0 ==> best_dist == scaled_release_distance(bpm as int, band as int, best_idx as int),
            forall|k: int| 0 <= k < best_idx ==> scaled_release_distance(bpm as int, band as int, k)
                > scaled_release_distance(bpm as int, band as int, best_idx as int),
            forall|k: int| best_idx < k < j ==> scaled_release_distance(bpm as int, band as int, k)
                >= scaled_release_distance(bpm as int, band as int, best_idx as int),
        decreases 4 - j,
    {
        let opt = release_option_scaled(j, bpm);
        let dist = if opt >= target { opt - target } else { target - opt };
        if j == 0 || dist < best_dist {
            best_idx = j;
            best_dist = dist;
        }
        j = j + 1;
    }
    best_idx
}

/// The release that AUTO picks is the option of 100, 300, 600 and 1200 ms
/// nearest to the band's note length at `bpm`: a quarter note lasts
/// 60000 / bpm ms, and the target is two quarters for the low band, one for
/// the low-mid band, a half for the high-mid band and a quarter for the high
/// band. No option is nearer, and an earlier one is strictly farther. The
/// distances are compared multiplied by `4 * bpm`, which keeps them whole.
pub proof fn lemma_release_nearest_to_note_length(bpm: int, band: int, i: int)
    requires
        0 <= band < 4,
        is_nearest_release(bpm, band, i),
    ensures
        0 <= i < 4,
        forall|j: int| 0 <= j < 4 ==> ({
            // the band's target in ms (60000 / bpm times 2, 1, 1/2 or 1/4
            // quarter notes), times 4 * bpm
            let target: int = if band == 0 {
                480000
            } else if band == 1 {
                240000
            } else if band == 2 {
                120000
            } else {
                60000
            };
            // option j in ms, times 4 * bpm
            let opt_j: int = if j == 0 {
                4 * bpm * 100
            } else if j == 1 {
                4 * bpm * 300
            } else if j == 2 {
                4 * bpm * 600
            } else {
                4 * bpm * 1200
            };
            let opt_i: int = if i == 0 {
                4 * bpm * 100
            } else if i == 1 {
                4 * bpm * 300
            } else if i == 2 {
                4 * bpm * 600
            } else {
                4 * bpm * 1200
            };
            let abs_j = if opt_j < target { target - opt_j } else { opt_j - target };
            let abs_i = if opt_i < target { target - opt_i } else { opt_i - target };
            &&& abs_j == #[trigger] scaled_release_distance(bpm, band, j)
            &&& abs_j >= abs_i
            &&& j < i ==> abs_j > abs_i
        }),
{
    assert forall|j: int| 0 <= j < 4 implies #[trigger] scaled_release_distance(bpm, band, j) >= 0 && ({
        let target: int = if band == 0 {
            480000
        } else if band == 1 {
            240000
        } else if band == 2 {
            120000
        } else {
            60000
        };
        let opt_j: int = if j == 0 {
            4 * bpm * 100
        } else if j == 1 {
            4 * bpm * 300
        } else if j == 2 {
            4 * bpm * 600
        } else {
            4 * bpm * 1200
        };
        let opt_i: int = if i == 0 {
            4 * bpm * 100
        } else if i == 1 {
            4 * bpm * 300
        } else if i == 2 {
            4 * bpm * 600
        } else {
            4 * bpm * 1200
        };
        let abs_j = if opt_j < target { target - opt_j } else { opt_j - target };
        let abs_i = if opt_i < target { target - opt_i } else { opt_i - target };
        &&& abs_j == scaled_release_distance(bpm, band, j)
        &&& abs_j >= abs_i
        &&& j < i ==> abs_j > abs_i
    }) by {
        lemma_option_scaled(bpm, j);
        lemma_option_scaled(bpm, i);
        if j < i {
            assert(scaled_release_distance(bpm, band, j) > scaled_release_distance(bpm, band, i));
        } else if j > i {
            assert(scaled_release_distance(bpm, band, j) >= scaled_release_distance(bpm, band, i));
        }
    }
}

proof fn lemma_option_scaled(bpm: int, j: int)
    requires
        0 <= j < 4,
    ensures
        4 * release_option_ms(j) * bpm == if j == 0 {
            4 * bpm * 100
        } else if j == 1 {
            4 * bpm * 300
        } else if j == 2 {
            4 * bpm * 600
        } else {
            4 * bpm * 1200
        },
{
    let o = release_option_ms(j);
    assert(4 * o * bpm == 4 * bpm * o) by (nonlinear_arith);
}

// ── The BPM entry overlay ─────────────────────────────────────

/// Where a left click in the overlay landed.
#[derive(Clone, Copy, PartialEq, Eq, Debug, Structural)]
pub enum ClickTarget {
    LeftArrow,
    RightArrow,
    SetButton,
    Elsewhere,
}

/// Direction of a scroll in the overlay.
#[derive(Clone, Copy, PartialEq, Eq, Debug, Structural)]
pub enum ScrollDirection {
    Up,
    Down,
    Flat,
}

/// What the user did in the overlay.
#[derive(Clone, Copy, PartialEq, Eq, Debug, Structural)]
pub enum OverlayInput {
    /// A typed character.
    Char(char),
    /// Enter or keypad Enter.
    Enter,
    Escape,
    Backspace,
    /// Any other key.
    OtherKey,
    /// A left mouse button press.
    Click(ClickTarget),
    Scroll(ScrollDirection),
    /// Another mouse press, a release, a move or a double click.
    OtherMouse,
    /// Any other window event.
    Other,
}

/// What the editor has to do after an overlay event.
#[derive(Clone, Copy, PartialEq, Eq, Debug, Structural)]
pub enum OverlayCommand {
    Nothing,
    /// Stop the measurement and switch back to slot A.
    Cancel,
    /// Write the attack/release chosen for this BPM to slot B, switch to
    /// slot B, reset the shared iteration counter and start measuring.
    StartAuto(u32),
}

/// Result of an overlay event.
#[derive(Clone, Copy, PartialEq, Eq, Debug, Structural)]
pub struct OverlayOutcome {
    /// The phase to store.
    pub phase: AutoPhase,
    pub command: OverlayCommand,
    /// Whether the event is consumed.
    pub consumed: bool,
}

/// What the editor has to do after polling the measurement.
#[derive(Clone, Copy, PartialEq, Eq, Debug, Structural)]
pub enum PollCommand {
    Nothing,
    /// Report the computed thresholds to the host, then finish (remember the
    /// time the Done phase started).
    NotifyAndFinish,
    /// Report the computed thresholds to the host, then start the next
    /// measurement.
    NotifyAndRemeasure,
    /// The Done display has been shown long enough: keep slot B active and
    /// save it for persistence.
    ReturnToIdle,
}

/// Result of polling.
#[derive(Clone, Copy, PartialEq, Eq, Debug, Structural)]
pub struct PollOutcome {
    pub phase: AutoPhase,
    pub command: PollCommand,
}

/// Abstract state of the overlay.
pub struct OverlayView {
    /// BPM shown in the entry.
    pub bpm: u32,
    /// BPM that was confirmed with Set.
    pub set_bpm: u32,
    /// Number of finished convergence iterations.
    pub local_iteration: u32,
    /// Whether the thresholds of the current iteration were reported.
    pub threshold_applied: bool,
    /// Whether the user is typing a BPM.
    pub editing: bool,
    /// The digits typed so far.
    pub buffer: Seq<char>,
}

/// Well-formedness of an overlay state: both BPMs in range, only digits
/// typed, typing mode on exactly when something has been typed, and at most
/// MAX_ITERATIONS rounds counted, the last one always reported.
pub open spec fn overlay_view_wf(v: OverlayView) -> bool {
    &&& v.local_iteration <= MAX_ITERATIONS
    &&& v.local_iteration == MAX_ITERATIONS ==> v.threshold_applied
    &&& BPM_MIN <= v.bpm <= BPM_MAX
    &&& BPM_MIN <= v.set_bpm <= BPM_MAX
    &&& v.editing == (v.buffer.len() > 0)
    &&& forall|i: int| 0 <= i < v.buffer.len() ==> is_digit(#[trigger] v.buffer[i])
}

/// Ends typing: a typed number that fits in 32 bits is clamped into range
/// and becomes the BPM; the typed text is discarded either way.
pub open spec fn spec_commit_typing(v: OverlayView) -> OverlayView {
    if v.editing {
        OverlayView {
            bpm: if digits_value(v.buffer) <= u32::MAX {
                spec_clamp_bpm(digits_value(v.buffer) as int) as u32
            } else {
                v.bpm
            },
            editing: false,
            buffer: Seq::empty(),
            ..v
        }
    } else {
        v
    }
}

/// The overlay state after a cancel: the iteration count is reset.
pub open spec fn spec_cancelled(v: OverlayView) -> OverlayView {
    OverlayView { local_iteration: 0, ..v }
}

/// The state and outcome of one overlay event when the analysis is not idle.
pub open spec fn spec_overlay_step(v: OverlayView, phase: AutoPhase, input: OverlayInput) -> (OverlayView, OverlayOutcome) {
    let same = OverlayOutcome { phase: phase, command: OverlayCommand::Nothing, consumed: true };
    let ignored = OverlayOutcome { phase: phase, command: OverlayCommand::Nothing, consumed: false };
    let cancel = OverlayOutcome { phase: AutoPhase::Idle, command: OverlayCommand::Cancel, consumed: true };
    match input {
        OverlayInput::Char(c) => {
            if phase == AutoPhase::BpmInput && is_digit(c) {
                let base = if v.editing { v.buffer } else { Seq::empty() };
                (OverlayView { editing: true, buffer: base.push(c), ..v }, same)
            } else {
                (v, ignored)
            }
        },
        OverlayInput::Enter => {
            if phase == AutoPhase::BpmInput && v.editing {
                (spec_commit_typing(v), same)
            } else {
                (v, ignored)
            }
        },
        OverlayInput::Escape => {
            if phase == AutoPhase::BpmInput {
                if v.editing {
                    (OverlayView { editing: false, buffer: Seq::empty(), ..v }, same)
                } else {
                    (spec_cancelled(v), cancel)
                }
            } else {
                (v, ignored)
            }
        },
        OverlayInput::Backspace => {
            if phase == AutoPhase::BpmInput && v.editing {
                let b = v.buffer.drop_last();
                (OverlayView { editing: b.len() > 0, buffer: b, ..v }, same)
            } else {
                (v, ignored)
            }
        },
        OverlayInput::OtherKey => (v, ignored),
        OverlayInput::Click(t) => {
            if phase == AutoPhase::BpmInput {
                let c = spec_commit_typing(v);
                match t {
                    ClickTarget::LeftArrow => (OverlayView { bpm: spec_bpm_down(c.bpm as int) as u32, ..c }, same),
                    ClickTarget::RightArrow => (OverlayView { bpm: spec_bpm_up(c.bpm as int) as u32, ..c }, same),
                    ClickTarget::SetButton => (
                        OverlayView { set_bpm: c.bpm, local_iteration: 0, threshold_applied: false, ..c },
                        OverlayOutcome {
                            phase: AutoPhase::MeasuringGR,
                            command: OverlayCommand::StartAuto(c.bpm),
                            consumed: true,
                        },
                    ),
                    ClickTarget::Elsewhere => (spec_cancelled(c), cancel),
                }
            } else if phase == AutoPhase::MeasuringGR {
                (spec_cancelled(v), cancel)
            } else {
                (v, same)
            }
        },
        OverlayInput::Scroll(d) => {
            if phase == AutoPhase::BpmInput {
                let c = spec_commit_typing(v);
                match d {
                    ScrollDirection::Up => (OverlayView { bpm: spec_bpm_up(c.bpm as int) as u32, ..c }, same),
                    ScrollDirection::Down => (OverlayView { bpm: spec_bpm_down(c.bpm as int) as u32, ..c }, same),
                    ScrollDirection::Flat => (c, same),
                }
            } else {
                (v, same)
            }
        },
        OverlayInput::OtherMouse => (v, same),
        OverlayInput::Other => (v, ignored),
    }
}

/// The state and outcome of polling the measurement.
pub open spec fn spec_overlay_poll(
    v: OverlayView,
    phase: AutoPhase,
    params_ready: bool,
    converged: bool,
    done_elapsed: bool,
) -> (OverlayView, PollOutcome) {
    if phase == AutoPhase::MeasuringGR && params_ready && !v.threshold_applied {
        let iter = (v.local_iteration + 1) as u32;
        if iter >= MAX_ITERATIONS || converged {
            (
                OverlayView { local_iteration: iter, threshold_applied: true, ..v },
                PollOutcome { phase: AutoPhase::Done, command: PollCommand::NotifyAndFinish },
            )
        } else {
            (
                OverlayView { local_iteration: iter, threshold_applied: false, ..v },
                PollOutcome { phase: AutoPhase::MeasuringGR, command: PollCommand::NotifyAndRemeasure },
            )
        }
    } else if phase == AutoPhase::Done && done_elapsed {
        (
            OverlayView { local_iteration: 0, ..v },
            PollOutcome { phase: AutoPhase::Idle, command: PollCommand::ReturnToIdle },
        )
    } else {
        (v, PollOutcome { phase: phase, command: PollCommand::Nothing })
    }
}

/// State of the BPM entry overlay kept by the editor.
pub struct AutoOverlayModel {
    bpm: u32,
    set_bpm: u32,
    local_iteration: u32,
    threshold_applied: bool,
    editing: bool,
    edit_buffer: Vec<char>,
}

impl View for AutoOverlayModel {
    type V = OverlayView;

    closed spec fn view(&self) -> OverlayView {
        OverlayView {
            bpm: self.bpm,
            set_bpm: self.set_bpm,
            local_iteration: self.local_iteration,
            threshold_applied: self.threshold_applied,
            editing: self.editing,
            buffer: self.edit_buffer@,
        }
    }
}

impl AutoOverlayModel {
    /// The model is well formed (see `overlay_view_wf`).
    pub open spec fn wf(&self) -> bool {
        overlay_view_wf(self@)
    }

    /// A fresh overlay: the default BPM, nothing typed, no iteration.
    pub fn new() -> (m: Self)
        ensures
            m.wf(),
            m@.bpm == BPM_DEFAULT,
            m@.set_bpm == BPM_DEFAULT,
            m@.local_iteration == 0,
            !m@.threshold_applied,
            !m@.editing,
            m@.buffer.len() == 0,
    {
        AutoOverlayModel {
            bpm: BPM_DEFAULT,
            set_bpm: BPM_DEFAULT,
            local_iteration: 0,
            threshold_applied: false,
            editing: false,
            edit_buffer: Vec::new(),
        }
    }

    /// BPM shown in the entry.
    pub fn bpm(&self) -> (b: u32)
        ensures
            b == self@.bpm,
    {
        self.bpm
    }

    /// BPM confirmed with Set (shown in the Done phase).
    pub fn set_bpm(&self) -> (b: u32)
        ensures
            b == self@.set_bpm,
    {
        self.set_bpm
    }

    /// Number of finished convergence iterations.
    pub fn local_iteration(&self) -> (i: u32)
        ensures
            i == self@.local_iteration,
    {
        self.local_iteration
    }

    /// Whether the user is typing a BPM.
    pub fn is_editing(&self) -> (e: bool)
        ensures
            e == self@.editing,
    {
        self.editing
    }

    /// The digits typed so far.
    pub fn edit_buffer(&self) -> (b: &Vec<char>)
        ensures
            b@ == self@.buffer,
    {
        &self.edit_buffer
    }

    fn commit_typing(&mut self)
        requires
            old(self).wf(),
        ensures
            final(self).wf(),
            final(self)@ == spec_commit_typing(old(self)@),
    {
        if self.editing {
            match parse_digits(&self.edit_buffer) {
                Some(val) => {
                    self.bpm = clamp_bpm(val);
                },
                None => {},
            }
            self.editing = false;
            self.edit_buffer = Vec::new();
        }
    }

    fn cancel(&mut self)
        ensures
            final(self)@ == spec_cancelled(old(self)@),
    {
        self.local_iteration = 0;
    }

    /// Handles one event of the overlay in phase `phase`. In the Idle phase
    /// the overlay ignores every event.
    pub fn handle(&mut self, phase: AutoPhase, input: OverlayInput) -> (out: OverlayOutcome)
        requires
            old(self).wf(),
        ensures
            final(self).wf(),
            phase == AutoPhase::Idle ==> final(self)@ == old(self)@ && out == (OverlayOutcome {
                phase: AutoPhase::Idle,
                command: OverlayCommand::Nothing,
                consumed: false,
            }),
            phase != AutoPhase::Idle ==> (final(self)@, out) == spec_overlay_step(old(self)@, phase, input),
    {
        let same = OverlayOutcome { phase: phase, command: OverlayCommand::Nothing, consumed: true };
        let ignored = OverlayOutcome { phase: phase, command: OverlayCommand::Nothing, consumed: false };
        let cancel = OverlayOutcome { phase: AutoPhase::Idle, command: OverlayCommand::Cancel, consumed: true };
        if phase == AutoPhase::Idle {
            return ignored;
        }
        match input {
            OverlayInput::Char(c) => {
                if phase == AutoPhase::BpmInput && char_is_digit(c) {
                    if !self.editing {
                        self.editing = true;
                        self.edit_buffer = Vec::new();
                    }
                    self.edit_buffer.push(c);
                    same
                } else {
                    ignored
                }
            },
            OverlayInput::Enter => {
                if phase == AutoPhase::BpmInput && self.editing {
                    self.commit_typing();
                    same
                } else {
                    ignored
                }
            },
            OverlayInput::Escape => {
                if phase == AutoPhase::BpmInput {
                    if self.editing {
                        self.editing = false;
                        self.edit_buffer = Vec::new();
                        same
                    } else {
                        self.cancel();
                        cancel
                    }
                } else {
                    ignored
                }
            },
            OverlayInput::Backspace => {
                if phase == AutoPhase::BpmInput && self.editing {
                    self.edit_buffer.pop();
                    if self.edit_buffer.len() == 0 {
                        self.editing = false;
                    }
                    proof {
                        assert(self.edit_buffer@ =~= old(self)@.buffer.drop_last());
                    }
                    same
                } else {
                    ignored
                }
            },
            OverlayInput::OtherKey => ignored,
            OverlayInput::Click(t) => {
                if phase == AutoPhase::BpmInput {
                    self.commit_typing();
                    match t {
                        ClickTarget::LeftArrow => {
                            self.bpm = bpm_down(self.bpm);
                            same
                        },
                        ClickTarget::RightArrow => {
                            self.bpm = bpm_up(self.bpm);
                            same
                        },
                        ClickTarget::SetButton => {
                            let bpm = self.bpm;
                            self.set_bpm = bpm;
                            self.local_iteration = 0;
                            self.threshold_applied = false;
                            OverlayOutcome {
                                phase: AutoPhase::MeasuringGR,
                                command: OverlayCommand::StartAuto(bpm),
                                consumed: true,
                            }
                        },
                        ClickTarget::Elsewhere => {
                            self.cancel();
                            cancel
                        },
                    }
                } else if phase == AutoPhase::MeasuringGR {
                    self.cancel();
                    cancel
                } else {
                    same
                }
            },
            OverlayInput::Scroll(d) => {
                if phase == AutoPhase::BpmInput {
                    self.commit_typing();
                    match d {
                        ScrollDirection::Up => {
                            self.bpm = bpm_up(self.bpm);
                        },
                        ScrollDirection::Down => {
                            self.bpm = bpm_down(self.bpm);
                        },
                        ScrollDirection::Flat => {},
                    }
                }
                same
            },
            OverlayInput::OtherMouse => same,
            OverlayInput::Other => ignored,
        }
    }

    /// Polls the measurement once per frame. `params_ready` tells whether the
    /// audio thread has computed new thresholds, `converged` whether every
    /// band's average GR is within 0.5 dB of the target, and `done_elapsed`
    /// whether the Done display has been shown for its full duration.
    pub fn poll(&mut self, phase: AutoPhase, params_ready: bool, converged: bool, done_elapsed: bool) -> (out: PollOutcome)
        requires
            old(self).wf(),
        ensures
            final(self).wf(),
            (final(self)@, out) == spec_overlay_poll(old(self)@, phase, params_ready, converged, done_elapsed),
    {
        if phase == AutoPhase::MeasuringGR && params_ready && !self.threshold_applied {
            self.threshold_applied = true;
            let iter = self.local_iteration + 1;
            self.local_iteration = iter;
            if iter >= MAX_ITERATIONS || converged {
                PollOutcome { phase: AutoPhase::Done, command: PollCommand::NotifyAndFinish }
            } else {
                self.threshold_applied = false;
                PollOutcome { phase: AutoPhase::MeasuringGR, command: PollCommand::NotifyAndRemeasure }
            }
        } else if phase == AutoPhase::Done && done_elapsed {
            self.local_iteration = 0;
            PollOutcome { phase: AutoPhase::Idle, command: PollCommand::ReturnToIdle }
        } else {
            PollOutcome { phase: phase, command: PollCommand::Nothing }
        }
    }
}

/// Every cancel returns the analysis to Idle and resets the iteration count.
pub proof fn lemma_cancel_returns_to_idle(v: OverlayView, phase: AutoPhase, input: OverlayInput)
    requires
        spec_overlay_step(v, phase, input).1.command == OverlayCommand::Cancel,
    ensures
        spec_overlay_step(v, phase, input).1.phase == AutoPhase::Idle,
        spec_overlay_step(v, phase, input).0.local_iteration == 0,
{
}

/// Starting AUTO always uses the BPM on display, which is within range, and
/// starts the measurement from iteration zero.
pub proof fn lemma_start_uses_displayed_bpm(v: OverlayView, phase: AutoPhase, input: OverlayInput, bpm: u32)
    requires
        overlay_view_wf(v),
        spec_overlay_step(v, phase, input).1.command == OverlayCommand::StartAuto(bpm),
    ensures
        BPM_MIN <= bpm <= BPM_MAX,
        phase == AutoPhase::BpmInput,
        spec_overlay_step(v, phase, input).1.phase == AutoPhase::MeasuringGR,
        spec_overlay_step(v, phase, input).0.set_bpm == bpm,
        spec_overlay_step(v, phase, input).0.bpm == bpm,
        spec_overlay_step(v, phase, input).0.local_iteration == 0,
{
    let c = spec_commit_typing(v);
    assert(BPM_MIN <= c.bpm <= BPM_MAX);
}

/// Convergence is bounded: an AUTO run counts at most MAX_ITERATIONS
/// measurement rounds, one per poll at most; a counted round that keeps
/// measuring leaves the count below the limit, and the round that reaches
/// the limit always finishes.
pub proof fn lemma_convergence_bounded(
    v: OverlayView,
    params_ready: bool,
    converged: bool,
    done_elapsed: bool,
)
    requires
        overlay_view_wf(v),
    ensures
        ({
            let (n, out) = spec_overlay_poll(v, AutoPhase::MeasuringGR, params_ready, converged, done_elapsed);
            &&& overlay_view_wf(n)
            &&& n.local_iteration <= MAX_ITERATIONS
            &&& n.local_iteration != v.local_iteration ==> n.local_iteration == v.local_iteration + 1
            &&& (n.local_iteration != v.local_iteration && out.phase == AutoPhase::MeasuringGR)
                ==> n.local_iteration < MAX_ITERATIONS
            &&& (n.local_iteration != v.local_iteration && n.local_iteration == MAX_ITERATIONS)
                ==> out.phase == AutoPhase::Done
        }),
{
}

/// The displayed BPM stays within range whatever event arrives.
pub proof fn lemma_bpm_stays_in_range(v: OverlayView, phase: AutoPhase, input: OverlayInput)
    requires
        overlay_view_wf(v),
    ensures
        BPM_MIN <= spec_overlay_step(v, phase, input).0.bpm <= BPM_MAX,
{
    let c = spec_commit_typing(v);
    assert(BPM_MIN <= c.bpm <= BPM_MAX);
}

/// A scroll in the BPM entry while a number is being typed first confirms
/// the typed number, clamped into [BPM_MIN, BPM_MAX], and then steps that
/// value: up by one (at most BPM_MAX), down by one (at least BPM_MIN), or not
/// at all for a flat scroll. A typed number too large for 32 bits is dropped
/// and the BPM shown before is stepped. Typing ends either way.
pub proof fn lemma_scroll_confirms_typing_first(v: OverlayView, d: ScrollDirection)
    requires
        overlay_view_wf(v),
        v.editing,
    ensures
        ({
            let t = digits_value(v.buffer) as int;
            let base: int = if t > 4294967295 {
                v.bpm as int
            } else if t < 60 {
                60
            } else if t > 300 {
                300
            } else {
                t
            };
            let (n, out) = spec_overlay_step(v, AutoPhase::BpmInput, OverlayInput::Scroll(d));
            &&& n.bpm == match d {
                ScrollDirection::Up => if base < 300 { base + 1 } else { 300 },
                ScrollDirection::Down => if base > 60 { base - 1 } else { 60 },
                ScrollDirection::Flat => base,
            }
            &&& !n.editing
            &&& n.buffer.len() == 0
            &&& n.set_bpm == v.set_bpm
            &&& n.local_iteration == v.local_iteration
            &&& out.phase == AutoPhase::BpmInput
            &&& out.command == OverlayCommand::Nothing
            &&& out.consumed
        }),
        spec_overlay_step(v, AutoPhase::BpmInput, OverlayInput::Scroll(d)) == spec_overlay_step(
            spec_overlay_step(v, AutoPhase::BpmInput, OverlayInput::Enter).0,
            AutoPhase::BpmInput,
            OverlayInput::Scroll(d),
        ),
{
}

/// A click on an arrow of the BPM entry while a number is being typed first
/// confirms the typed number, clamped into [BPM_MIN, BPM_MAX], and then
/// steps that value: the right arrow up by one (at most BPM_MAX), the left
/// arrow down by one (at least BPM_MIN). A typed number too large for 32 bits
/// is dropped and the BPM shown before is stepped. Typing ends either way,
/// and any click behaves as Enter followed by the same click.
pub proof fn lemma_arrow_confirms_typing_first(v: OverlayView, t: ClickTarget)
    requires
        overlay_view_wf(v),
        v.editing,
    ensures
        t == ClickTarget::LeftArrow || t == ClickTarget::RightArrow ==> ({
            let x = digits_value(v.buffer) as int;
            let base: int = if x > 4294967295 {
                v.bpm as int
            } else if x < 60 {
                60
            } else if x > 300 {
                300
            } else {
                x
            };
            let (n, out) = spec_overlay_step(v, AutoPhase::BpmInput, OverlayInput::Click(t));
            &&& n.bpm == if t == ClickTarget::RightArrow {
                if base < 300 { base + 1 } else { 300 }
            } else {
                if base > 60 { base - 1 } else { 60 }
            }
            &&& !n.editing
            &&& n.buffer.len() == 0
            &&& n.set_bpm == v.set_bpm
            &&& n.local_iteration == v.local_iteration
            &&& out.phase == AutoPhase::BpmInput
            &&& out.command == OverlayCommand::Nothing
            &&& out.consumed
        }),
        spec_overlay_step(v, AutoPhase::BpmInput, OverlayInput::Click(t)) == spec_overlay_step(
            spec_overlay_step(v, AutoPhase::BpmInput, OverlayInput::Enter).0,
            AutoPhase::BpmInput,
            OverlayInput::Click(t),
        ),
{
}

/// Enter in the BPM entry while a number is being typed makes the typed
/// number, clamped into [BPM_MIN, BPM_MAX], the BPM shown; a number too
/// large for 32 bits is dropped. Typing ends either way.
pub proof fn lemma_enter_confirms_typing(v: OverlayView)
    requires
        overlay_view_wf(v),
        v.editing,
    ensures
        ({
            let x = digits_value(v.buffer) as int;
            let (n, out) = spec_overlay_step(v, AutoPhase::BpmInput, OverlayInput::Enter);
            &&& n.bpm == if x > 4294967295 {
                v.bpm as int
            } else if x < 60 {
                60
            } else if x > 300 {
                300
            } else {
                x
            }
            &&& !n.editing
            &&& n.buffer.len() == 0
            &&& out.phase == AutoPhase::BpmInput
            &&& out.consumed
        }),
{
}

/// The phase that follows `p` in the cycle Idle, BpmInput, MeasuringGR,
/// Done, Idle.
pub open spec fn next_in_cycle(p: AutoPhase) -> AutoPhase {
    match p {
        AutoPhase::Idle => AutoPhase::BpmInput,
        AutoPhase::BpmInput => AutoPhase::MeasuringGR,
        AutoPhase::MeasuringGR => AutoPhase::Done,
        AutoPhase::Done => AutoPhase::Idle,
    }
}

/// The analysis only moves along its cycle (Idle, BpmInput, MeasuringGR,
/// Done, Idle) or back to Idle: no event of the overlay and no poll makes it
/// skip a phase or go backwards otherwise.
pub proof fn lemma_phases_follow_cycle(
    v: OverlayView,
    phase: AutoPhase,
    input: OverlayInput,
    params_ready: bool,
    converged: bool,
    done_elapsed: bool,
)
    ensures
        ({
            let q = spec_overlay_step(v, phase, input).1.phase;
            q == phase || q == AutoPhase::Idle || q == next_in_cycle(phase)
        }),
        ({
            let q = spec_overlay_poll(v, phase, params_ready, converged, done_elapsed).1.phase;
            q == phase || q == AutoPhase::Idle || q == next_in_cycle(phase)
        }),
        ({
            let q = if phase == AutoPhase::Idle { AutoPhase::BpmInput } else { phase };
            q == phase || q == next_in_cycle(phase)
        }),
{
}

/// One BPM step up, not beyond BPM_MAX.
pub fn bpm_up(b: u32) -> (r: u32)
    ensures
        r == spec_bpm_up(b as int),
{
    if b < BPM_MAX {
        b + 1
    } else {
        BPM_MAX
    }
}

/// One BPM step down (saturating at zero), not below BPM_MIN.
pub fn bpm_down(b: u32) -> (r: u32)
    ensures
        r == spec_bpm_down(b as int),
{
    let s = if b >= 1 { b - 1 } else { 0 };
    if s >= BPM_MIN {
        s
    } else {
        BPM_MIN
    }
}

} // verus!
