use ivylace::detect::{
    detect_tempo, peak_bin, smooth_histogram, span_weight, MeasurementWindow, OnsetTracker,
    SampleRate, TempoDetector, FALLBACK_BPM, MAX_ONSETS, NUM_BPM_BINS,
};

/// A whole-Hz sample rate.
fn hz(rate: u64) -> SampleRate {
    SampleRate { num: rate, den: 1 }
}
use std::f64::consts::PI;

#[test]
fn window_completes_after_its_length() {
    let mut w = MeasurementWindow::new(4);
    assert!(!w.accepts());
    w.start();
    assert!(w.is_active() && !w.is_done());
    for k in 1..=4u64 {
        assert!(w.accepts());
        let completed = w.count_sample();
        assert_eq!(completed, k == 4);
        assert_eq!(w.sample_count(), k);
    }
    assert!(w.is_done() && !w.is_active());
    assert!(!w.accepts());
    w.reset();
    assert!(!w.is_done() && !w.is_active());
    assert_eq!(w.sample_count(), 0);
}

#[test]
fn window_half_way_progress() {
    let mut w = MeasurementWindow::new(132300);
    w.start();
    for _ in 0..66150 {
        w.count_sample();
    }
    assert_eq!(w.sample_count() * 2, w.analysis_samples());
    assert!(!w.is_done());
    w.set_length(1000);
    assert_eq!(w.analysis_samples(), 1000);
    assert!(w.count_sample());
}

#[test]
fn onsets_respect_cooldown() {
    let mut t = OnsetTracker::new(3);
    // envelope above the threshold on every sample: only rising edges count
    let mut recorded = Vec::new();
    for s in 0..20u64 {
        let above = s % 2 == 0;
        if t.step(above) {
            recorded.push(s);
        }
    }
    assert_eq!(recorded, vec![0, 4, 8, 12, 16]);
    assert_eq!(t.onset_count(), 5);
    assert_eq!(t.onset(1), 4);
    assert_eq!(t.interval(4, 1), 4);
    assert_eq!(t.interval(4, 3), 12);
    assert_eq!(t.sample_count(), 20);
}

#[test]
fn onsets_need_rising_edge() {
    let mut t = OnsetTracker::new(0);
    assert!(t.step(true));
    assert!(!t.step(true));
    assert!(!t.step(false));
    assert!(t.step(true));
    t.clear();
    assert_eq!(t.onset_count(), 0);
    assert_eq!(t.sample_count(), 0);
}

#[test]
fn onsets_are_capped() {
    let mut t = OnsetTracker::new(0);
    for s in 0..(2 * MAX_ONSETS as u64 + 10) {
        t.step(s % 2 == 0);
    }
    assert_eq!(t.onset_count(), MAX_ONSETS);
}

#[test]
fn span_weights() {
    assert_eq!(span_weight(1), 3);
    assert_eq!(span_weight(2), 2);
    assert_eq!(span_weight(3), 1);
}

/// A tracker (no cooldown) with onsets recorded at exactly `onsets`
/// (increasing, at least two samples apart).
fn tracker_with_onsets(onsets: &[u64]) -> OnsetTracker {
    let mut t = OnsetTracker::new(0);
    let last = *onsets.last().unwrap_or(&0);
    for s in 0..=last {
        t.step(onsets.contains(&s));
    }
    assert_eq!(t.onset_count(), onsets.len());
    t
}

/// The non-empty bins of a histogram as (BPM, weight).
fn votes_by_bpm(h: &[u32; NUM_BPM_BINS]) -> Vec<(usize, u32)> {
    (0..NUM_BPM_BINS).filter(|&b| h[b] > 0).map(|b| (b + 60, h[b])).collect()
}

#[test]
fn histogram_and_smoothing() {
    let mut h = [0u32; NUM_BPM_BINS];
    h[68] = 5;
    h[70] = 1;
    h[0] = 2;
    let s = smooth_histogram(&h);
    assert_eq!(s[68], 6);
    assert_eq!(s[66], 5);
    assert_eq!(s[71], 1);
    assert_eq!(s[0], 2);
    assert_eq!(s[2], 2);
    assert_eq!(s[3], 0);
    assert_eq!(s[140], 0);
    assert_eq!(peak_bin(&s), (68, 6));
}

#[test]
fn peak_prefers_first_bin() {
    let mut s = [0u32; NUM_BPM_BINS];
    assert_eq!(peak_bin(&s), (0, 0));
    s[1] = 2;
    s[2] = 5;
    s[3] = 5;
    s[140] = 1;
    assert_eq!(peak_bin(&s), (2, 5));
}

#[test]
fn histogram_votes_of_onset_intervals() {
    // 20671 samples at 44.1 kHz: 128.0069 BPM; twice that is out of range
    let t = tracker_with_onsets(&[0, 20671]);
    assert_eq!(votes_by_bpm(&t.tempo_histogram(hz(44100))), vec![(128, 3)]);
    // 1 s: 60 BPM and 120 BPM
    let t = tracker_with_onsets(&[0, 44100]);
    assert_eq!(votes_by_bpm(&t.tempo_histogram(hz(44100))), vec![(60, 3), (120, 3)]);
    // 87.5 BPM rounds up to 88, twice is 175; the span over two beats votes
    // the same tempos with weight 2
    let t = tracker_with_onsets(&[0, 30240, 60480]);
    assert_eq!(votes_by_bpm(&t.tempo_histogram(hz(44100))), vec![(88, 8), (175, 8)]);
    // a different sample rate changes the vote
    let t = tracker_with_onsets(&[0, 24000]);
    assert_eq!(votes_by_bpm(&t.tempo_histogram(hz(48000))), vec![(120, 3)]);
    // too slow for the range even when doubled
    let t = tracker_with_onsets(&[0, 100_000]);
    assert!(votes_by_bpm(&t.tempo_histogram(hz(44100))).is_empty());
    // spans of width 1, 2 and 3 with weights 3, 2 and 1: 140 BPM
    let t = tracker_with_onsets(&[0, 18900, 37800, 56700]);
    assert_eq!(votes_by_bpm(&t.tempo_histogram(hz(44100))), vec![(140, 3 * 3 + 2 * 2 + 1)]);
    assert!(votes_by_bpm(&OnsetTracker::new(0).tempo_histogram(hz(44100))).is_empty());
}

#[test]
fn detect_tempo_from_tracker() {
    let mut t = OnsetTracker::new(4410);
    for s in 0..(10 * 18900u64) {
        t.step(s % 18900 < 10);
    }
    assert_eq!(t.onset_count(), 10);
    // every vote lands on 140: the smoothed histogram peaks first at 138
    assert_eq!(detect_tempo(&t, hz(44100)), 138);
    let mut few = OnsetTracker::new(0);
    for s in 0..100u64 {
        few.step(s % 20 == 0);
    }
    assert_eq!(detect_tempo(&few, hz(44100)), FALLBACK_BPM);
}

#[test]
fn tempo_detector_lifecycle() {
    let mut d = TempoDetector::new(hz(1000), 5000, 100);
    assert_eq!(d.analysis_samples(), 5000);
    assert!(!d.accepts());
    d.start();
    assert!(d.accepts() && d.is_active());
    let mut completed_at = None;
    for s in 0..5000u64 {
        if d.step(s % 500 == 0) {
            completed_at = Some(s);
        }
    }
    assert_eq!(completed_at, Some(4999));
    assert!(d.is_done() && !d.is_active() && !d.accepts());
    assert_eq!(d.onset_count(), 10);
    // 500 samples at 1 kHz: 120 BPM; smoothed peak two bins lower
    assert_eq!(d.detected_bpm(), 118);
    d.set_sample_rate(hz(2000), 10000, 200);
    assert_eq!(d.analysis_samples(), 10000);
    d.reset();
    assert!(!d.is_done() && !d.accepts());
    assert_eq!(d.detected_bpm(), 0);
    assert_eq!(d.sample_count(), 0);
}

/// Onset envelope of the BPM detector (the part of the detector that runs
/// on floating point), fed one stereo sample at a time.
struct OnsetEnvelope {
    envelope: f64,
    mean_energy: f64,
    attack: f64,
    release: f64,
    mean_coeff: f64,
}

impl OnsetEnvelope {
    fn new(sr: f64) -> Self {
        OnsetEnvelope {
            envelope: 0.0,
            mean_energy: 0.0,
            attack: (-1.0 / (0.0005 * sr)).exp(),
            release: (-1.0 / (0.030 * sr)).exp(),
            mean_coeff: (-1.0 / (2.0 * sr)).exp(),
        }
    }

    fn is_above(&mut self, left: f64, right: f64) -> bool {
        let energy = (left.abs() + right.abs()) * 0.5;
        let c = if energy > self.envelope { self.attack } else { self.release };
        self.envelope = c * self.envelope + (1.0 - c) * energy;
        self.mean_energy = self.mean_coeff * self.mean_energy + (1.0 - self.mean_coeff) * energy;
        self.envelope > (self.mean_energy * 3.0).max(1e-6)
    }
}

fn detect_synthetic_kick(bpm: f64) -> f64 {
    let sr = 44100.0;
    let mut det = TempoDetector::new(hz(44100), 220500, 4410);
    let mut env = OnsetEnvelope::new(sr);
    det.start();
    let beat_interval_samples = (sr * 60.0 / bpm) as u64;
    let total_samples = (sr * 5.0) as u64;
    for s in 0..total_samples {
        let pos_in_beat = s % beat_interval_samples;
        let kick = if pos_in_beat < 200 {
            let t = pos_in_beat as f64 / sr;
            0.8 * (2.0 * PI * 80.0 * t).sin() * (-t * 200.0).exp()
        } else {
            0.0
        };
        let noise = ((s as f64 * 0.1234).sin()) * 0.001;
        let sample = kick + noise;
        if det.accepts() {
            let above = env.is_above(sample, sample);
            det.step(above);
        }
    }
    assert!(det.is_done());
    det.detected_bpm() as f64
}

#[test]
fn test_bpm_detection_128() {
    let bpm = 128.0;
    let detected = detect_synthetic_kick(bpm);
    assert!(
        (detected - bpm).abs() <= 3.0,
        "Detected BPM {} is too far from target {}",
        detected,
        bpm
    );
}

#[test]
fn test_bpm_detection_140() {
    let bpm = 140.0;
    let detected = detect_synthetic_kick(bpm);
    assert!(
        (detected - bpm).abs() <= 3.0,
        "Detected BPM {} is too far from target {}",
        detected,
        bpm
    );
}

#[test]
fn test_bpm_detection_silence() {
    let mut det = TempoDetector::new(hz(44100), 220500, 4410);
    let mut env = OnsetEnvelope::new(44100.0);
    det.start();
    let total_samples = (44100.0 * 5.0) as u64;
    for _ in 0..total_samples {
        let above = env.is_above(0.0, 0.0);
        det.step(above);
    }
    assert!(det.is_done());
    assert_eq!(det.detected_bpm(), FALLBACK_BPM);
}

#[test]
fn auto_detect_test_progress() {
    let mut det = TempoDetector::new(hz(44100), 220500, 4410);
    det.start();
    assert_eq!(det.sample_count(), 0);
    let half = (44100.0 * 5.0 * 0.5) as u64;
    for _ in 0..half {
        det.step(false);
    }
    let progress = det.sample_count() as f64 / det.analysis_samples() as f64;
    assert!((progress - 0.5).abs() < 0.02);
}

#[test]
fn detected_tempo_stays_in_range() {
    // onsets every 300 ms at 1 kHz: 200 BPM, the top of the range
    let mut t = OnsetTracker::new(0);
    for s in 0..3000u64 {
        t.step(s % 300 == 0);
    }
    let bpm = detect_tempo(&t, hz(1000));
    assert!((60..=200).contains(&bpm));
    assert_eq!(bpm, 198);
}

#[test]
fn fractional_sample_rate_votes() {
    // at 44100.5 Hz, 44101 samples between onsets are 59.99932 BPM (below
    // the range) and twice that rounds to 120; at 44101 Hz the same interval
    // is exactly 60 BPM
    let t = tracker_with_onsets(&[0, 44101]);
    let half = SampleRate { num: 88201, den: 2 };
    assert_eq!(votes_by_bpm(&t.tempo_histogram(half)), vec![(120, 3)]);
    assert_eq!(votes_by_bpm(&t.tempo_histogram(hz(44101))), vec![(60, 3), (120, 3)]);
    // 22050 samples at 44100.5 Hz: 120.0014 BPM, which rounds to 120
    let t = tracker_with_onsets(&[0, 22050]);
    assert_eq!(votes_by_bpm(&t.tempo_histogram(half)), vec![(120, 3)]);
    // a zero denominator is no rate: nothing votes
    let none = SampleRate { num: 44100, den: 0 };
    assert!(votes_by_bpm(&t.tempo_histogram(none)).is_empty());
}

#[test]
fn tempo_detector_ignores_samples_when_idle_or_done() {
    let mut d = TempoDetector::new(hz(1000), 3, 0);
    // idle: nothing is counted or recorded
    assert!(!d.step(true));
    assert_eq!((d.sample_count(), d.onset_count()), (0, 0));
    d.start();
    assert!(!d.step(true));
    assert!(!d.step(false));
    assert!(d.step(true));
    assert!(d.is_done());
    let (count, onsets, bpm) = (d.sample_count(), d.onset_count(), d.detected_bpm());
    // done: further samples change nothing
    assert!(!d.step(false));
    assert!(!d.step(true));
    assert_eq!((d.sample_count(), d.onset_count(), d.detected_bpm()), (count, onsets, bpm));
    assert_eq!((count, onsets, bpm), (3, 2, FALLBACK_BPM));
}

#[test]
fn window_ignores_samples_when_idle_or_done() {
    let mut w = MeasurementWindow::new(2);
    assert!(!w.count_sample());
    assert_eq!(w.sample_count(), 0);
    w.start();
    assert!(!w.count_sample());
    assert!(w.count_sample());
    assert!(!w.count_sample());
    assert_eq!(w.sample_count(), 2);
    assert!(w.is_done());
}
