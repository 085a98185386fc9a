use ivylace::oversampling::{
    fir_coefficient_bits, DelayLine, OversamplingFactor, FIR_HALF, FIR_TAPS,
};

fn coeff(k: usize) -> f64 {
    f64::from_bits(fir_coefficient_bits(k))
}

#[test]
fn test_fir_coeffs_sum() {
    let sum: f64 = (0..FIR_TAPS).map(coeff).sum();
    let error = (sum - 1.0).abs();
    assert!(error < 1e-10, "FIR sum should be 1.0, got {}", sum);
}

#[test]
fn fir_coeffs_are_symmetric() {
    for k in 0..FIR_TAPS {
        assert_eq!(fir_coefficient_bits(k), fir_coefficient_bits(FIR_TAPS - 1 - k));
    }
}

#[test]
fn fir_coeffs_half_band() {
    assert_eq!(coeff(FIR_HALF), 0.5);
    for k in [1, 3, 5, 9, 11, 13] {
        assert_eq!(coeff(k), 0.0);
    }
    assert!((coeff(6) - 0.303_921_704_187_342_0).abs() < 1e-15);
    assert!((coeff(0) + 0.002_077_586_698_498_6).abs() < 1e-15);
}

#[test]
fn oversampling_multipliers() {
    assert_eq!(OversamplingFactor::X1.multiplier(), 1);
    assert_eq!(OversamplingFactor::X2.multiplier(), 2);
    assert_eq!(OversamplingFactor::X4.multiplier(), 4);
    assert_eq!(OversamplingFactor::default(), OversamplingFactor::X1);
}

#[test]
fn delay_line_taps_recent_history() {
    let mut d: DelayLine<i32> = DelayLine::new(4, 0);
    assert_eq!(d.len(), 4);
    for k in 0..4 {
        assert_eq!(d.tap(k), 0);
    }
    for x in 1..=6 {
        d.push(x);
    }
    // Most recent first: 6, 5, 4, 3.
    assert_eq!(d.tap(0), 6);
    assert_eq!(d.tap(1), 5);
    assert_eq!(d.tap(2), 4);
    assert_eq!(d.tap(3), 3);
}

#[test]
fn delay_line_fill_resets() {
    let mut d: DelayLine<u8> = DelayLine::new(3, 7);
    d.push(1);
    d.push(2);
    d.fill(9);
    for k in 0..3 {
        assert_eq!(d.tap(k), 9);
    }
    d.push(4);
    assert_eq!(d.tap(0), 4);
    assert_eq!(d.tap(2), 9);
}

#[test]
fn delay_line_fir_dc_response() {
    // A constant input through the FIR settles to the sum of the taps.
    let mut d: DelayLine<f64> = DelayLine::new(FIR_TAPS, 0.0);
    let mut out = 0.0;
    for _ in 0..40 {
        d.push(0.5);
        out = (0..FIR_TAPS).map(|k| d.tap(k) * coeff(k)).sum();
    }
    assert!((out - 0.5).abs() < 1e-9);
}
