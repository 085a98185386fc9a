use ivylace::control::{
    ab_button_press, band_outputs, clamp_step_index, knee_width_db, peak_hold_step,
    release_step_is_auto, tick_period, trim_button_press, AbPress, SaturationType, Slot, TrimPress,
    ATTACK_STEPS, GR_METER_UPDATE_INTERVAL, RATIO_STEPS, RELEASE_STEPS,
};

#[test]
fn saturation_default_is_console() {
    assert_eq!(SaturationType::default(), SaturationType::Console);
}

#[test]
fn step_indices_are_clamped() {
    assert_eq!(clamp_step_index(4, ATTACK_STEPS), 4);
    assert_eq!(clamp_step_index(9, ATTACK_STEPS), 5);
    assert_eq!(clamp_step_index(u32::MAX, RELEASE_STEPS), 4);
    assert_eq!(clamp_step_index(1, RATIO_STEPS), 1);
    assert!(release_step_is_auto(4));
    assert!(!release_step_is_auto(3));
}

#[test]
fn solo_routing() {
    assert_eq!(band_outputs([false; 4]), [true; 4]);
    assert_eq!(band_outputs([false, true, false, false]), [false, true, false, false]);
    assert_eq!(band_outputs([true, false, false, true]), [true, false, false, true]);
}

#[test]
fn meter_updates_every_64_samples() {
    let mut counter = 0u64;
    let mut fired_at = Vec::new();
    for s in 1..=200u64 {
        let (next, fired) = tick_period(counter, GR_METER_UPDATE_INTERVAL);
        counter = next;
        if fired {
            fired_at.push(s);
        }
    }
    assert_eq!(fired_at, vec![64, 128, 192]);
}

#[test]
fn trim_button_decisions() {
    assert_eq!(trim_button_press(true, true), TrimPress::CancelMeasurement);
    assert_eq!(trim_button_press(true, false), TrimPress::CancelMeasurement);
    assert_eq!(trim_button_press(false, true), TrimPress::Disable);
    assert_eq!(trim_button_press(false, false), TrimPress::StartMeasurement);
}

#[test]
fn ab_button_decisions() {
    assert_eq!(ab_button_press(false), AbPress { save: Slot::A, resync_a: false, now_b: true });
    assert_eq!(ab_button_press(true), AbPress { save: Slot::B, resync_a: true, now_b: false });
}

#[test]
fn peak_hold_decisions() {
    assert_eq!(peak_hold_step(0, 500, true), (500, false));
    assert_eq!(peak_hold_step(10, 500, false), (9, false));
    assert_eq!(peak_hold_step(0, 500, false), (0, true));
}

#[test]
fn knee_widths() {
    assert_eq!(knee_width_db(2), 6);
    assert_eq!(knee_width_db(4), 4);
    assert_eq!(knee_width_db(10), 2);
}

#[test]
fn ab_two_presses_restore_the_slot() {
    for start in [false, true] {
        let first = ab_button_press(start);
        let second = ab_button_press(first.now_b);
        assert_eq!(second.now_b, start);
        assert_ne!(first.save, second.save);
    }
}
