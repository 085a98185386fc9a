use ivylace::auto::{
    auto_attack_index, auto_button_press, auto_release_index, bpm_down, bpm_up, clamp_bpm,
    flags_active, flags_for_phase, parse_digits, phase_from_flags, AutoOverlayModel, AutoPhase,
    ClickTarget, OverlayCommand, OverlayInput, PollCommand, ScrollDirection, BPM_DEFAULT,
};
use ivylace::shared::SharedAutoPhase;

const PHASES: [AutoPhase; 4] = [
    AutoPhase::Idle,
    AutoPhase::BpmInput,
    AutoPhase::MeasuringGR,
    AutoPhase::Done,
];

#[test]
fn phase_flags_roundtrip() {
    for p in PHASES {
        let (b, m, d) = flags_for_phase(p);
        assert_eq!(phase_from_flags(b, m, d), p);
        assert_eq!(flags_active(b, m, d), p != AutoPhase::Idle);
    }
    // done wins over measuring, which wins over BPM entry
    assert_eq!(phase_from_flags(true, true, true), AutoPhase::Done);
    assert_eq!(phase_from_flags(true, true, false), AutoPhase::MeasuringGR);
}

#[test]
fn shared_phase_store_then_load() {
    let s = SharedAutoPhase::new();
    assert_eq!(s.load(), AutoPhase::Idle);
    assert!(!s.is_active());
    for p in PHASES {
        s.store(p);
        assert_eq!(s.load(), p);
        assert_eq!(s.is_active(), p != AutoPhase::Idle);
    }
}

#[test]
fn auto_button_opens_bpm_input_only_when_idle() {
    assert_eq!(auto_button_press(AutoPhase::Idle), AutoPhase::BpmInput);
    assert_eq!(auto_button_press(AutoPhase::MeasuringGR), AutoPhase::MeasuringGR);
    assert_eq!(auto_button_press(AutoPhase::Done), AutoPhase::Done);
}

#[test]
fn bpm_steps_and_clamp() {
    assert_eq!(bpm_up(128), 129);
    assert_eq!(bpm_up(300), 300);
    assert_eq!(bpm_up(4000), 300);
    assert_eq!(bpm_down(128), 127);
    assert_eq!(bpm_down(60), 60);
    assert_eq!(bpm_down(0), 60);
    assert_eq!(clamp_bpm(5), 60);
    assert_eq!(clamp_bpm(999), 300);
    assert_eq!(clamp_bpm(174), 174);
}

#[test]
fn parse_digits_values() {
    assert_eq!(parse_digits(&vec![]), None);
    assert_eq!(parse_digits(&"140".chars().collect()), Some(140));
    assert_eq!(parse_digits(&"007".chars().collect()), Some(7));
    assert_eq!(parse_digits(&"4294967295".chars().collect()), Some(u32::MAX));
    assert_eq!(parse_digits(&"4294967296".chars().collect()), None);
    assert_eq!(parse_digits(&"99999999999999".chars().collect()), None);
}

#[test]
fn auto_attack_steps() {
    let got: Vec<u32> = (0..4).map(auto_attack_index).collect();
    assert_eq!(got, vec![5, 4, 3, 2]);
}

#[test]
fn auto_release_steps() {
    let rel = |bpm: u32| -> Vec<usize> { (0..4).map(|b| auto_release_index(bpm, b)).collect() };
    assert_eq!(rel(60), vec![3, 3, 2, 1]);
    assert_eq!(rel(128), vec![3, 2, 1, 0]);
    assert_eq!(rel(140), vec![2, 1, 1, 0]);
    // exact tie at 150 BPM (target 200 ms, halfway between 100 and 300): the shorter wins
    assert_eq!(rel(150), vec![2, 1, 0, 0]);
    assert_eq!(rel(160), vec![2, 1, 0, 0]);
    assert_eq!(rel(161), vec![4, 4, 0, 0]);
    assert_eq!(rel(300), vec![4, 4, 0, 0]);
}

fn type_text(m: &mut AutoOverlayModel, text: &str) {
    for c in text.chars() {
        m.handle(AutoPhase::BpmInput, OverlayInput::Char(c));
    }
}

#[test]
fn overlay_typed_bpm_is_clamped() {
    let mut m = AutoOverlayModel::new();
    assert_eq!(m.bpm(), BPM_DEFAULT);
    type_text(&mut m, "140");
    assert!(m.is_editing());
    assert_eq!(m.edit_buffer(), &vec!['1', '4', '0']);
    let out = m.handle(AutoPhase::BpmInput, OverlayInput::Enter);
    assert!(out.consumed);
    assert_eq!(m.bpm(), 140);
    assert!(!m.is_editing());
    type_text(&mut m, "999");
    m.handle(AutoPhase::BpmInput, OverlayInput::Enter);
    assert_eq!(m.bpm(), 300);
    type_text(&mut m, "5");
    m.handle(AutoPhase::BpmInput, OverlayInput::Enter);
    assert_eq!(m.bpm(), 60);
    // an overflowing number leaves the BPM unchanged
    type_text(&mut m, "99999999999");
    m.handle(AutoPhase::BpmInput, OverlayInput::Enter);
    assert_eq!(m.bpm(), 60);
}

#[test]
fn overlay_ignores_non_digits_and_idle() {
    let mut m = AutoOverlayModel::new();
    let out = m.handle(AutoPhase::BpmInput, OverlayInput::Char('x'));
    assert!(!out.consumed);
    assert!(!m.is_editing());
    let out = m.handle(AutoPhase::Idle, OverlayInput::Char('1'));
    assert!(!out.consumed);
    assert_eq!(out.phase, AutoPhase::Idle);
    assert!(!m.is_editing());
}

#[test]
fn overlay_backspace_and_escape() {
    let mut m = AutoOverlayModel::new();
    type_text(&mut m, "12");
    m.handle(AutoPhase::BpmInput, OverlayInput::Backspace);
    assert_eq!(m.edit_buffer(), &vec!['1']);
    m.handle(AutoPhase::BpmInput, OverlayInput::Backspace);
    assert!(!m.is_editing());
    type_text(&mut m, "9");
    let out = m.handle(AutoPhase::BpmInput, OverlayInput::Escape);
    assert_eq!(out.command, OverlayCommand::Nothing);
    assert_eq!(out.phase, AutoPhase::BpmInput);
    assert!(!m.is_editing());
    assert_eq!(m.bpm(), BPM_DEFAULT);
    let out = m.handle(AutoPhase::BpmInput, OverlayInput::Escape);
    assert_eq!(out.command, OverlayCommand::Cancel);
    assert_eq!(out.phase, AutoPhase::Idle);
}

#[test]
fn overlay_arrows_scroll_and_set() {
    let mut m = AutoOverlayModel::new();
    m.handle(AutoPhase::BpmInput, OverlayInput::Click(ClickTarget::LeftArrow));
    assert_eq!(m.bpm(), 127);
    m.handle(AutoPhase::BpmInput, OverlayInput::Click(ClickTarget::RightArrow));
    m.handle(AutoPhase::BpmInput, OverlayInput::Scroll(ScrollDirection::Up));
    assert_eq!(m.bpm(), 129);
    m.handle(AutoPhase::BpmInput, OverlayInput::Scroll(ScrollDirection::Down));
    m.handle(AutoPhase::BpmInput, OverlayInput::Scroll(ScrollDirection::Flat));
    assert_eq!(m.bpm(), 128);
    // typed text is committed before the click is handled
    type_text(&mut m, "174");
    let out = m.handle(AutoPhase::BpmInput, OverlayInput::Click(ClickTarget::SetButton));
    assert_eq!(out.command, OverlayCommand::StartAuto(174));
    assert_eq!(out.phase, AutoPhase::MeasuringGR);
    assert_eq!(m.set_bpm(), 174);
    assert_eq!(m.local_iteration(), 0);
}

#[test]
fn overlay_click_cancels_measurement() {
    let mut m = AutoOverlayModel::new();
    let out = m.handle(AutoPhase::MeasuringGR, OverlayInput::Click(ClickTarget::SetButton));
    assert_eq!(out.command, OverlayCommand::Cancel);
    assert_eq!(out.phase, AutoPhase::Idle);
    let out = m.handle(AutoPhase::BpmInput, OverlayInput::Click(ClickTarget::Elsewhere));
    assert_eq!(out.command, OverlayCommand::Cancel);
    let out = m.handle(AutoPhase::Done, OverlayInput::Click(ClickTarget::Elsewhere));
    assert_eq!(out.command, OverlayCommand::Nothing);
    assert_eq!(out.phase, AutoPhase::Done);
    assert!(out.consumed);
}

#[test]
fn overlay_convergence_stops_after_three_rounds() {
    let mut m = AutoOverlayModel::new();
    m.handle(AutoPhase::BpmInput, OverlayInput::Click(ClickTarget::SetButton));
    let mut phase = AutoPhase::MeasuringGR;
    // nothing ready yet
    let out = m.poll(phase, false, false, false);
    assert_eq!(out.command, PollCommand::Nothing);
    let mut rounds = 0;
    loop {
        let out = m.poll(phase, true, false, false);
        rounds += 1;
        phase = out.phase;
        if out.command == PollCommand::NotifyAndFinish {
            break;
        }
        assert_eq!(out.command, PollCommand::NotifyAndRemeasure);
    }
    assert_eq!(rounds, 3);
    assert_eq!(phase, AutoPhase::Done);
    assert_eq!(m.local_iteration(), 3);
    // even a stale measuring phase never counts a fourth round
    assert_eq!(m.poll(AutoPhase::MeasuringGR, true, false, false).command, PollCommand::Nothing);
    assert_eq!(m.local_iteration(), 3);
    // thresholds of the last round were reported: no second report
    assert_eq!(m.poll(phase, true, false, false).command, PollCommand::Nothing);
    let out = m.poll(phase, false, false, true);
    assert_eq!(out.command, PollCommand::ReturnToIdle);
    assert_eq!(out.phase, AutoPhase::Idle);
    assert_eq!(m.local_iteration(), 0);
}

#[test]
fn overlay_converged_finishes_early() {
    let mut m = AutoOverlayModel::new();
    m.handle(AutoPhase::BpmInput, OverlayInput::Click(ClickTarget::SetButton));
    let out = m.poll(AutoPhase::MeasuringGR, true, true, false);
    assert_eq!(out.command, PollCommand::NotifyAndFinish);
    assert_eq!(out.phase, AutoPhase::Done);
    assert_eq!(m.local_iteration(), 1);
}
