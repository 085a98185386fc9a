use ivylace::knob::{linked_bands, KnobCommand, KnobGestureModel, KnobInput, KnobSize};

#[test]
fn knob_sizes() {
    assert_eq!((KnobSize::Sm.outer(), KnobSize::Sm.inner(), KnobSize::Sm.indicator_len()), (36, 28, 10));
    assert_eq!((KnobSize::Md.outer(), KnobSize::Md.inner(), KnobSize::Md.indicator_len()), (48, 38, 14));
    assert_eq!((KnobSize::Lg.outer(), KnobSize::Lg.inner(), KnobSize::Lg.indicator_len()), (68, 56, 20));
}

#[test]
fn linked_knob_bands() {
    assert_eq!(linked_bands([true, false, true, true], 0), vec![2, 3]);
    assert_eq!(linked_bands([true, false, true, true], 1), Vec::<usize>::new());
    assert_eq!(linked_bands([true, true, true, true], 2), vec![0, 1, 3]);
    assert_eq!(linked_bands([false, false, true, false], 2), Vec::<usize>::new());
}

#[test]
fn knob_drag_and_release() {
    let mut k = KnobGestureModel::new();
    let out = k.handle(KnobInput::Press { reset: false });
    assert_eq!((out.command, out.consumed), (KnobCommand::BeginDrag, true));
    assert!(k.is_dragging());
    assert_eq!(k.handle(KnobInput::Move).command, KnobCommand::DragMove);
    assert_eq!(k.handle(KnobInput::ShiftUp).command, KnobCommand::RebaseGranular);
    assert_eq!(k.handle(KnobInput::Scroll).command, KnobCommand::ScrollStep { in_gesture: true });
    let out = k.handle(KnobInput::Release);
    assert_eq!((out.command, out.consumed), (KnobCommand::EndDrag, true));
    assert!(!k.is_dragging());
    assert_eq!(k.handle(KnobInput::Move).command, KnobCommand::Nothing);
    assert_eq!(k.handle(KnobInput::Scroll).command, KnobCommand::ScrollStep { in_gesture: false });
    assert_eq!(k.handle(KnobInput::Release).command, KnobCommand::Nothing);
}

#[test]
fn knob_reset_gesture() {
    let mut k = KnobGestureModel::new();
    assert_eq!(k.handle(KnobInput::Press { reset: true }).command, KnobCommand::BeginReset);
    assert!(!k.is_dragging());
    assert_eq!(k.handle(KnobInput::Release).command, KnobCommand::EndReset);
    assert_eq!(k.handle(KnobInput::Release).command, KnobCommand::Nothing);
}

#[test]
fn knob_double_click_resets_to_default() {
    let mut k = KnobGestureModel::new();
    // the double click follows the press that opened a drag
    k.handle(KnobInput::Press { reset: false });
    let out = k.handle(KnobInput::DoubleClick);
    assert_eq!((out.command, out.consumed), (KnobCommand::ResetToDefault { end_drag: true, end_reset: false }, true));
    assert!(!k.is_dragging());
    // the release that follows ends nothing
    assert_eq!(k.handle(KnobInput::Release).command, KnobCommand::Nothing);
    // after an Alt-click the reset gesture is ended first
    k.handle(KnobInput::Press { reset: true });
    let out = k.handle(KnobInput::DoubleClick);
    assert_eq!(out.command, KnobCommand::ResetToDefault { end_drag: false, end_reset: true });
    // with nothing open, the reset stands alone
    let out = k.handle(KnobInput::DoubleClick);
    assert_eq!(out.command, KnobCommand::ResetToDefault { end_drag: false, end_reset: false });
    assert_eq!(k.handle(KnobInput::Other), ivylace::knob::KnobOutcome { command: KnobCommand::Nothing, consumed: false });
}
