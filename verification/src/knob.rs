//! Geometry, band linking and gesture rules of the rotary knob widget.

use vstd::prelude::*;

use crate::auto::NUM_BANDS;

verus! {

/// Knob sizes.
#[derive(Clone, Copy, PartialEq, Eq, Debug, Structural)]
pub enum KnobSize {
    Sm,
    Md,
    Lg,
}

impl KnobSize {
    /// Outer diameter in logical pixels (36, 48, 68).
    pub fn outer(self) -> (px: u32)
        ensures
            px == (match self {
                KnobSize::Sm => 36u32,
                KnobSize::Md => 48u32,
                KnobSize::Lg => 68u32,
            }),
    {
        match self {
            KnobSize::Sm => 36,
            KnobSize::Md => 48,
            KnobSize::Lg => 68,
        }
    }

    /// Diameter of the knob body in logical pixels (28, 38, 56).
    pub fn inner(self) -> (px: u32)
        ensures
            px == (match self {
                KnobSize::Sm => 28u32,
                KnobSize::Md => 38u32,
                KnobSize::Lg => 56u32,
            }),
    {
        match self {
            KnobSize::Sm => 28,
            KnobSize::Md => 38,
            KnobSize::Lg => 56,
        }
    }

    /// Length of the value indicator line in logical pixels (10, 14, 20).
    pub fn indicator_len(self) -> (px: u32)
        ensures
            px == (match self {
                KnobSize::Sm => 10u32,
                KnobSize::Md => 14u32,
                KnobSize::Lg => 20u32,
            }),
    {
        match self {
            KnobSize::Sm => 10,
            KnobSize::Md => 14,
            KnobSize::Lg => 20,
        }
    }
}

/// Every knob size nests: the body fits inside the outer ring and the
/// indicator fits inside the body's radius.
pub proof fn lemma_knob_sizes_nest(s: KnobSize)
    ensures
        ({
            let (o, i, l) = match s {
                KnobSize::Sm => (36int, 28int, 10int),
                KnobSize::Md => (48int, 38int, 14int),
                KnobSize::Lg => (68int, 56int, 20int),
            };
            l < i / 2 && i < o
        }),
{
}

/// The bands below `n`, other than `me`, whose link switch is on, in
/// increasing order.
pub open spec fn linked_below(link: [bool; NUM_BANDS], me: int, n: int) -> Seq<usize>
    decreases n,
{
    if n <= 0 {
        Seq::empty()
    } else if n - 1 != me && link@[n - 1] {
        linked_below(link, me, n - 1).push((n - 1) as usize)
    } else {
        linked_below(link, me, n - 1)
    }
}

/// The bands that follow a drag of band `me`'s threshold knob: when `me` is
/// linked, every other linked band, in increasing order; otherwise none.
pub fn linked_bands(link: [bool; NUM_BANDS], me: usize) -> (bands: Vec<usize>)
    requires
        me < NUM_BANDS,
    ensures
        !link@[me as int] ==> bands@.len() == 0,
        link@[me as int] ==> bands@ == linked_below(link, me as int, NUM_BANDS as int),
{
    let mut bands: Vec<usize> = Vec::new();
    if !link[me] {
        return bands;
    }
    let mut i: usize = 0;
    while i < NUM_BANDS
        invariant
            i <= NUM_BANDS,
            me < NUM_BANDS,
            bands@ == linked_below(link, me as int, i as int),
        decreases NUM_BANDS - i,
    {
        if i != me && link[i] {
            bands.push(i);
        }
        i = i + 1;
    }
    bands
}

// ── Gestures ──────────────────────────────────────────────────

/// What the user did on a knob.
#[derive(Clone, Copy, PartialEq, Eq, Debug, Structural)]
pub enum KnobInput {
    /// A left mouse press; `reset` when Alt or Cmd is held (reset to default).
    Press { reset: bool },
    /// A left double click.
    DoubleClick,
    /// The left button was released.
    Release,
    /// The mouse moved.
    Move,
    /// Shift was released.
    ShiftUp,
    /// A scroll step.
    Scroll,
    /// Any other window event.
    Other,
}

/// What the widget has to do after a knob event.
#[derive(Clone, Copy, PartialEq, Eq, Debug, Structural)]
pub enum KnobCommand {
    Nothing,
    /// Begin a reset-to-default gesture (the parameter and its linked bands
    /// jump to the default); capture the mouse.
    BeginReset,
    /// Begin a drag gesture (and the linked bands' gestures); capture the
    /// mouse.
    BeginDrag,
    /// End the running drag and/or reset gestures as flagged (releasing the
    /// mouse), then reset the parameter to its default in a gesture of its
    /// own: begin, set the default (linked bands follow), end.
    ResetToDefault { end_drag: bool, end_reset: bool },
    /// End the drag gesture; release the mouse.
    EndDrag,
    /// End the reset gesture; release the mouse.
    EndReset,
    /// Follow the mouse with the dragged value.
    DragMove,
    /// Restart fine dragging from the current position.
    RebaseGranular,
    /// Step the value by one scroll notch; a gesture is opened and closed
    /// around the step unless a drag is running (`in_gesture`).
    ScrollStep { in_gesture: bool },
}

/// Abstract state of a knob's interaction: which host gestures are open.
pub struct KnobView {
    /// A drag gesture is open.
    pub drag_active: bool,
    /// An Alt/Cmd-click reset gesture is open.
    pub reset_active: bool,
}

/// One knob event: the next state, the command and whether the event is
/// consumed.
pub open spec fn spec_knob_step(v: KnobView, input: KnobInput) -> (KnobView, KnobCommand, bool) {
    match input {
        KnobInput::Press { reset } => if reset {
            (KnobView { reset_active: true, ..v }, KnobCommand::BeginReset, true)
        } else {
            (KnobView { drag_active: true, ..v }, KnobCommand::BeginDrag, true)
        },
        KnobInput::DoubleClick => (
            KnobView { drag_active: false, reset_active: false },
            KnobCommand::ResetToDefault { end_drag: v.drag_active, end_reset: v.reset_active },
            true,
        ),
        KnobInput::Release => if v.drag_active {
            (KnobView { drag_active: false, ..v }, KnobCommand::EndDrag, true)
        } else if v.reset_active {
            (KnobView { reset_active: false, ..v }, KnobCommand::EndReset, true)
        } else {
            (v, KnobCommand::Nothing, false)
        },
        KnobInput::Move => if v.drag_active {
            (v, KnobCommand::DragMove, false)
        } else {
            (v, KnobCommand::Nothing, false)
        },
        KnobInput::ShiftUp => if v.drag_active {
            (v, KnobCommand::RebaseGranular, false)
        } else {
            (v, KnobCommand::Nothing, false)
        },
        KnobInput::Scroll => (v, KnobCommand::ScrollStep { in_gesture: v.drag_active }, true),
        KnobInput::Other => (v, KnobCommand::Nothing, false),
    }
}

/// Result of a knob event.
#[derive(Clone, Copy, PartialEq, Eq, Debug, Structural)]
pub struct KnobOutcome {
    pub command: KnobCommand,
    /// Whether the event is consumed.
    pub consumed: bool,
}

/// Interaction state of a knob: the host gestures that are open.
pub struct KnobGestureModel {
    drag_active: bool,
    reset_active: bool,
}

impl View for KnobGestureModel {
    type V = KnobView;

    closed spec fn view(&self) -> KnobView {
        KnobView { drag_active: self.drag_active, reset_active: self.reset_active }
    }
}

impl KnobGestureModel {
    /// No gesture open.
    pub fn new() -> (m: Self)
        ensures
            !m@.drag_active,
            !m@.reset_active,
    {
        KnobGestureModel { drag_active: false, reset_active: false }
    }

    /// Whether a drag gesture is open.
    pub fn is_dragging(&self) -> (d: bool)
        ensures
            d == self@.drag_active,
    {
        self.drag_active
    }

    /// Handles one knob event (see `spec_knob_step`).
    pub fn handle(&mut self, input: KnobInput) -> (out: KnobOutcome)
        ensures
            (final(self)@, out.command, out.consumed) == spec_knob_step(old(self)@, input),
    {
        match input {
            KnobInput::Press { reset } => {
                if reset {
                    self.reset_active = true;
                    KnobOutcome { command: KnobCommand::BeginReset, consumed: true }
                } else {
                    self.drag_active = true;
                    KnobOutcome { command: KnobCommand::BeginDrag, consumed: true }
                }
            },
            KnobInput::DoubleClick => {
                let command = KnobCommand::ResetToDefault {
                    end_drag: self.drag_active,
                    end_reset: self.reset_active,
                };
                self.drag_active = false;
                self.reset_active = false;
                KnobOutcome { command, consumed: true }
            },
            KnobInput::Release => {
                if self.drag_active {
                    self.drag_active = false;
                    KnobOutcome { command: KnobCommand::EndDrag, consumed: true }
                } else if self.reset_active {
                    self.reset_active = false;
                    KnobOutcome { command: KnobCommand::EndReset, consumed: true }
                } else {
                    KnobOutcome { command: KnobCommand::Nothing, consumed: false }
                }
            },
            KnobInput::Move => {
                let command = if self.drag_active { KnobCommand::DragMove } else { KnobCommand::Nothing };
                KnobOutcome { command, consumed: false }
            },
            KnobInput::ShiftUp => {
                let command = if self.drag_active {
                    KnobCommand::RebaseGranular
                } else {
                    KnobCommand::Nothing
                };
                KnobOutcome { command, consumed: false }
            },
            KnobInput::Scroll => KnobOutcome {
                command: KnobCommand::ScrollStep { in_gesture: self.drag_active },
                consumed: true,
            },
            KnobInput::Other => KnobOutcome { command: KnobCommand::Nothing, consumed: false },
        }
    }
}

/// Host gestures stay balanced: a drag gesture opens only with `BeginDrag`
/// and closes only with `EndDrag` or a double-click reset (flagged
/// `end_drag`); the same holds for Alt/Cmd-click reset gestures.
pub proof fn lemma_gestures_balanced(v: KnobView, input: KnobInput)
    ensures
        ({
            let (w, cmd, _) = spec_knob_step(v, input);
            &&& (!v.drag_active && w.drag_active) ==> cmd == KnobCommand::BeginDrag
            &&& (v.drag_active && !w.drag_active) ==> (cmd == KnobCommand::EndDrag || cmd
                == KnobCommand::ResetToDefault { end_drag: true, end_reset: v.reset_active })
            &&& (!v.reset_active && w.reset_active) ==> cmd == KnobCommand::BeginReset
            &&& (v.reset_active && !w.reset_active) ==> (cmd == KnobCommand::EndReset || cmd
                == KnobCommand::ResetToDefault { end_drag: v.drag_active, end_reset: true })
        }),
{
}

/// A double click resets the knob to its default, whatever gestures were
/// open, and leaves no gesture open.
pub proof fn lemma_double_click_resets(v: KnobView)
    ensures
        ({
            let (w, cmd, consumed) = spec_knob_step(v, KnobInput::DoubleClick);
            &&& cmd is ResetToDefault
            &&& !w.drag_active && !w.reset_active
            &&& consumed
        }),
{
}

} // verus!
