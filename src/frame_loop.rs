use vstd::prelude::*;

verus! {

/// Fewest emulated cycles between two keyboard events handed to the core.
pub const KEYBOARD_EVENT_INTERVAL: u64 = 20000;

/// Where the frame loop stands within one iteration.
#[derive(Clone, Copy, Debug, PartialEq, Eq, Structural)]
pub enum Phase {
    /// The core is producing a machine frame.
    Producing,
    /// The frame is being drawn.
    Rendering,
    /// The core's end-of-frame flag is being cleared.
    ResettingVsync,
    /// Waiting for the display's vertical sync.
    Pacing,
    /// The core reported a fault; the loop has ended.
    Faulted,
}

/// What the platform reports after carrying out the last action.
#[derive(Clone, Copy, Debug, PartialEq, Eq, Structural)]
pub enum LoopEvent {
    /// The core finished a frame; `faulted` with the program counter `pc`
    /// when it reported a fault.
    FrameDone { faulted: bool, pc: u16 },
    /// The frame was drawn.
    Rendered,
    /// The end-of-frame flag is clear; the core's keyboard queue state and
    /// cycle counter at that moment.
    VsyncReset { has_events: bool, cycles: u64 },
    /// Vertical sync arrived.
    Vblank,
}

/// What the platform is to do next.
#[derive(Clone, Copy, Debug, PartialEq, Eq, Structural)]
pub enum LoopAction {
    /// Run the core for one frame.
    RunFrame,
    /// End the process, naming the faulting program counter.
    Abort { pc: u16 },
    /// Draw the current frame.
    Render,
    /// Clear the core's end-of-frame flag.
    ResetVsync,
    /// Hand one queued keyboard event to the core, then wait for vertical sync.
    DrainThenWait,
    /// Wait for vertical sync.
    Wait,
}

/// The loop's state: its phase and the cycle count before which no further
/// keyboard event is drained. The deadline is wider than the cycle counter,
/// so adding the interval never wraps.
#[derive(Clone, Copy, Debug, PartialEq, Eq, Structural)]
pub struct FrameLoop {
    pub phase: Phase,
    pub next_keyboard_event: u128,
}

/// Whether an event is the report that the phase waits for.
pub open spec fn accepts_spec(s: FrameLoop, e: LoopEvent) -> bool {
    match s.phase {
        Phase::Producing => e is FrameDone,
        Phase::Rendering => e is Rendered,
        Phase::ResettingVsync => e is VsyncReset,
        Phase::Pacing => e is Vblank,
        Phase::Faulted => false,
    }
}

/// Whether a keyboard event is due.
pub open spec fn drain_due(next: u128, has_events: bool, cycles: u64) -> bool {
    has_events && cycles as u128 >= next
}

/// The loop's next state and action on an accepted event.
pub open spec fn transition(s: FrameLoop, e: LoopEvent) -> (FrameLoop, LoopAction) {
    match e {
        LoopEvent::FrameDone { faulted, pc } =>
            if faulted {
                (FrameLoop { phase: Phase::Faulted, ..s }, LoopAction::Abort { pc })
            } else {
                (FrameLoop { phase: Phase::Rendering, ..s }, LoopAction::Render)
            },
        LoopEvent::Rendered => (FrameLoop { phase: Phase::ResettingVsync, ..s }, LoopAction::ResetVsync),
        LoopEvent::VsyncReset { has_events, cycles } =>
            if drain_due(s.next_keyboard_event, has_events, cycles) {
                (
                    FrameLoop {
                        phase: Phase::Pacing,
                        next_keyboard_event: (cycles + KEYBOARD_EVENT_INTERVAL) as u128,
                    },
                    LoopAction::DrainThenWait,
                )
            } else {
                (FrameLoop { phase: Phase::Pacing, ..s }, LoopAction::Wait)
            },
        LoopEvent::Vblank => (FrameLoop { phase: Phase::Producing, ..s }, LoopAction::RunFrame),
    }
}

impl FrameLoop {
    /// A loop about to run its first frame, with a keyboard event due at once.
    pub fn new() -> (r: FrameLoop)
        ensures
            r.phase == Phase::Producing,
            r.next_keyboard_event == 0,
    {
        FrameLoop { phase: Phase::Producing, next_keyboard_event: 0 }
    }

    /// Whether `event` is the report the loop is waiting for.
    pub fn accepts(&self, event: LoopEvent) -> (r: bool)
        ensures
            r == accepts_spec(*self, event),
    {
        match self.phase {
            Phase::Producing => matches!(event, LoopEvent::FrameDone { .. }),
            Phase::Rendering => matches!(event, LoopEvent::Rendered),
            Phase::ResettingVsync => matches!(event, LoopEvent::VsyncReset { .. }),
            Phase::Pacing => matches!(event, LoopEvent::Vblank),
            Phase::Faulted => false,
        }
    }

    /// Takes the report of the last action and decides the next one.
    pub fn step(&mut self, event: LoopEvent) -> (r: LoopAction)
        requires
            accepts_spec(*old(self), event),
        ensures
            (*final(self), r) == transition(*old(self), event),
    {
        match event {
            LoopEvent::FrameDone { faulted, pc } => {
                if faulted {
                    self.phase = Phase::Faulted;
                    LoopAction::Abort { pc }
                } else {
                    self.phase = Phase::Rendering;
                    LoopAction::Render
                }
            },
            LoopEvent::Rendered => {
                self.phase = Phase::ResettingVsync;
                LoopAction::ResetVsync
            },
            LoopEvent::VsyncReset { has_events, cycles } => {
                self.phase = Phase::Pacing;
                if has_events && cycles as u128 >= self.next_keyboard_event {
                    self.next_keyboard_event = cycles as u128 + KEYBOARD_EVENT_INTERVAL as u128;
                    LoopAction::DrainThenWait
                } else {
                    LoopAction::Wait
                }
            },
            LoopEvent::Vblank => {
                self.phase = Phase::Producing;
                LoopAction::RunFrame
            },
        }
    }
}

/// A fault reported with a frame ends the loop at once: the answer is to
/// abort with the fault's program counter, the frame is not rendered, and the
/// faulted loop accepts no further event, so nothing is rendered after it.
pub proof fn lemma_fault_aborts_before_render(s: FrameLoop, pc: u16, e: LoopEvent)
    requires
        s.phase == Phase::Producing,
    ensures
        transition(s, LoopEvent::FrameDone { faulted: true, pc }).1 == (LoopAction::Abort { pc }),
        transition(s, LoopEvent::FrameDone { faulted: true, pc }).0.phase == Phase::Faulted,
        !accepts_spec(transition(s, LoopEvent::FrameDone { faulted: true, pc }).0, e),
{
}

/// Only a frame reported without a fault is rendered.
pub proof fn lemma_render_only_after_clean_frame(s: FrameLoop, e: LoopEvent)
    requires
        accepts_spec(s, e),
        transition(s, e).1 == LoopAction::Render,
    ensures
        e == (LoopEvent::FrameDone { faulted: false, pc: e->FrameDone_pc }),
        s.phase == Phase::Producing,
{
}

/// The deadline for the next keyboard event moves only when an event is
/// drained.
pub proof fn lemma_deadline_moves_only_on_drain(s: FrameLoop, e: LoopEvent)
    requires
        accepts_spec(s, e),
        transition(s, e).1 != LoopAction::DrainThenWait,
    ensures
        transition(s, e).0.next_keyboard_event == s.next_keyboard_event,
{
}

/// After an event is drained at cycle count `c1`, no event is drained at a
/// count `c2` fewer than the interval later, however long events stay
/// queued, as long as nothing was drained in between (the deadline is then
/// unchanged, see above).
pub proof fn lemma_drain_throttled(s: FrameLoop, c1: u64, t: FrameLoop, has_events: bool, c2: u64)
    requires
        s.phase == Phase::ResettingVsync,
        transition(s, LoopEvent::VsyncReset { has_events: true, cycles: c1 }).1 == LoopAction::DrainThenWait,
        t.phase == Phase::ResettingVsync,
        t.next_keyboard_event == transition(s, LoopEvent::VsyncReset { has_events: true, cycles: c1 }).0.next_keyboard_event,
        c2 < c1 + KEYBOARD_EVENT_INTERVAL,
    ensures
        transition(t, LoopEvent::VsyncReset { has_events, cycles: c2 }).1 == LoopAction::Wait,
{
}

} // verus!
