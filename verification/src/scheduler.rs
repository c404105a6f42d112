use vstd::prelude::*;

verus! {

/// The fixed target duration between draws: one sixtieth of a second, held
/// as a duration constant (in nanoseconds) rather than a derived rate, to
/// avoid rounding drift.
pub const FRAME_INTERVAL_NANOS: u64 = 16666666;

/// Where the frame pacer stands.
#[derive(Clone, Copy, Debug, PartialEq, Eq, Structural)]
pub enum SchedulerState {
    /// No frame has been presented yet; the window is still hidden.
    AwaitingFirstDraw,
    /// Frames are flowing; the last draw finished at this instant
    /// (nanoseconds of a monotone clock).
    Steady { last_draw_nanos: u64 },
    /// Shutdown was requested; no further draws are dispatched.
    Exited,
}

/// What woke the scheduler up this tick.
#[derive(Clone, Copy, Debug, PartialEq, Eq, Structural)]
pub enum SchedulerEvent {
    /// Any ordinary event or timer wake-up.
    Tick,
    /// The host demands an immediate repaint (e.g. after a resize); this
    /// bypasses throttling.
    RedrawRequested,
    /// The host asked the program to shut down.
    CloseRequested,
}

/// What the caller must do after a tick.
#[derive(Clone, Copy, Debug, PartialEq, Eq, Structural)]
pub enum SchedulerAction {
    /// Render and present a frame; `first_draw` additionally reveals the
    /// window (the first visible paint).
    Draw { first_draw: bool },
    /// Do not draw; ask the host to wake us at this deadline (nanoseconds)
    /// or at the next event, whichever comes first.
    WaitUntil { deadline_nanos: u64 },
    /// Stop the event loop; no draw and no further wake-ups.
    Exit,
}

/// The state after a tick: closing is terminal, a redraw or a due tick
/// re-arms the pacer at `now`, and an early tick leaves it unchanged.
pub open spec fn tick_next(st: SchedulerState, now: u64, event: SchedulerEvent) -> SchedulerState {
    if st is Exited || event is CloseRequested {
        SchedulerState::Exited
    } else if event is RedrawRequested {
        SchedulerState::Steady { last_draw_nanos: now }
    } else {
        match st {
            SchedulerState::AwaitingFirstDraw => SchedulerState::Steady { last_draw_nanos: now },
            SchedulerState::Steady { last_draw_nanos: t } => {
                if now >= t + FRAME_INTERVAL_NANOS {
                    SchedulerState::Steady { last_draw_nanos: now }
                } else {
                    st
                }
            },
            SchedulerState::Exited => st,
        }
    }
}

/// The action a tick demands: exactly one draw per transition into a new
/// `Steady` instant, a wake-up timer when throttled, and `Exit` once
/// terminal. Whatever triggers the very first draw — a tick or a forced
/// repaint — it is the first visible paint, so it also reveals the window.
pub open spec fn tick_action(st: SchedulerState, now: u64, event: SchedulerEvent) -> SchedulerAction {
    if st is Exited || event is CloseRequested {
        SchedulerAction::Exit
    } else if event is RedrawRequested {
        SchedulerAction::Draw { first_draw: st is AwaitingFirstDraw }
    } else {
        match st {
            SchedulerState::AwaitingFirstDraw => SchedulerAction::Draw { first_draw: true },
            SchedulerState::Steady { last_draw_nanos: t } => {
                if now >= t + FRAME_INTERVAL_NANOS {
                    SchedulerAction::Draw { first_draw: false }
                } else {
                    SchedulerAction::WaitUntil { deadline_nanos: (t + FRAME_INTERVAL_NANOS) as u64 }
                }
            },
            SchedulerState::Exited => SchedulerAction::Exit,
        }
    }
}

/// Drives the fixed-rate update/draw cycle from an external event source,
/// decoupling "event arrived" from "time to redraw".
#[derive(Clone, Copy, Debug, PartialEq, Eq, Structural)]
pub struct FrameScheduler {
    pub state: SchedulerState,
}

impl FrameScheduler {
    /// A fresh pacer: nothing drawn yet.
    pub fn new() -> (s: Self)
        ensures
            s.state == SchedulerState::AwaitingFirstDraw,
    {
        FrameScheduler { state: SchedulerState::AwaitingFirstDraw }
    }

    /// A tick is well-timed when the clock has headroom for one more
    /// interval and has not run backwards past the last draw.
    pub open spec fn tick_ok(self, now: u64) -> bool {
        &&& now + FRAME_INTERVAL_NANOS <= u64::MAX
        &&& (self.state matches SchedulerState::Steady { last_draw_nanos } ==> last_draw_nanos
            <= now)
    }

    /// Advance the state machine by one tick of the event loop, at monotone
    /// instant `now_nanos`, and say what the caller must now do.
    pub fn tick(&mut self, now_nanos: u64, event: SchedulerEvent) -> (action: SchedulerAction)
        requires
            old(self).tick_ok(now_nanos),
        ensures
            final(self).state == tick_next(old(self).state, now_nanos, event),
            action == tick_action(old(self).state, now_nanos, event),
    {
        match event {
            SchedulerEvent::CloseRequested => {
                self.state = SchedulerState::Exited;
                SchedulerAction::Exit
            },
            SchedulerEvent::RedrawRequested => {
                match self.state {
                    SchedulerState::Exited => SchedulerAction::Exit,
                    SchedulerState::AwaitingFirstDraw => {
                        self.state = SchedulerState::Steady { last_draw_nanos: now_nanos };
                        SchedulerAction::Draw { first_draw: true }
                    },
                    SchedulerState::Steady { .. } => {
                        self.state = SchedulerState::Steady { last_draw_nanos: now_nanos };
                        SchedulerAction::Draw { first_draw: false }
                    },
                }
            },
            SchedulerEvent::Tick => {
                match self.state {
                    SchedulerState::Exited => SchedulerAction::Exit,
                    SchedulerState::AwaitingFirstDraw => {
                        self.state = SchedulerState::Steady { last_draw_nanos: now_nanos };
                        SchedulerAction::Draw { first_draw: true }
                    },
                    SchedulerState::Steady { last_draw_nanos } => {
                        if now_nanos - last_draw_nanos >= FRAME_INTERVAL_NANOS {
                            self.state = SchedulerState::Steady { last_draw_nanos: now_nanos };
                            SchedulerAction::Draw { first_draw: false }
                        } else {
                            SchedulerAction::WaitUntil {
                                deadline_nanos: last_draw_nanos + FRAME_INTERVAL_NANOS,
                            }
                        }
                    },
                }
            },
        }
    }
}

} // verus!
