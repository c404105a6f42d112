use shell_tex::program_state::{AppEvent, AppState};
use shell_tex::rat::Rat;
use shell_tex::scheduler::{
    FrameScheduler, SchedulerAction, SchedulerEvent, SchedulerState, FRAME_INTERVAL_NANOS,
};

#[test]
fn frame_interval_is_a_sixtieth_of_a_second() {
    assert_eq!(FRAME_INTERVAL_NANOS, 16_666_666);
}

#[test]
fn draws_at_first_tick_then_throttles() {
    let mut s = FrameScheduler::new();
    // t = 0: first draw, reveals the window
    assert_eq!(
        s.tick(0, SchedulerEvent::Tick),
        SchedulerAction::Draw { first_draw: true }
    );
    // t = 5 ms: interval not yet elapsed — no draw, wake at t0 + interval
    assert_eq!(
        s.tick(5_000_000, SchedulerEvent::Tick),
        SchedulerAction::WaitUntil {
            deadline_nanos: FRAME_INTERVAL_NANOS
        }
    );
    // t = 20 ms: first tick past the interval — draw
    assert_eq!(
        s.tick(20_000_000, SchedulerEvent::Tick),
        SchedulerAction::Draw { first_draw: false }
    );
    assert_eq!(
        s.state,
        SchedulerState::Steady {
            last_draw_nanos: 20_000_000
        }
    );
}

#[test]
fn redraw_request_bypasses_throttle() {
    let mut s = FrameScheduler::new();
    s.tick(0, SchedulerEvent::Tick);
    // far too early for a scheduled draw, but a forced repaint draws anyway
    assert_eq!(
        s.tick(1_000, SchedulerEvent::RedrawRequested),
        SchedulerAction::Draw { first_draw: false }
    );
    // and the pacer was re-armed from the forced draw
    assert_eq!(
        s.tick(2_000, SchedulerEvent::Tick),
        SchedulerAction::WaitUntil {
            deadline_nanos: 1_000 + FRAME_INTERVAL_NANOS
        }
    );
}

#[test]
fn forced_repaint_as_first_draw_reveals_window() {
    let mut s = FrameScheduler::new();
    // nothing drawn yet: even a forced repaint is the first visible paint
    assert_eq!(
        s.tick(0, SchedulerEvent::RedrawRequested),
        SchedulerAction::Draw { first_draw: true }
    );
    assert_eq!(s.state, SchedulerState::Steady { last_draw_nanos: 0 });
    // once steady, forced repaints draw without revealing again
    assert_eq!(
        s.tick(1_000, SchedulerEvent::RedrawRequested),
        SchedulerAction::Draw { first_draw: false }
    );
}

#[test]
fn close_is_terminal() {
    let mut s = FrameScheduler::new();
    s.tick(0, SchedulerEvent::Tick);
    assert_eq!(
        s.tick(1_000, SchedulerEvent::CloseRequested),
        SchedulerAction::Exit
    );
    assert_eq!(s.state, SchedulerState::Exited);
    // no draws once terminal, not even forced ones
    assert_eq!(
        s.tick(50_000_000, SchedulerEvent::RedrawRequested),
        SchedulerAction::Exit
    );
    assert_eq!(
        s.tick(90_000_000, SchedulerEvent::Tick),
        SchedulerAction::Exit
    );
    assert_eq!(s.state, SchedulerState::Exited);
}

#[test]
fn event_step_decays_latch_once_per_tick() {
    let mut app = AppState::new(800, 600);
    // key goes down during the first tick
    let a = app.handle_event(0, AppEvent::Key { code: 3, pressed: true });
    assert_eq!(a, SchedulerAction::Draw { first_draw: true });
    assert_eq!(app.keyboard_state.keys[3].held_down, true);
    assert_eq!(app.keyboard_state.keys[3].this_frame, true);
    // next tick: the latch decays before anything else
    app.handle_event(5_000_000, AppEvent::Other);
    assert_eq!(app.keyboard_state.keys[3].held_down, true);
    assert_eq!(app.keyboard_state.keys[3].this_frame, false);
}

#[test]
fn event_step_resize_rebuilds_projection() {
    let mut app = AppState::new(800, 600);
    app.handle_event(0, AppEvent::Other);
    app.handle_event(
        1_000,
        AppEvent::Resized {
            width: 400,
            height: 300,
        },
    );
    assert_eq!(app.camera.world_projection.m00, Rat { num: 400, den: 300 });
    let before = app.camera.world_projection;
    // a zero-sized surface (minimized window) is ignored
    app.handle_event(2_000, AppEvent::Resized { width: 0, height: 300 });
    assert_eq!(app.camera.world_projection, before);
}

#[test]
fn event_step_scenario_matches_frame_pacing() {
    let mut app = AppState::new(640, 480);
    assert_eq!(
        app.handle_event(0, AppEvent::Other),
        SchedulerAction::Draw { first_draw: true }
    );
    assert_eq!(
        app.handle_event(5_000_000, AppEvent::Other),
        SchedulerAction::WaitUntil {
            deadline_nanos: FRAME_INTERVAL_NANOS
        }
    );
    assert_eq!(
        app.handle_event(20_000_000, AppEvent::Other),
        SchedulerAction::Draw { first_draw: false }
    );
    assert_eq!(
        app.handle_event(21_000_000, AppEvent::CloseRequested),
        SchedulerAction::Exit
    );
    assert_eq!(app.scheduler.state, SchedulerState::Exited);
}
