use haridokei::window::{timer_step, RenderActions, RenderState, TimerStep, REDRAW_INTERVAL_MILLIS};

#[test]
fn timer_starts_on_first_render_only() {
    let mut state = RenderState::new();
    assert!(!state.timer_started());
    assert_eq!(state.render(false), RenderActions { quit: false, start_timer: true });
    assert!(state.timer_started());
    assert_eq!(state.render(false), RenderActions { quit: false, start_timer: false });
    assert_eq!(state.render(true), RenderActions { quit: true, start_timer: false });
}

#[test]
fn terminate_on_first_render_still_starts_timer() {
    let mut state = RenderState::new();
    assert_eq!(state.render(true), RenderActions { quit: true, start_timer: true });
}

#[test]
fn timer_counts_one_start_over_many_renders() {
    let mut state = RenderState::new();
    let starts = (0..100).filter(|i| state.render(i % 7 == 3).start_timer).count();
    assert_eq!(starts, 1);
}

#[test]
fn timer_waits_then_redraws_until_terminated() {
    assert_eq!(timer_step(false), TimerStep::WaitThenRedraw(75));
    assert_eq!(REDRAW_INTERVAL_MILLIS, 75);
    assert_eq!(timer_step(true), TimerStep::Stop);
}

#[test]
fn timer_run_redraws_until_terminated_then_stops() {
    let requests = [false, false, false, true, false];
    let mut steps = Vec::new();
    for &requested in requests.iter() {
        let step = timer_step(requested);
        steps.push(step);
        if step == TimerStep::Stop {
            break;
        }
    }
    assert_eq!(
        steps,
        vec![
            TimerStep::WaitThenRedraw(75),
            TimerStep::WaitThenRedraw(75),
            TimerStep::WaitThenRedraw(75),
            TimerStep::Stop,
        ]
    );
}
