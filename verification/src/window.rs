//! What the clock window decides each time it is drawn, and what its redraw
//! timer does on each tick.

use vstd::prelude::*;

verus! {

/// The window's title.
pub const TITLE_NAME: &'static str = "Haridokei";

/// The application id (used for the window class).
pub const APP_ID: &'static str = "jp.laki.haridokei";

/// The smallest width and height the window may be given, in pixels.
pub const MIN_WINDOW_SIZE: u32 = 50;

/// How long the redraw timer waits between two redraws, in milliseconds.
pub const REDRAW_INTERVAL_MILLIS: u64 = 75;

/// What to do while drawing the window.
#[derive(Clone, Copy, Debug, PartialEq, Eq)]
pub struct RenderActions {
    /// A termination signal came: tell the service manager, and quit.
    pub quit: bool,
    /// Start the timer that keeps the hands moving.
    pub start_timer: bool,
}

/// What the window remembers from one drawing to the next.
#[derive(Clone, Copy, Debug, PartialEq, Eq)]
pub struct RenderState {
    timer_started: bool,
}

/// One drawing of the window: from whether the timer was started and
/// whether termination was requested, whether it is started afterwards and
/// what to do.
pub open spec fn render_step(timer_started: bool, terminate_requested: bool) -> (bool, RenderActions) {
    (true, RenderActions { quit: terminate_requested, start_timer: !timer_started })
}

/// A drawing quits exactly when termination was requested, starts the
/// timer exactly when it had not been started, and leaves it started.
pub proof fn lemma_render_decisions(timer_started: bool, terminate_requested: bool)
    ensures
        render_step(timer_started, terminate_requested).0,
        render_step(timer_started, terminate_requested).1.quit == terminate_requested,
        render_step(timer_started, terminate_requested).1.start_timer == !timer_started,
{
}

/// How many times the timer is started over a run of drawings, one per
/// entry of `terminate_requests`.
pub open spec fn timer_starts(timer_started: bool, terminate_requests: Seq<bool>) -> nat
    decreases terminate_requests.len(),
{
    if terminate_requests.len() == 0 {
        0
    } else {
        let (next, actions) = render_step(timer_started, terminate_requests[0]);
        (if actions.start_timer {
            1nat
        } else {
            0nat
        }) + timer_starts(next, terminate_requests.drop_first())
    }
}

impl RenderState {
    /// Whether the redraw timer has been started.
    pub closed spec fn timer_started_spec(&self) -> bool {
        self.timer_started
    }

    /// The state of a window not drawn yet: no timer.
    pub fn new() -> (s: Self)
        ensures
            !s.timer_started_spec(),
    {
        RenderState { timer_started: false }
    }

    /// Whether the redraw timer has been started.
    pub fn timer_started(&self) -> (started: bool)
        ensures
            started == self.timer_started_spec(),
    {
        self.timer_started
    }

    /// Decides what to do while drawing the window: quit when termination was
    /// requested, and start the redraw timer the first time only.
    pub fn render(&mut self, terminate_requested: bool) -> (actions: RenderActions)
        ensures
            (final(self).timer_started_spec(), actions) == render_step(
                old(self).timer_started_spec(),
                terminate_requested,
            ),
    {
        let actions = RenderActions { quit: terminate_requested, start_timer: !self.timer_started };
        self.timer_started = true;
        actions
    }
}

/// The redraw timer is started exactly once over any run of drawings of a
/// new window that draws at least once, whatever the termination requests.
pub proof fn lemma_timer_started_once(terminate_requests: Seq<bool>)
    requires
        terminate_requests.len() > 0,
    ensures
        timer_starts(false, terminate_requests) == 1,
{
    lemma_no_restart(terminate_requests.drop_first());
}

/// Once started, the timer is never started again.
pub proof fn lemma_no_restart(terminate_requests: Seq<bool>)
    ensures
        timer_starts(true, terminate_requests) == 0,
    decreases terminate_requests.len(),
{
    if terminate_requests.len() > 0 {
        lemma_no_restart(terminate_requests.drop_first());
    }
}

/// What the redraw timer does on a tick.
#[derive(Clone, Copy, Debug, PartialEq, Eq)]
pub enum TimerStep {
    /// Termination was requested: stop the timer.
    Stop,
    /// Wait this many milliseconds, then ask for the window to be redrawn.
    WaitThenRedraw(u64),
}

/// The redraw timer's decision on a tick: stop once termination is
/// requested, otherwise wait [`REDRAW_INTERVAL_MILLIS`] and redraw.
pub open spec fn timer_step_spec(terminate_requested: bool) -> TimerStep {
    if terminate_requested {
        TimerStep::Stop
    } else {
        TimerStep::WaitThenRedraw(REDRAW_INTERVAL_MILLIS)
    }
}

/// The steps the redraw timer takes when, at its successive ticks, it finds
/// termination requested or not as `terminate_requests` says: one step per
/// tick, ending with the first `Stop`.
pub open spec fn timer_run(terminate_requests: Seq<bool>) -> Seq<TimerStep>
    decreases terminate_requests.len(),
{
    if terminate_requests.len() == 0 {
        seq![]
    } else if terminate_requests[0] {
        seq![TimerStep::Stop]
    } else {
        seq![timer_step_spec(false)] + timer_run(terminate_requests.drop_first())
    }
}

/// While termination is not requested, the timer waits
/// [`REDRAW_INTERVAL_MILLIS`] and redraws once per tick.
pub proof fn lemma_timer_redraws_while_running(terminate_requests: Seq<bool>)
    requires
        forall|i: int| 0 <= i < terminate_requests.len() ==> !#[trigger] terminate_requests[i],
    ensures
        timer_run(terminate_requests).len() == terminate_requests.len(),
        forall|i: int|
            0 <= i < terminate_requests.len() ==> #[trigger] timer_run(terminate_requests)[i]
                == TimerStep::WaitThenRedraw(REDRAW_INTERVAL_MILLIS),
    decreases terminate_requests.len(),
{
    if terminate_requests.len() > 0 {
        let rest = terminate_requests.drop_first();
        assert(!terminate_requests[0]);
        assert forall|i: int| 0 <= i < rest.len() implies !#[trigger] rest[i] by {
            assert(rest[i] == terminate_requests[i + 1]);
        }
        lemma_timer_redraws_while_running(rest);
        assert forall|i: int| 0 <= i < terminate_requests.len() implies #[trigger] timer_run(
            terminate_requests,
        )[i] == TimerStep::WaitThenRedraw(REDRAW_INTERVAL_MILLIS) by {
            if i > 0 {
                assert(timer_run(terminate_requests)[i] == timer_run(rest)[i - 1]);
            }
        }
    }
}

/// Once termination is requested the timer stops at that tick: when the
/// first request is found at tick `n`, it has redrawn once at each of the
/// `n` ticks before and takes no step after stopping.
pub proof fn lemma_timer_stops_when_terminated(terminate_requests: Seq<bool>, n: int)
    requires
        0 <= n < terminate_requests.len(),
        terminate_requests[n],
        forall|i: int| 0 <= i < n ==> !#[trigger] terminate_requests[i],
    ensures
        timer_run(terminate_requests).len() == n + 1,
        forall|i: int|
            0 <= i < n ==> #[trigger] timer_run(terminate_requests)[i] == TimerStep::WaitThenRedraw(
                REDRAW_INTERVAL_MILLIS,
            ),
        timer_run(terminate_requests)[n] == TimerStep::Stop,
    decreases n,
{
    if n > 0 {
        let rest = terminate_requests.drop_first();
        assert(!terminate_requests[0]);
        assert(rest[n - 1] == terminate_requests[n]);
        assert forall|i: int| 0 <= i < n - 1 implies !#[trigger] rest[i] by {
            assert(rest[i] == terminate_requests[i + 1]);
        }
        lemma_timer_stops_when_terminated(rest, n - 1);
        assert forall|i: int| 0 <= i < n implies #[trigger] timer_run(terminate_requests)[i]
            == TimerStep::WaitThenRedraw(REDRAW_INTERVAL_MILLIS) by {
            if i > 0 {
                assert(timer_run(terminate_requests)[i] == timer_run(rest)[i - 1]);
            }
        }
        assert(timer_run(terminate_requests)[n] == timer_run(rest)[n - 1]);
    }
}

/// The redraw timer's decision on a tick: stop once termination is
/// requested, otherwise wait [`REDRAW_INTERVAL_MILLIS`] and redraw.
pub fn timer_step(terminate_requested: bool) -> (step: TimerStep)
    ensures
        step == timer_step_spec(terminate_requested),
{
    if terminate_requested {
        TimerStep::Stop
    } else {
        TimerStep::WaitThenRedraw(REDRAW_INTERVAL_MILLIS)
    }
}

} // verus!
