use watchboi::http::{readiness_step, ReadyDecision, Sessions, READY_WAIT_TIMEOUT_MS};
use watchboi::op::command::{
    next_backoff, supervisor_initial_state, supervisor_step, SupervisorEvent, SupervisorState,
    POLL_CAP_US, POLL_START_US,
};
use watchboi::op::concurrently::{conc_step, ConcEvent, ConcState};
use watchboi::op::watch::{
    watch_initial_state, watch_step, WatchEvent, WatchState, DEFAULT_DEBOUNCE_MS,
};
use watchboi::op::Outcome;

#[test]
fn watch_starts_with_a_startup_run() {
    assert_eq!(
        watch_initial_state(),
        WatchState::Run { triggered_by_change: false }
    );
    assert_eq!(DEFAULT_DEBOUNCE_MS, 500);
}

#[test]
fn burst_of_events_coalesces_to_one_rerun() {
    // Five events land within the debounce window while the startup run
    // executes: the run is cancelled once, the burst collapses, and the
    // timeout triggers exactly one re-run - two runs in all, counting the
    // startup one.
    let mut starts = 1; // the startup run
    let mut state = watch_initial_state();

    let first = watch_step(state, WatchEvent::FsEvent);
    assert!(first.cancel_inner);
    assert_eq!(first.state, WatchState::Debouncing);
    state = first.state;

    for _ in 0..4 {
        let step = watch_step(state, WatchEvent::FsEvent);
        assert_eq!(step.state, WatchState::Debouncing);
        assert!(step.reset_timer);
        assert!(step.start_run.is_none());
        assert!(step.emit.is_none());
        state = step.state;
    }

    let fired = watch_step(state, WatchEvent::DebounceTimeout);
    assert_eq!(fired.state, WatchState::Run { triggered_by_change: true });
    assert_eq!(fired.start_run, Some(true));
    if fired.start_run.is_some() {
        starts += 1;
    }
    assert_eq!(starts, 2);
}

#[test]
fn change_during_run_cancels_before_anything_else() {
    let running = WatchState::Run { triggered_by_change: true };
    let step = watch_step(running, WatchEvent::FsEvent);
    assert!(step.cancel_inner);
    assert_eq!(step.state, WatchState::Debouncing);
    // A second change after the re-run started cancels it again.
    let rerun = WatchState::Run { triggered_by_change: true };
    let again = watch_step(rerun, WatchEvent::FsEvent);
    assert!(again.cancel_inner);
}

#[test]
fn watch_cancel_emits_cancelled_from_every_state() {
    for state in [
        WatchState::Run { triggered_by_change: false },
        WatchState::Run { triggered_by_change: true },
        WatchState::WaitingForChange,
        WatchState::Debouncing,
    ] {
        let step = watch_step(state, WatchEvent::Cancel);
        assert_eq!(step.emit, Some(Outcome::Cancelled));
        assert_eq!(step.state, WatchState::Done);
    }
}

#[test]
fn inner_completion_returns_to_waiting() {
    let step = watch_step(
        WatchState::Run { triggered_by_change: false },
        WatchEvent::InnerDone,
    );
    assert_eq!(step.state, WatchState::WaitingForChange);
    assert!(step.emit.is_none());
}

#[test]
fn backoff_doubles_up_to_the_cap() {
    assert_eq!(POLL_START_US, 100);
    assert_eq!(POLL_CAP_US, 20000);
    let mut b = POLL_START_US;
    let mut seen = vec![b];
    for _ in 0..10 {
        b = next_backoff(b);
        seen.push(b);
    }
    assert_eq!(
        seen,
        vec![100, 200, 400, 800, 1600, 3200, 6400, 12800, 20000, 20000, 20000]
    );
}

#[test]
fn supervisor_maps_exit_status() {
    let s = supervisor_initial_state();
    let ok = supervisor_step(s, SupervisorEvent::Exited { exit_ok: true });
    assert_eq!(ok.emit, Some(Outcome::Success));
    assert_eq!(ok.state, SupervisorState::Done);
    let bad = supervisor_step(s, SupervisorEvent::Exited { exit_ok: false });
    assert_eq!(bad.emit, Some(Outcome::Failure));
}

#[test]
fn supervisor_sleeps_then_polls_again() {
    let s = supervisor_initial_state();
    let step = supervisor_step(s, SupervisorEvent::StillRunning);
    assert_eq!(step.sleep_us, Some(100));
    assert_eq!(step.state, SupervisorState::Polling { backoff_us: 200 });
}

#[test]
fn cancel_kills_and_reap_yields_cancelled() {
    // The sleeping command is killed on cancellation; once reaped, the
    // outcome is Cancelled.
    let s = supervisor_initial_state();
    let cancelled = supervisor_step(s, SupervisorEvent::Cancel);
    assert!(cancelled.kill);
    assert_eq!(cancelled.state, SupervisorState::Killing);
    // A second cancel is a no-op.
    let again = supervisor_step(cancelled.state, SupervisorEvent::Cancel);
    assert!(!again.kill);
    assert_eq!(again.state, SupervisorState::Killing);
    let reaped = supervisor_step(again.state, SupervisorEvent::Reaped);
    assert_eq!(reaped.emit, Some(Outcome::Cancelled));
    assert_eq!(reaped.state, SupervisorState::Done);
}

#[test]
fn concurrently_counts_down_successes() {
    let s = ConcState::Waiting { remaining: 3 };
    let one = conc_step(s, ConcEvent::ChildOutcome(Outcome::Success));
    assert_eq!(one.state, ConcState::Waiting { remaining: 2 });
    assert!(one.emit.is_none());
    let two = conc_step(one.state, ConcEvent::ChildOutcome(Outcome::Success));
    let three = conc_step(two.state, ConcEvent::ChildOutcome(Outcome::Success));
    assert_eq!(three.state, ConcState::Done);
    assert_eq!(three.emit, Some(Outcome::Success));
    assert!(!three.cancel_children);
}

#[test]
fn concurrently_first_failure_cancels_siblings() {
    let s = ConcState::Waiting { remaining: 3 };
    let step = conc_step(s, ConcEvent::ChildOutcome(Outcome::Failure));
    assert_eq!(step.state, ConcState::Done);
    assert_eq!(step.emit, Some(Outcome::Failure));
    assert!(step.cancel_children);
}

#[test]
fn concurrently_cancel_cancels_all() {
    let s = ConcState::Waiting { remaining: 2 };
    let step = conc_step(s, ConcEvent::Cancel);
    assert_eq!(step.emit, Some(Outcome::Cancelled));
    assert!(step.cancel_children);
}

#[test]
fn proxy_readiness_delays_the_reload() {
    // Backend restarts after two seconds: the probe succeeds and the
    // reload fires, dropping every session.
    assert_eq!(readiness_step(true, 2000), ReadyDecision::Fire);
    // Still down within the deadline: keep polling.
    assert_eq!(readiness_step(false, 2000), ReadyDecision::Wait);
    // Down for the whole window: give up, keep the sessions.
    assert_eq!(READY_WAIT_TIMEOUT_MS, 30000);
    assert_eq!(readiness_step(false, 30000), ReadyDecision::GiveUp);

    let mut sessions = Sessions::new();
    sessions.accept(1);
    sessions.accept(2);
    let fired = sessions.apply_reload(ReadyDecision::GiveUp);
    assert!(!fired);
    assert_eq!(sessions.ids.len(), 2);
    let fired = sessions.apply_reload(ReadyDecision::Fire);
    assert!(fired);
    assert_eq!(sessions.ids.len(), 0);
}
