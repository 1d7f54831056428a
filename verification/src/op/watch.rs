//! Watching directories and triggering operations on changes: the
//! watch/debounce state machine, and the `watch` / `on-change` operations.
//!
//! The runtime owns the notifier, the timer and the channels; every decision
//! — what to cancel, when to re-run, what to emit — is taken here.

use vstd::prelude::*;
use crate::context::{closest_var, Context, Var, VarKind};
use crate::error::Error;
use crate::op::{Op, Outcome};

verus! {

/// The debounce window used when the configuration gives none, in
/// milliseconds.
pub const DEFAULT_DEBOUNCE_MS: u64 = 500;

/// The `watch` operation: paths to watch, operations to run, and an
/// optional debounce window in milliseconds.
#[derive(Debug)]
pub struct Watch {
    pub paths: Vec<String>,
    pub run: Vec<Op>,
    pub debounce: Option<u64>,
}

impl Watch {
    /// The debounce window: the configured one, or the default.
    pub fn debounce_ms(&self) -> (r: u64)
        ensures
            self.debounce matches Some(d) ==> r == d,
            self.debounce is None ==> r == DEFAULT_DEBOUNCE_MS,
    {
        match self.debounce {
            Some(d) => d,
            None => DEFAULT_DEBOUNCE_MS,
        }
    }
}

/// The `on-change` operation: wraps one operation and runs it only when
/// the covering `watch` was triggered by a change.
#[derive(Debug)]
pub struct OnChange(pub Box<Op>);

impl OnChange {
    /// The wrapped operation.
    pub fn inner(&self) -> (r: &Op)
        ensures
            *r == *self.0,
    {
        &self.0
    }

    /// Whether to run the wrapped operation: the closest
    /// `TriggeredByChange` variable decides; without a covering `watch`
    /// there is none, which is a configuration error at runtime.
    pub fn should_run_inner(&self, ctx: &Context) -> (r: Result<bool, Error>)
        ensures
            r matches Ok(b) ==> closest_var(ctx.frames@, VarKind::TriggeredByChange) == Some(
                Var::TriggeredByChange(b),
            ),
            r is Err <==> closest_var(ctx.frames@, VarKind::TriggeredByChange) is None,
    {
        proof {
            crate::context::lemma_closest_var_kind(ctx.frames@, VarKind::TriggeredByChange);
        }
        match ctx.get_closest_var(VarKind::TriggeredByChange) {
            Some(Var::TriggeredByChange(b)) => Ok(b),
            _ => Err(
                Error::Config(
                    String::from_str("`on-change` used outside of a `watch` operation"),
                ),
            ),
        }
    }
}

/// The states of the watch worker.
#[derive(Debug, Clone, Copy, PartialEq, Eq, Structural)]
pub enum WatchState {
    /// The inner pipeline is running; `triggered_by_change` tells a startup
    /// run from a re-run after a change.
    Run { triggered_by_change: bool },
    /// Idle, waiting for the next filesystem event.
    WaitingForChange,
    /// A change arrived; waiting for the stream of events to settle.
    Debouncing,
    /// The watch emitted its outcome; nothing more happens.
    Done,
}

/// What can wake the watch worker.
#[derive(Debug, Clone, Copy, PartialEq, Eq, Structural)]
pub enum WatchEvent {
    /// A filesystem event on one of the watched paths.
    FsEvent,
    /// The watch operation itself was cancelled.
    Cancel,
    /// The inner pipeline finished (whatever its outcome).
    InnerDone,
    /// The debounce window elapsed with no further filesystem event.
    DebounceTimeout,
}

/// One transition of the watch worker: the next state and the actions the
/// runtime must perform, in order: cancel the inner pipeline, then emit,
/// then start a new run or reset the debounce timer.
#[derive(Debug, Clone, Copy, PartialEq, Eq, Structural)]
pub struct WatchStep {
    pub state: WatchState,
    /// Cancel the running inner pipeline before anything else.
    pub cancel_inner: bool,
    /// Emit this outcome on the watch's outcome channel.
    pub emit: Option<Outcome>,
    /// Start the inner pipeline, publishing this `TriggeredByChange` value.
    pub start_run: Option<bool>,
    /// Restart the debounce timer.
    pub reset_timer: bool,
}

/// Which events can reach the worker in which state: completion of the
/// inner pipeline only while it runs, a debounce timeout only while
/// debouncing, and nothing after the outcome was emitted.
pub open spec fn watch_admissible(s: WatchState, e: WatchEvent) -> bool {
    &&& s != WatchState::Done
    &&& (e == WatchEvent::InnerDone ==> s matches WatchState::Run { .. })
    &&& (e == WatchEvent::DebounceTimeout ==> s == WatchState::Debouncing)
}

/// The transition table of the watch worker.
pub open spec fn spec_watch_step(s: WatchState, e: WatchEvent) -> WatchStep {
    match (s, e) {
        (WatchState::Run { .. }, WatchEvent::FsEvent) => WatchStep {
            state: WatchState::Debouncing,
            cancel_inner: true,
            emit: None,
            start_run: None,
            reset_timer: true,
        },
        (WatchState::Run { .. }, WatchEvent::Cancel) => WatchStep {
            state: WatchState::Done,
            cancel_inner: true,
            emit: Some(Outcome::Cancelled),
            start_run: None,
            reset_timer: false,
        },
        (WatchState::Run { .. }, WatchEvent::InnerDone) => WatchStep {
            state: WatchState::WaitingForChange,
            cancel_inner: false,
            emit: None,
            start_run: None,
            reset_timer: false,
        },
        (WatchState::WaitingForChange, WatchEvent::FsEvent) => WatchStep {
            state: WatchState::Debouncing,
            cancel_inner: false,
            emit: None,
            start_run: None,
            reset_timer: true,
        },
        (WatchState::WaitingForChange, WatchEvent::Cancel) => WatchStep {
            state: WatchState::Done,
            cancel_inner: false,
            emit: Some(Outcome::Cancelled),
            start_run: None,
            reset_timer: false,
        },
        (WatchState::Debouncing, WatchEvent::FsEvent) => WatchStep {
            state: WatchState::Debouncing,
            cancel_inner: false,
            emit: None,
            start_run: None,
            reset_timer: true,
        },
        (WatchState::Debouncing, WatchEvent::Cancel) => WatchStep {
            state: WatchState::Done,
            cancel_inner: false,
            emit: Some(Outcome::Cancelled),
            start_run: None,
            reset_timer: false,
        },
        (WatchState::Debouncing, WatchEvent::DebounceTimeout) => WatchStep {
            state: WatchState::Run { triggered_by_change: true },
            cancel_inner: false,
            emit: None,
            start_run: Some(true),
            reset_timer: false,
        },
        // Excluded by admissibility.
        _ => WatchStep {
            state: s,
            cancel_inner: false,
            emit: None,
            start_run: None,
            reset_timer: false,
        },
    }
}

/// One transition of the watch worker.
pub fn watch_step(s: WatchState, e: WatchEvent) -> (r: WatchStep)
    requires
        watch_admissible(s, e),
    ensures
        r == spec_watch_step(s, e),
        // An outcome is emitted exactly on entering the terminal state.
        r.emit is Some <==> r.state == WatchState::Done,
        // Cancellation is total: it always terminates the watch with
        // `Cancelled`, and nothing else does.
        e == WatchEvent::Cancel <==> r.emit == Some(Outcome::Cancelled),
        e == WatchEvent::Cancel <==> r.state == WatchState::Done,
        // A filesystem event during execution always cancels the running
        // pipeline before anything further happens.
        (s matches WatchState::Run { .. } && e == WatchEvent::FsEvent) ==> r.cancel_inner,
    {
    match (s, e) {
        (WatchState::Run { triggered_by_change: _ }, WatchEvent::FsEvent) => WatchStep {
            state: WatchState::Debouncing,
            cancel_inner: true,
            emit: None,
            start_run: None,
            reset_timer: true,
        },
        (WatchState::Run { triggered_by_change: _ }, WatchEvent::Cancel) => WatchStep {
            state: WatchState::Done,
            cancel_inner: true,
            emit: Some(Outcome::Cancelled),
            start_run: None,
            reset_timer: false,
        },
        (WatchState::Run { triggered_by_change: _ }, WatchEvent::InnerDone) => WatchStep {
            state: WatchState::WaitingForChange,
            cancel_inner: false,
            emit: None,
            start_run: None,
            reset_timer: false,
        },
        (WatchState::WaitingForChange, WatchEvent::FsEvent) => WatchStep {
            state: WatchState::Debouncing,
            cancel_inner: false,
            emit: None,
            start_run: None,
            reset_timer: true,
        },
        (WatchState::WaitingForChange, WatchEvent::Cancel) => WatchStep {
            state: WatchState::Done,
            cancel_inner: false,
            emit: Some(Outcome::Cancelled),
            start_run: None,
            reset_timer: false,
        },
        (WatchState::Debouncing, WatchEvent::FsEvent) => WatchStep {
            state: WatchState::Debouncing,
            cancel_inner: false,
            emit: None,
            start_run: None,
            reset_timer: true,
        },
        (WatchState::Debouncing, WatchEvent::Cancel) => WatchStep {
            state: WatchState::Done,
            cancel_inner: false,
            emit: Some(Outcome::Cancelled),
            start_run: None,
            reset_timer: false,
        },
        (WatchState::Debouncing, WatchEvent::DebounceTimeout) => WatchStep {
            state: WatchState::Run { triggered_by_change: true },
            cancel_inner: false,
            emit: None,
            start_run: Some(true),
            reset_timer: false,
        },
        _ => WatchStep {
            state: s,
            cancel_inner: false,
            emit: None,
            start_run: None,
            reset_timer: false,
        },
    }
}

/// The state the worker started in: executing the pipeline once on startup.
pub fn watch_initial_state() -> (r: WatchState)
    ensures
        r == (WatchState::Run { triggered_by_change: false }),
{
    WatchState::Run { triggered_by_change: false }
}

// ===== Traces ==============================================================

/// Every step of the event sequence is admissible from `s`.
pub open spec fn watch_trace_ok(s: WatchState, evs: Seq<WatchEvent>) -> bool
    decreases evs.len(),
{
    evs.len() == 0 || {
        &&& watch_admissible(s, evs[0])
        &&& watch_trace_ok(spec_watch_step(s, evs[0]).state, evs.skip(1))
    }
}

/// The state after processing the whole event sequence.
pub open spec fn watch_run_events(s: WatchState, evs: Seq<WatchEvent>) -> WatchState
    decreases evs.len(),
{
    if evs.len() == 0 {
        s
    } else {
        watch_run_events(spec_watch_step(s, evs[0]).state, evs.skip(1))
    }
}

/// How many outcomes the worker emits along the event sequence.
pub open spec fn watch_count_emits(s: WatchState, evs: Seq<WatchEvent>) -> nat
    decreases evs.len(),
{
    if evs.len() == 0 {
        0
    } else {
        (if spec_watch_step(s, evs[0]).emit is Some {
            1nat
        } else {
            0nat
        }) + watch_count_emits(spec_watch_step(s, evs[0]).state, evs.skip(1))
    }
}

/// How many runs of the inner pipeline the worker starts along the event
/// sequence.
pub open spec fn watch_count_starts(s: WatchState, evs: Seq<WatchEvent>) -> nat
    decreases evs.len(),
{
    if evs.len() == 0 {
        0
    } else {
        (if spec_watch_step(s, evs[0]).start_run is Some {
            1nat
        } else {
            0nat
        }) + watch_count_starts(spec_watch_step(s, evs[0]).state, evs.skip(1))
    }
}

/// Exactly-one outcome: along any admissible event sequence the watch
/// worker emits at most one outcome, and exactly one precisely when it
/// reaches its terminal state.
pub proof fn lemma_watch_exactly_one_outcome(s: WatchState, evs: Seq<WatchEvent>)
    requires
        s != WatchState::Done,
        watch_trace_ok(s, evs),
    ensures
        watch_count_emits(s, evs) <= 1,
        (watch_count_emits(s, evs) == 1) <==> (watch_run_events(s, evs) == WatchState::Done),
    decreases evs.len(),
{
    if evs.len() > 0 {
        let step = spec_watch_step(s, evs[0]);
        if step.state == WatchState::Done {
            lemma_watch_done_stays(step.state, evs.skip(1));
        } else {
            lemma_watch_exactly_one_outcome(step.state, evs.skip(1));
        }
    }
}

/// From the terminal state no admissible event exists, so nothing further
/// is emitted.
proof fn lemma_watch_done_stays(s: WatchState, evs: Seq<WatchEvent>)
    requires
        s == WatchState::Done,
        watch_trace_ok(s, evs),
    ensures
        evs.len() == 0,
        watch_count_emits(s, evs) == 0,
        watch_run_events(s, evs) == s,
{
}

/// Cancel is total: from any live state, a cancel terminates the watch at
/// once, with `Cancelled` as its one outcome.
pub proof fn lemma_watch_cancel_total(s: WatchState)
    requires
        s != WatchState::Done,
    ensures
        watch_trace_ok(s, seq![WatchEvent::Cancel]),
        watch_run_events(s, seq![WatchEvent::Cancel]) == WatchState::Done,
        watch_count_emits(s, seq![WatchEvent::Cancel]) == 1,
        spec_watch_step(s, WatchEvent::Cancel).emit == Some(Outcome::Cancelled),
{
    let evs = seq![WatchEvent::Cancel];
    assert(evs[0] == WatchEvent::Cancel);
    assert(evs.skip(1) =~= Seq::<WatchEvent>::empty());
    let done = spec_watch_step(s, WatchEvent::Cancel).state;
    assert(done == WatchState::Done);
    assert(watch_trace_ok(done, evs.skip(1)));
    assert(watch_run_events(done, evs.skip(1)) == done);
    assert(watch_count_emits(done, evs.skip(1)) == 0);
}

/// Debounce coalescing: any burst of filesystem events observed while
/// debouncing keeps the worker debouncing (each one only resets the timer),
/// and the timeout that follows once the burst settles starts exactly one
/// re-run.
pub proof fn lemma_debounce_coalescing(burst: Seq<WatchEvent>)
    requires
        forall|i: int| 0 <= i < burst.len() ==> burst[i] == WatchEvent::FsEvent,
    ensures
        watch_trace_ok(WatchState::Debouncing, burst.push(WatchEvent::DebounceTimeout)),
        watch_run_events(WatchState::Debouncing, burst.push(WatchEvent::DebounceTimeout))
            == (WatchState::Run { triggered_by_change: true }),
        watch_count_starts(WatchState::Debouncing, burst.push(WatchEvent::DebounceTimeout)) == 1,
        watch_count_emits(WatchState::Debouncing, burst.push(WatchEvent::DebounceTimeout)) == 0,
    decreases burst.len(),
{
    let evs = burst.push(WatchEvent::DebounceTimeout);
    let d = WatchState::Debouncing;
    assert(evs.len() == burst.len() + 1);
    if burst.len() == 0 {
        assert(evs[0] == WatchEvent::DebounceTimeout);
        let run = WatchState::Run { triggered_by_change: true };
        assert(spec_watch_step(d, WatchEvent::DebounceTimeout).state == run);
        let rest = evs.skip(1);
        assert(rest =~= Seq::<WatchEvent>::empty());
        assert(watch_trace_ok(run, rest));
        assert(watch_run_events(run, rest) == run);
        assert(watch_count_emits(run, rest) == 0);
        assert(watch_count_starts(run, rest) == 0);
        assert(watch_trace_ok(d, evs));
        assert(watch_run_events(d, evs) == run);
        assert(watch_count_starts(d, evs) == 1);
        assert(watch_count_emits(d, evs) == 0);
    } else {
        assert(evs[0] == burst[0]);
        assert(burst[0] == WatchEvent::FsEvent);
        assert(forall|i: int|
            0 <= i < burst.skip(1).len() ==> #[trigger] burst.skip(1)[i] == burst[i + 1]);
        lemma_debounce_coalescing(burst.skip(1));
        let rest = evs.skip(1);
        assert(rest =~= burst.skip(1).push(WatchEvent::DebounceTimeout));
        let step = spec_watch_step(d, WatchEvent::FsEvent);
        assert(step.state == d && step.emit is None && step.start_run is None);
        assert(watch_trace_ok(d, rest));
        assert(watch_trace_ok(d, evs));
        assert(watch_run_events(d, evs) == watch_run_events(d, rest));
        assert(watch_count_starts(d, evs) == watch_count_starts(d, rest));
        assert(watch_count_emits(d, evs) == watch_count_emits(d, rest));
    }
}

/// A filesystem event during execution cancels the run and leads, once the
/// following burst settles, to exactly one re-run: the whole burst collapses.
pub proof fn lemma_change_during_run_coalesces(t: bool, burst: Seq<WatchEvent>)
    requires
        forall|i: int| 0 <= i < burst.len() ==> burst[i] == WatchEvent::FsEvent,
    ensures
        spec_watch_step(WatchState::Run { triggered_by_change: t }, WatchEvent::FsEvent)
            .cancel_inner,
        watch_run_events(
            WatchState::Run { triggered_by_change: t },
            seq![WatchEvent::FsEvent] + burst.push(WatchEvent::DebounceTimeout),
        ) == (WatchState::Run { triggered_by_change: true }),
        watch_count_starts(
            WatchState::Run { triggered_by_change: t },
            seq![WatchEvent::FsEvent] + burst.push(WatchEvent::DebounceTimeout),
        ) == 1,
{
    let evs = seq![WatchEvent::FsEvent] + burst.push(WatchEvent::DebounceTimeout);
    assert(evs[0] == WatchEvent::FsEvent);
    lemma_debounce_coalescing(burst);
    assert(evs.skip(1) =~= burst.push(WatchEvent::DebounceTimeout));
}

} // verus!
