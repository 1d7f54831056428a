//! The `concurrently` operation: runs its children at the same time, fails
//! or cancels as a whole on the first child that does not succeed.

use vstd::prelude::*;
use crate::op::{Op, Outcome};

verus! {

/// The `concurrently` operation: an ordered list of operations run at the
/// same time.
#[derive(Debug)]
pub struct Concurrently(pub Vec<Op>);

/// The states of the coordinator of a `concurrently` operation.
#[derive(Debug, Clone, Copy, PartialEq, Eq, Structural)]
pub enum ConcState {
    /// This many children are still running.
    Waiting { remaining: usize },
    /// The outcome was emitted.
    Done,
}

/// What can wake the coordinator.
#[derive(Debug, Clone, Copy, PartialEq, Eq, Structural)]
pub enum ConcEvent {
    /// One child finished with this outcome.
    ChildOutcome(Outcome),
    /// The whole operation was cancelled.
    Cancel,
}

/// One transition of the coordinator.
#[derive(Debug, Clone, Copy, PartialEq, Eq, Structural)]
pub struct ConcStep {
    pub state: ConcState,
    /// Cancel every child that is still running, before emitting.
    pub cancel_children: bool,
    /// Emit this outcome.
    pub emit: Option<Outcome>,
}

/// Which events can reach the coordinator in which state: children finish
/// only while some are running, and nothing arrives after the outcome.
pub open spec fn conc_admissible(s: ConcState, e: ConcEvent) -> bool {
    &&& s != ConcState::Done
    &&& (e matches ConcEvent::ChildOutcome(_) ==> s matches ConcState::Waiting { remaining }
        && remaining >= 1)
}

/// The transition table of the coordinator: a child's success is counted
/// down, the last one emits success; any other child outcome, and a
/// cancellation, cancel the remaining children and are emitted as the
/// whole operation's outcome.
pub open spec fn spec_conc_step(s: ConcState, e: ConcEvent) -> ConcStep {
    match (s, e) {
        (ConcState::Waiting { remaining }, ConcEvent::ChildOutcome(Outcome::Success)) => {
            if remaining <= 1 {
                ConcStep {
                    state: ConcState::Done,
                    cancel_children: false,
                    emit: Some(Outcome::Success),
                }
            } else {
                ConcStep {
                    state: ConcState::Waiting { remaining: (remaining - 1) as usize },
                    cancel_children: false,
                    emit: None,
                }
            }
        },
        (ConcState::Waiting { .. }, ConcEvent::ChildOutcome(o)) => ConcStep {
            state: ConcState::Done,
            cancel_children: true,
            emit: Some(o),
        },
        (ConcState::Waiting { .. }, ConcEvent::Cancel) => ConcStep {
            state: ConcState::Done,
            cancel_children: true,
            emit: Some(Outcome::Cancelled),
        },
        _ => ConcStep { state: s, cancel_children: false, emit: None },
    }
}

/// One transition of the coordinator.
pub fn conc_step(s: ConcState, e: ConcEvent) -> (r: ConcStep)
    requires
        conc_admissible(s, e),
    ensures
        r == spec_conc_step(s, e),
        // An outcome is emitted exactly on entering the terminal state.
        r.emit is Some <==> r.state == ConcState::Done,
        // The first child outcome that is not a success ends the whole
        // operation with that outcome, after cancelling the siblings.
        forall|o: Outcome|
            (e == ConcEvent::ChildOutcome(o) && o != Outcome::Success) ==> (r.emit == Some(o)
                && r.cancel_children),
        // Cancellation ends the operation with `Cancelled`, after
        // cancelling every child.
        e == ConcEvent::Cancel ==> (r.emit == Some(Outcome::Cancelled) && r.cancel_children),
{
    match (s, e) {
        (ConcState::Waiting { remaining }, ConcEvent::ChildOutcome(Outcome::Success)) => {
            if remaining <= 1 {
                ConcStep {
                    state: ConcState::Done,
                    cancel_children: false,
                    emit: Some(Outcome::Success),
                }
            } else {
                ConcStep {
                    state: ConcState::Waiting { remaining: remaining - 1 },
                    cancel_children: false,
                    emit: None,
                }
            }
        },
        (ConcState::Waiting { remaining: _ }, ConcEvent::ChildOutcome(o)) => ConcStep {
            state: ConcState::Done,
            cancel_children: true,
            emit: Some(o),
        },
        (ConcState::Waiting { remaining: _ }, ConcEvent::Cancel) => ConcStep {
            state: ConcState::Done,
            cancel_children: true,
            emit: Some(Outcome::Cancelled),
        },
        (ConcState::Done, _) => ConcStep { state: s, cancel_children: false, emit: None },
    }
}

// ===== Traces ==============================================================

/// The state after processing the whole event sequence.
pub open spec fn conc_run_events(s: ConcState, evs: Seq<ConcEvent>) -> ConcState
    decreases evs.len(),
{
    if evs.len() == 0 {
        s
    } else {
        conc_run_events(spec_conc_step(s, evs[0]).state, evs.skip(1))
    }
}

/// Every step of the event sequence is admissible from `s`.
pub open spec fn conc_trace_ok(s: ConcState, evs: Seq<ConcEvent>) -> bool
    decreases evs.len(),
{
    evs.len() == 0 || {
        &&& conc_admissible(s, evs[0])
        &&& conc_trace_ok(spec_conc_step(s, evs[0]).state, evs.skip(1))
    }
}

/// How many outcomes the coordinator emits along the event sequence.
pub open spec fn conc_count_emits(s: ConcState, evs: Seq<ConcEvent>) -> nat
    decreases evs.len(),
{
    if evs.len() == 0 {
        0
    } else {
        (if spec_conc_step(s, evs[0]).emit is Some {
            1nat
        } else {
            0nat
        }) + conc_count_emits(spec_conc_step(s, evs[0]).state, evs.skip(1))
    }
}

/// Exactly-one outcome: along any admissible event sequence the
/// coordinator emits at most one outcome, and exactly one precisely when
/// it reaches its terminal state.
pub proof fn lemma_conc_exactly_one_outcome(s: ConcState, evs: Seq<ConcEvent>)
    requires
        s != ConcState::Done,
        conc_trace_ok(s, evs),
    ensures
        conc_count_emits(s, evs) <= 1,
        (conc_count_emits(s, evs) == 1) <==> (conc_run_events(s, evs) == ConcState::Done),
    decreases evs.len(),
{
    if evs.len() > 0 {
        let step = spec_conc_step(s, evs[0]);
        if step.state == ConcState::Done {
            lemma_conc_done_stays(step.state, evs.skip(1));
        } else {
            lemma_conc_exactly_one_outcome(step.state, evs.skip(1));
        }
    }
}

/// From the terminal state no admissible event exists, so nothing further
/// is emitted.
proof fn lemma_conc_done_stays(s: ConcState, evs: Seq<ConcEvent>)
    requires
        s == ConcState::Done,
        conc_trace_ok(s, evs),
    ensures
        evs.len() == 0,
        conc_count_emits(s, evs) == 0,
        conc_run_events(s, evs) == s,
{
}

/// Cancel is total: from any live state, a cancel cancels every child and
/// terminates the operation at once, with `Cancelled` as its one outcome.
pub proof fn lemma_conc_cancel_total(s: ConcState)
    requires
        s != ConcState::Done,
    ensures
        conc_trace_ok(s, seq![ConcEvent::Cancel]),
        conc_run_events(s, seq![ConcEvent::Cancel]) == ConcState::Done,
        conc_count_emits(s, seq![ConcEvent::Cancel]) == 1,
        spec_conc_step(s, ConcEvent::Cancel).emit == Some(Outcome::Cancelled),
        spec_conc_step(s, ConcEvent::Cancel).cancel_children,
{
    let evs = seq![ConcEvent::Cancel];
    assert(evs[0] == ConcEvent::Cancel);
    assert(evs.skip(1) =~= Seq::<ConcEvent>::empty());
    let done = spec_conc_step(s, ConcEvent::Cancel).state;
    assert(done == ConcState::Done);
    assert(conc_trace_ok(done, evs.skip(1)));
    assert(conc_run_events(done, evs.skip(1)) == done);
    assert(conc_count_emits(done, evs.skip(1)) == 0);
}

/// When every one of `n` children succeeds, the coordinator emits exactly
/// one success, and never cancels anyone.
pub proof fn lemma_conc_all_success(n: usize, evs: Seq<ConcEvent>)
    requires
        n >= 1,
        evs.len() == n,
        forall|i: int| 0 <= i < evs.len() ==> evs[i] == ConcEvent::ChildOutcome(Outcome::Success),
    ensures
        conc_trace_ok(ConcState::Waiting { remaining: n }, evs),
        conc_run_events(ConcState::Waiting { remaining: n }, evs) == ConcState::Done,
        conc_count_emits(ConcState::Waiting { remaining: n }, evs) == 1,
    decreases n,
{
    let s = ConcState::Waiting { remaining: n };
    let e = ConcEvent::ChildOutcome(Outcome::Success);
    assert(evs[0] == e);
    let step = spec_conc_step(s, e);
    if n == 1 {
        assert(step.state == ConcState::Done);
        assert(evs.skip(1) =~= Seq::<ConcEvent>::empty());
        assert(conc_trace_ok(step.state, evs.skip(1)));
        assert(conc_run_events(step.state, evs.skip(1)) == ConcState::Done);
        assert(conc_count_emits(step.state, evs.skip(1)) == 0);
    } else {
        assert(step.state == ConcState::Waiting { remaining: (n - 1) as usize });
        assert(forall|i: int|
            0 <= i < evs.skip(1).len() ==> #[trigger] evs.skip(1)[i] == evs[i + 1]);
        lemma_conc_all_success((n - 1) as usize, evs.skip(1));
    }
}

} // verus!
