//! Tasks: named, ordered lists of operations, executed sequentially and
//! short-circuiting on the first outcome that is not a success.

use vstd::prelude::*;
use crate::cfg::Config;
use crate::error::Error;
use crate::op::{Op, Outcome, ParentKind};

verus! {

/// A named, ordered list of operations.
#[derive(Debug)]
pub struct Task {
    pub name: String,
    pub operations: Vec<Op>,
}

/// A task is valid when each of its operations is, at its place directly
/// under the task.
pub open spec fn spec_task_valid(t: Task, config: Config) -> bool {
    forall|i: int|
        0 <= i < t.operations@.len() ==> crate::op::spec_op_valid(
            #[trigger] t.operations@[i],
            ParentKind::Task,
            config,
        )
}

impl Task {
    /// Validates each operation the task holds. Succeeds exactly when all
    /// are valid.
    pub fn validate(&self, config: &Config) -> (r: Result<(), Error>)
        ensures
            r is Ok <==> spec_task_valid(*self, *config),
    {
        let n = self.operations.len();
        let mut i: usize = 0;
        while i < n
            invariant
                i <= n,
                n == self.operations@.len(),
                forall|j: int|
                    0 <= j < i ==> crate::op::spec_op_valid(
                        #[trigger] self.operations@[j],
                        ParentKind::Task,
                        *config,
                    ),
            decreases n - i,
        {
            let res = self.operations[i].validate(ParentKind::Task, config);
            if let Err(e) = res {
                return Err(e);
            }
            i = i + 1;
        }
        Ok(())
    }
}

// ===== The task runner's rule ==============================================

/// A task's final outcome: the first of its operations' outcomes that is
/// not a success, else success.
pub open spec fn spec_task_outcome(outs: Seq<Outcome>) -> Outcome
    decreases outs.len(),
{
    if outs.len() == 0 {
        Outcome::Success
    } else if outs[0] != Outcome::Success {
        outs[0]
    } else {
        spec_task_outcome(outs.skip(1))
    }
}

/// What the runner does after observing one operation's outcome: go on to
/// the next operation only on success, else stop with that outcome.
#[derive(Debug, Clone, Copy, PartialEq, Eq, Structural)]
pub enum RunnerDecision {
    Continue,
    Stop(Outcome),
}

/// The short-circuit rule of the task runner.
pub fn after_operation(outcome: Outcome) -> (r: RunnerDecision)
    ensures
        outcome == Outcome::Success <==> r == RunnerDecision::Continue,
        outcome != Outcome::Success <==> r == RunnerDecision::Stop(outcome),
{
    if outcome.is_success() {
        RunnerDecision::Continue
    } else {
        RunnerDecision::Stop(outcome)
    }
}

/// Folds the outcomes the runner observed into the task's outcome.
pub fn task_outcome(outs: &Vec<Outcome>) -> (r: Outcome)
    ensures
        r == spec_task_outcome(outs@),
{
    let n = outs.len();
    let mut i: usize = 0;
    proof {
        assert(outs@.skip(0) =~= outs@);
    }
    while i < n
        invariant
            i <= n,
            n == outs@.len(),
            spec_task_outcome(outs@) == spec_task_outcome(outs@.skip(i as int)),
            forall|j: int| 0 <= j < i ==> outs@[j] == Outcome::Success,
        decreases n - i,
    {
        proof {
            assert(outs@.skip(i as int)[0] == outs@[i as int]);
            assert(outs@.skip(i as int).skip(1) =~= outs@.skip(i as int + 1));
        }
        if !outs[i].is_success() {
            return outs[i];
        }
        i = i + 1;
    }
    proof {
        assert(outs@.skip(n as int) =~= Seq::<Outcome>::empty());
    }
    Outcome::Success
}

/// The task outcome is the first non-success outcome where one exists, and
/// success where none does: stopping at the first non-success loses
/// nothing.
pub proof fn lemma_task_outcome_first_non_success(outs: Seq<Outcome>)
    ensures
        (forall|i: int| 0 <= i < outs.len() ==> outs[i] == Outcome::Success) ==> spec_task_outcome(
            outs,
        ) == Outcome::Success,
        forall|i: int|
            (0 <= i < outs.len() && #[trigger] outs[i] != Outcome::Success && (forall|j: int|
                0 <= j < i ==> outs[j] == Outcome::Success)) ==> spec_task_outcome(outs) == outs[i],
    decreases outs.len(),
{
    if outs.len() > 0 {
        lemma_task_outcome_first_non_success(outs.skip(1));
        if outs[0] == Outcome::Success {
            assert forall|i: int|
                (0 <= i < outs.len() && #[trigger] outs[i] != Outcome::Success && (forall|j: int|
                    0 <= j < i ==> outs[j] == Outcome::Success)) implies spec_task_outcome(outs)
                == outs[i] by {
                assert(i >= 1);
                assert(outs.skip(1)[i - 1] == outs[i]);
                assert(forall|j: int| 0 <= j < i - 1 ==> outs.skip(1)[j] == outs[j + 1]);
            }
            if forall|i: int| 0 <= i < outs.len() ==> outs[i] == Outcome::Success {
                assert(forall|j: int|
                    0 <= j < outs.skip(1).len() ==> outs.skip(1)[j] == outs[j + 1]);
            }
        }
    }
}

} // verus!
