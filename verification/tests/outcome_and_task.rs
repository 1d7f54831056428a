use watchboi::op::{CancelFlag, Outcome, OutcomeSlot};
use watchboi::task::{after_operation, task_outcome, RunnerDecision, Task};

use watchboi::cfg::Config;
use watchboi::op::command::Command;
use watchboi::op::Op;
#[test]
fn success_is_the_only_successful_outcome() {
    assert!(Outcome::Success.is_success());
    assert!(!Outcome::Failure.is_success());
    assert!(!Outcome::Cancelled.is_success());
}

#[test]
fn exit_codes_are_zero_one_two() {
    assert_eq!(Outcome::Success.to_exit_code(), 0);
    assert_eq!(Outcome::Failure.to_exit_code(), 1);
    assert_eq!(Outcome::Cancelled.to_exit_code(), 2);
}

#[test]
fn single_successful_command_task_succeeds() {
    // A task of one succeeding operation ends in success, exit code 0.
    let outs = vec![Outcome::Success];
    let total = task_outcome(&outs);
    assert_eq!(total, Outcome::Success);
    assert_eq!(total.to_exit_code(), 0);
}

#[test]
fn failure_short_circuits_the_task() {
    // The second operation never runs: the runner stops on the failure.
    assert_eq!(after_operation(Outcome::Failure), RunnerDecision::Stop(Outcome::Failure));
    let outs = vec![Outcome::Failure];
    let total = task_outcome(&outs);
    assert_eq!(total, Outcome::Failure);
    assert_eq!(total.to_exit_code(), 1);
}

#[test]
fn runner_continues_only_on_success() {
    assert_eq!(after_operation(Outcome::Success), RunnerDecision::Continue);
    assert_eq!(
        after_operation(Outcome::Cancelled),
        RunnerDecision::Stop(Outcome::Cancelled)
    );
}

#[test]
fn first_non_success_wins() {
    let outs = vec![
        Outcome::Success,
        Outcome::Cancelled,
        Outcome::Failure,
    ];
    assert_eq!(task_outcome(&outs), Outcome::Cancelled);
}

#[test]
fn empty_task_succeeds() {
    let outs: Vec<Outcome> = Vec::new();
    assert_eq!(task_outcome(&outs), Outcome::Success);
}

#[test]
fn task_validate_accepts_plain_commands() {
    let cmd = Command::from_simple("true").unwrap();
    let task = Task { name: String::from("default"), operations: vec![Op::Command(cmd)] };
    let config = Config { tasks: vec![task] };
    assert!(config.validate().is_ok());
}

#[test]
fn outcome_slot_holds_exactly_one_outcome() {
    let mut slot = OutcomeSlot::new();
    assert_eq!(slot.observed(), None);
    slot.emit(Outcome::Cancelled);
    assert_eq!(slot.observed(), Some(Outcome::Cancelled));

    let mut cancel = CancelFlag::new();
    assert!(!cancel.is_requested());
    cancel.request();
    cancel.request(); // idempotent
    assert!(cancel.is_requested());
}
