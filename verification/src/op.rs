//! The operation model: outcomes, keywords, the tree of concrete
//! operations, and its validation against the configuration.

use vstd::prelude::*;

pub mod command;
pub mod concurrently;
pub mod copy;
pub mod http;
pub mod run_task;
pub mod watch;
pub mod workdir;

use crate::cfg::{spec_has_task, Config};
use crate::error::Error;
use crate::op::command::{is_blank, str_is_blank, Command};
use crate::op::concurrently::Concurrently;
use crate::op::http::{Http, Reload};
use crate::op::run_task::RunTask;
use crate::op::watch::{OnChange, Watch};
use crate::op::workdir::SetWorkDir;

verus! {

/// Result of executing an operation.
#[derive(Debug, Clone, Copy, PartialEq, Eq, Structural)]
#[must_use]
pub enum Outcome {
    Success,
    Failure,
    Cancelled,
}

impl Outcome {
    /// `Success` is the only successful outcome.
    pub fn is_success(&self) -> (r: bool)
        ensures
            r == (*self == Outcome::Success),
    {
        *self == Outcome::Success
    }

    /// The process exit code an outcome maps to: 0 for success, 1 for
    /// failure, 2 for cancellation.
    pub fn to_exit_code(&self) -> (r: i32)
        ensures
            r == spec_exit_code(*self),
    {
        match self {
            Outcome::Success => 0,
            Outcome::Failure => 1,
            Outcome::Cancelled => 2,
        }
    }
}

/// The exit code mapping, stated once for contracts.
pub open spec fn spec_exit_code(o: Outcome) -> int {
    match o {
        Outcome::Success => 0,
        Outcome::Failure => 1,
        Outcome::Cancelled => 2,
    }
}

/// The one-shot outcome channel of a running operation. An outcome can be
/// put in only while the slot is empty, and nothing ever takes it out
/// again: a running operation emits exactly one outcome.
#[derive(Debug, Clone, Copy, PartialEq, Eq, Structural)]
pub struct OutcomeSlot {
    pub outcome: Option<Outcome>,
}

impl OutcomeSlot {
    /// An empty slot, handed out when the operation starts.
    pub fn new() -> (r: OutcomeSlot)
        ensures
            r.outcome is None,
    {
        OutcomeSlot { outcome: None }
    }

    /// Emits the operation's outcome. Only an operation that has not
    /// emitted yet can do so, so at most one outcome ever lands here.
    pub fn emit(&mut self, outcome: Outcome)
        requires
            old(self).outcome is None,
        ensures
            final(self).outcome == Some(outcome),
    {
        self.outcome = Some(outcome);
    }

    /// What the operation emitted, if anything yet.
    pub fn observed(&self) -> (r: Option<Outcome>)
        ensures
            r == self.outcome,
    {
        self.outcome
    }
}

/// The one-shot cancel signal of a running operation. Requesting
/// cancellation is idempotent: any number of requests leave the signal
/// raised, and it is never lowered again.
#[derive(Debug, Clone, Copy, PartialEq, Eq, Structural)]
pub struct CancelFlag {
    pub requested: bool,
}

impl CancelFlag {
    /// A lowered signal, handed out when the operation starts.
    pub fn new() -> (r: CancelFlag)
        ensures
            !r.requested,
    {
        CancelFlag { requested: false }
    }

    /// Requests cancellation; asking twice changes nothing.
    pub fn request(&mut self)
        ensures
            final(self).requested,
    {
        self.requested = true;
    }

    /// Whether cancellation was requested.
    pub fn is_requested(&self) -> (r: bool)
        ensures
            r == self.requested,
    {
        self.requested
    }
}

/// The keyword of each concrete operation, as used in the configuration.
#[derive(Debug, Clone, Copy, PartialEq, Eq, Structural)]
pub enum OpKeyword {
    Command,
    Copy,
    SetWorkDir,
    Watch,
    OnChange,
    Http,
    Reload,
    RunTask,
    Concurrently,
}

/// The keyword's spelling in the configuration.
pub open spec fn spec_keyword(k: OpKeyword) -> Seq<char> {
    match k {
        OpKeyword::Command => "command"@,
        OpKeyword::Copy => "copy"@,
        OpKeyword::SetWorkDir => "set-workdir"@,
        OpKeyword::Watch => "watch"@,
        OpKeyword::OnChange => "on-change"@,
        OpKeyword::Http => "http"@,
        OpKeyword::Reload => "reload"@,
        OpKeyword::RunTask => "run-task"@,
        OpKeyword::Concurrently => "concurrently"@,
    }
}

/// The spelling of a keyword.
pub fn keyword_str(k: OpKeyword) -> (r: &'static str)
    ensures
        r@ == spec_keyword(k),
{
    match k {
        OpKeyword::Command => "command",
        OpKeyword::Copy => "copy",
        OpKeyword::SetWorkDir => "set-workdir",
        OpKeyword::Watch => "watch",
        OpKeyword::OnChange => "on-change",
        OpKeyword::Http => "http",
        OpKeyword::Reload => "reload",
        OpKeyword::RunTask => "run-task",
        OpKeyword::Concurrently => "concurrently",
    }
}

/// Where an operation stands when it is validated: directly in a task, or
/// nested in another operation.
#[derive(Debug, Clone, Copy, PartialEq, Eq, Structural)]
pub enum ParentKind {
    /// Operation of a task.
    Task,
    /// Suboperation of another operation with the given keyword.
    Operation(OpKeyword),
}

/// One concrete operation of the configuration tree.
#[derive(Debug)]
pub enum Op {
    Command(Command),
    Copy(crate::op::copy::Copy),
    SetWorkDir(SetWorkDir),
    Watch(Watch),
    OnChange(OnChange),
    Http(Http),
    Reload(Reload),
    RunTask(RunTask),
    Concurrently(Concurrently),
}

/// A command specification is valid when the program and every argument
/// have substance.
pub open spec fn spec_command_valid(c: Command) -> bool {
    &&& !is_blank(c.run.program@)
    &&& forall|i: int| 0 <= i < c.run.args@.len() ==> !is_blank(#[trigger] c.run.args@[i]@)
}

/// The validity of an operation at its place in the tree:
/// - a command's program and arguments have substance;
/// - `run-task` refers to an existing task;
/// - `on-change` stands directly under a `watch`, and wraps a valid
///   operation;
/// - `http` sets exactly one of `proxy` and `serve`;
/// - the children of `watch` and `concurrently` are valid at their places;
/// - `copy`, `set-workdir` and `reload` carry no further obligations.
pub open spec fn spec_op_valid(op: Op, parent: ParentKind, config: Config) -> bool
    decreases op,
{
    match op {
        Op::Command(c) => spec_command_valid(c),
        Op::Copy(_) => true,
        Op::SetWorkDir(_) => true,
        Op::Watch(w) => forall|i: int|
            0 <= i < w.run@.len() ==> spec_op_valid(
                #[trigger] w.run@[i],
                ParentKind::Operation(OpKeyword::Watch),
                config,
            ),
        Op::OnChange(oc) => {
            &&& parent == ParentKind::Operation(OpKeyword::Watch)
            &&& spec_op_valid(*oc.0, ParentKind::Operation(OpKeyword::OnChange), config)
        },
        Op::Http(h) => (h.proxy is Some) != (h.serve is Some),
        Op::Reload(_) => true,
        Op::RunTask(t) => spec_has_task(config.tasks@, t.0@),
        Op::Concurrently(c) => forall|i: int|
            0 <= i < c.0@.len() ==> spec_op_valid(
                #[trigger] c.0@[i],
                ParentKind::Operation(OpKeyword::Concurrently),
                config,
            ),
    }
}

impl Op {
    /// The keyword of this operation.
    pub fn keyword(&self) -> (r: OpKeyword)
        ensures
            r == spec_op_keyword(*self),
    {
        match self {
            Op::Command(_) => OpKeyword::Command,
            Op::Copy(_) => OpKeyword::Copy,
            Op::SetWorkDir(_) => OpKeyword::SetWorkDir,
            Op::Watch(_) => OpKeyword::Watch,
            Op::OnChange(_) => OpKeyword::OnChange,
            Op::Http(_) => OpKeyword::Http,
            Op::Reload(_) => OpKeyword::Reload,
            Op::RunTask(_) => OpKeyword::RunTask,
            Op::Concurrently(_) => OpKeyword::Concurrently,
        }
    }

    /// Validates this operation, and everything nested in it, at its place
    /// in the tree. Succeeds exactly on valid operations.
    pub fn validate(&self, parent: ParentKind, config: &Config) -> (r: Result<(), Error>)
        ensures
            r is Ok <==> spec_op_valid(*self, parent, *config),
        decreases *self,
    {
        match self {
            Op::Command(c) => {
                if str_is_blank(c.run.program.as_str()) {
                    return Err(Error::Config(String::from_str("empty command is invalid")));
                }
                let n = c.run.args.len();
                let mut i: usize = 0;
                while i < n
                    invariant
                        *self == Op::Command(*c),
                        i <= n,
                        n == c.run.args@.len(),
                        forall|j: int| 0 <= j < i ==> !is_blank(#[trigger] c.run.args@[j]@),
                    decreases n - i,
                {
                    if str_is_blank(c.run.args[i].as_str()) {
                        proof {
                            assert(is_blank(c.run.args@[i as int]@));
                            assert(!spec_command_valid(*c));
                            assert(spec_op_valid(*self, parent, *config) == spec_command_valid(
                                *c,
                            ));
                        }
                        return Err(
                            Error::Config(
                                String::from_str("segment of command is empty"),
                            ),
                        );
                    }
                    i = i + 1;
                }
                Ok(())
            },
            Op::Copy(_) => Ok(()),
            Op::SetWorkDir(_) => Ok(()),
            Op::Watch(w) => {
                let n = w.run.len();
                let mut i: usize = 0;
                while i < n
                    invariant
                        *self == Op::Watch(*w),
                        i <= n,
                        n == w.run@.len(),
                        forall|j: int|
                            0 <= j < i ==> spec_op_valid(
                                #[trigger] w.run@[j],
                                ParentKind::Operation(OpKeyword::Watch),
                                *config,
                            ),
                    decreases n - i,
                {
                    proof {
                        assert(*w == self->Watch_0);
                        assert(decreases_to!(*self => self->Watch_0.run@[i as int]));
                    }
                    let res = w.run[i].validate(ParentKind::Operation(OpKeyword::Watch), config);
                    if let Err(e) = res {
                        proof {
                            assert(!spec_op_valid(
                                w.run@[i as int],
                                ParentKind::Operation(OpKeyword::Watch),
                                *config,
                            ));
                            assert(!spec_op_valid(*self, parent, *config));
                        }
                        return Err(e);
                    }
                    i = i + 1;
                }
                Ok(())
            },
            Op::OnChange(oc) => {
                match parent {
                    ParentKind::Operation(OpKeyword::Watch) => {
                        proof {
                            assert(decreases_to!(*self => *oc.0));
                        }
                        oc.inner().validate(ParentKind::Operation(OpKeyword::OnChange), config)
                    },
                    _ => Err(
                        Error::Config(
                            String::from_str(
                                "`on-change` operation can only be used in the `run` array of a `watch` operation",
                            ),
                        ),
                    ),
                }
            },
            Op::Http(h) => {
                match (&h.proxy, &h.serve) {
                    (Some(_), None) => Ok(()),
                    (None, Some(_)) => Ok(()),
                    _ => Err(
                        Error::Config(
                            String::from_str(
                                "`http` needs exactly one of `proxy` and `serve`",
                            ),
                        ),
                    ),
                }
            },
            Op::Reload(_) => Ok(()),
            Op::RunTask(t) => {
                if config.has_task(&t.0) {
                    Ok(())
                } else {
                    Err(Error::Config(String::from_str("task does not exist")))
                }
            },
            Op::Concurrently(c) => {
                let n = c.0.len();
                let mut i: usize = 0;
                while i < n
                    invariant
                        *self == Op::Concurrently(*c),
                        i <= n,
                        n == c.0@.len(),
                        forall|j: int|
                            0 <= j < i ==> spec_op_valid(
                                #[trigger] c.0@[j],
                                ParentKind::Operation(OpKeyword::Concurrently),
                                *config,
                            ),
                    decreases n - i,
                {
                    proof {
                        assert(*c == self->Concurrently_0);
                        assert(decreases_to!(*self => self->Concurrently_0.0@[i as int]));
                    }
                    let res = c.0[i].validate(
                        ParentKind::Operation(OpKeyword::Concurrently),
                        config,
                    );
                    if let Err(e) = res {
                        proof {
                            assert(!spec_op_valid(
                                c.0@[i as int],
                                ParentKind::Operation(OpKeyword::Concurrently),
                                *config,
                            ));
                            assert(!spec_op_valid(*self, parent, *config));
                        }
                        return Err(e);
                    }
                    i = i + 1;
                }
                Ok(())
            },
        }
    }
}

/// The keyword of an operation value.
pub open spec fn spec_op_keyword(op: Op) -> OpKeyword {
    match op {
        Op::Command(_) => OpKeyword::Command,
        Op::Copy(_) => OpKeyword::Copy,
        Op::SetWorkDir(_) => OpKeyword::SetWorkDir,
        Op::Watch(_) => OpKeyword::Watch,
        Op::OnChange(_) => OpKeyword::OnChange,
        Op::Http(_) => OpKeyword::Http,
        Op::Reload(_) => OpKeyword::Reload,
        Op::RunTask(_) => OpKeyword::RunTask,
        Op::Concurrently(_) => OpKeyword::Concurrently,
    }
}

} // verus!
