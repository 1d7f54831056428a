//! Steps: the minimal unit of work of the action-based pipeline, with a
//! handle for steps that have been started.

use vstd::prelude::*;
use vstd::string::*;
use crate::error::Error;
use crate::op::command::{is_blank, split_ws, str_is_blank};

verus! {

/// Result of executing a step.
#[derive(Debug, Clone, Copy, PartialEq, Eq, Structural)]
pub enum Outcome {
    Success,
    Failure,
}

/// The outcome of a finished child process: exit status zero is success.
pub fn exit_status_to_outcome(exit_ok: bool) -> (r: Outcome)
    ensures
        r == (if exit_ok {
            Outcome::Success
        } else {
            Outcome::Failure
        }),
{
    if exit_ok {
        Outcome::Success
    } else {
        Outcome::Failure
    }
}

/// A step that has been started and that is potentially already finished.
pub trait RunningStep {
    /// Blocks and runs the step to completion.
    fn finish(&mut self) -> Result<Outcome, Error>;

    /// Returns the outcome when the step is already finished, without
    /// blocking.
    fn try_finish(&mut self) -> Result<Option<Outcome>, Error>;

    /// Cancels the step. Cancelling is idempotent; a finished step ignores
    /// it.
    fn cancel(&mut self) -> Result<(), Error>;
}

/// A running step that finished the moment it started.
#[derive(Debug, Clone, Copy)]
pub struct FinishedStep(pub Outcome);

impl RunningStep for FinishedStep {
    fn finish(&mut self) -> Result<Outcome, Error> {
        Ok(self.0)
    }

    fn try_finish(&mut self) -> Result<Option<Outcome>, Error> {
        Ok(Some(self.0))
    }

    fn cancel(&mut self) -> Result<(), Error> {
        Ok(())
    }
}

/// The `copy` step.
#[derive(Debug)]
pub struct Copy {
    pub src: String,
    pub dst: String,
}

impl Copy {
    /// A copy step carries no further obligations.
    pub fn validate(&self) -> (r: Result<(), Error>)
        ensures
            r is Ok,
    {
        Ok(())
    }
}

/// The `reload` step.
#[derive(Debug, Clone, Copy)]
pub struct Reload;

impl Reload {
    /// A reload step carries no further obligations.
    pub fn validate(&self) -> (r: Result<(), Error>)
        ensures
            r is Ok,
    {
        Ok(())
    }
}

/// An external command: the program with its arguments, and the working
/// directory to run it in.
#[derive(Debug)]
pub struct Command {
    /// The command to run.
    pub run: CommandKind,
    /// What working directory to execute the command in.
    pub workdir: Option<String>,
}

/// Commands are either a single string split at whitespace, or an explicit
/// list for when arguments contain whitespace.
#[derive(Debug)]
pub enum CommandKind {
    /// A single string, split at whitespace boundaries.
    Simple(String),
    /// Program and arguments, spelled out.
    Explicit(Vec<String>),
}

/// A command step is valid when nothing in it is blank.
pub open spec fn spec_step_command_ok(c: Command) -> bool {
    match c.run {
        CommandKind::Simple(s) => !is_blank(s@),
        CommandKind::Explicit(v) => v@.len() > 0 && forall|i: int|
            0 <= i < v@.len() ==> !is_blank(#[trigger] v@[i]@),
    }
}

impl Command {
    /// A command from a single string, with no working directory of its
    /// own.
    pub fn simple(s: &str) -> (r: Command)
        ensures
            r.run matches CommandKind::Simple(t) && t@ == s@,
            r.workdir is None,
    {
        Command { run: CommandKind::Simple(String::from_str(s)), workdir: None }
    }

    /// A command from the explicit form, with no working directory of its
    /// own.
    pub fn explicit(v: Vec<String>) -> (r: Command)
        ensures
            r.run == CommandKind::Explicit(v),
            r.workdir is None,
    {
        Command { run: CommandKind::Explicit(v), workdir: None }
    }

    /// Rejects blank commands and blank segments.
    pub fn validate(&self) -> (r: Result<(), Error>)
        ensures
            r is Ok <==> spec_step_command_ok(*self),
    {
        match &self.run {
            CommandKind::Simple(s) => {
                if str_is_blank(s.as_str()) {
                    Err(Error::Config(String::from_str("empty command is invalid")))
                } else {
                    Ok(())
                }
            },
            CommandKind::Explicit(v) => {
                let n = v.len();
                if n == 0 {
                    return Err(Error::Config(String::from_str("empty command is invalid")));
                }
                let res = check_segments(v);
                proof {
                    assert((self.run matches CommandKind::Explicit(vv) && vv == *v));
                }
                match res {
                    Ok(_) => Ok(()),
                    Err(e) => Err(e),
                }
            },
        }
    }

    /// The program and arguments to hand the operating system.
    pub fn to_program_args(&self) -> (r: (String, Vec<String>))
        requires
            spec_step_command_ok(*self),
        ensures
            match self.run {
                CommandKind::Simple(s) => r.0@ == split_ws(s@)[0] && r.1.deep_view() == split_ws(
                    s@,
                ).skip(1),
                CommandKind::Explicit(v) => r.0 == v@[0] && r.1@ == v@.skip(1),
            },
    {
        match &self.run {
            CommandKind::Simple(s) => {
                proof {
                    crate::op::command::lemma_blank_iff_no_tokens(s@);
                }
                let mut tokens = crate::op::command::split_whitespace_tokens(s.as_str());
                let ghost orig = tokens@;
                let ghost orig_dv = tokens.deep_view();
                let program = tokens.remove(0);
                proof {
                    assert(program@ == orig_dv[0]);
                    assert forall|j: int| 0 <= j < tokens@.len() implies tokens.deep_view()[j]
                        == orig_dv[j + 1] by {
                        assert(tokens@[j] == orig[j + 1]);
                    }
                    assert(tokens.deep_view() =~= orig_dv.skip(1));
                }
                (program, tokens)
            },
            CommandKind::Explicit(v) => {
                let mut parts = crate::op::command::duplicate_strings(v);
                let ghost orig = parts@;
                let program = parts.remove(0);
                proof {
                    assert(parts@ =~= orig.skip(1));
                }
                (program, parts)
            },
        }
    }
}

/// Rejects a list with a blank segment.
fn check_segments(v: &Vec<String>) -> (r: Result<(), Error>)
    ensures
        r is Ok <==> forall|j: int| 0 <= j < v@.len() ==> !is_blank((#[trigger] v@[j])@),
{
    let n = v.len();
    let mut i: usize = 0;
    while i < n
        invariant
            i <= n,
            n == v@.len(),
            forall|j: int| 0 <= j < i ==> !is_blank((#[trigger] v@[j])@),
        decreases n - i,
    {
        if str_is_blank(v[i].as_str()) {
            return Err(
                Error::Config(
                    String::from_str("segment of command is empty (all segments must be non-empty)"),
                ),
            );
        }
        i = i + 1;
    }
    Ok(())
}

} // verus!
