//! The `command` operation: splitting and validating command
//! specifications, resolving the working directory for the child process,
//! and the supervision state machine that polls the child with exponential
//! backoff and kills it on cancellation.

use vstd::prelude::*;
use vstd::string::*;
use crate::context::{spec_closest_workdir, spec_join_workdir, Context};
use crate::op::Outcome;

verus! {

// ===== Whitespace splitting ================================================

/// The whitespace characters recognized when splitting a command string.
pub open spec fn is_space(c: char) -> bool {
    c == ' ' || c == '\t' || c == '\n' || c == '\r' || c == '\u{b}' || c == '\u{c}'
}

/// A string with nothing but whitespace in it (or nothing at all).
pub open spec fn is_blank(s: Seq<char>) -> bool {
    forall|i: int| 0 <= i < s.len() ==> is_space(#[trigger] s[i])
}

/// Splitting at whitespace, with the token collected so far: every maximal
/// run of non-whitespace characters becomes one token.
pub open spec fn split_ws_acc(s: Seq<char>, cur: Seq<char>) -> Seq<Seq<char>>
    decreases s.len(),
{
    if s.len() == 0 {
        if cur.len() == 0 {
            Seq::empty()
        } else {
            seq![cur]
        }
    } else if is_space(s[0]) {
        if cur.len() == 0 {
            split_ws_acc(s.skip(1), Seq::empty())
        } else {
            seq![cur] + split_ws_acc(s.skip(1), Seq::empty())
        }
    } else {
        split_ws_acc(s.skip(1), cur.push(s[0]))
    }
}

/// The whitespace-separated tokens of a string.
pub open spec fn split_ws(s: Seq<char>) -> Seq<Seq<char>> {
    split_ws_acc(s, Seq::empty())
}

/// Whether `c` is recognized as whitespace.
pub fn is_space_char(c: char) -> (r: bool)
    ensures
        r == is_space(c),
{
    c == ' ' || c == '\t' || c == '\n' || c == '\r' || c == '\u{b}' || c == '\u{c}'
}

/// Splits a string into its whitespace-separated tokens.
pub fn split_whitespace_tokens(s: &str) -> (out: Vec<String>)
    ensures
        out.deep_view() == split_ws(s@),
{
    let n = s.unicode_len();
    let mut out: Vec<String> = Vec::new();
    let mut i: usize = 0;
    let mut in_token = false;
    let mut tok_start: usize = 0;
    proof {
        assert(s@.skip(0) =~= s@);
        assert(out.deep_view() =~= Seq::<Seq<char>>::empty());
    }
    while i < n
        invariant
            i <= n,
            n == s@.len(),
            in_token ==> tok_start < i,
            split_ws(s@) == out.deep_view() + split_ws_acc(
                s@.skip(i as int),
                if in_token {
                    s@.subrange(tok_start as int, i as int)
                } else {
                    Seq::<char>::empty()
                },
            ),
        decreases n - i,
    {
        let c = s.get_char(i);
        let ghost rest = s@.skip(i as int);
        proof {
            assert(rest[0] == s@[i as int]);
            assert(rest.skip(1) =~= s@.skip(i as int + 1));
        }
        if in_token {
            if is_space_char(c) {
                let tok = String::from_str(s.substring_char(tok_start, i));
                let ghost dv = out.deep_view();
                let ghost cur = s@.subrange(tok_start as int, i as int);
                proof {
                    assert(split_ws_acc(rest, cur) == seq![cur] + split_ws_acc(
                        rest.skip(1),
                        Seq::<char>::empty(),
                    ));
                }
                out.push(tok);
                proof {
                    assert(out.deep_view() =~= dv.push(cur));
                    assert(dv + (seq![cur] + split_ws_acc(rest.skip(1), Seq::<char>::empty()))
                        =~= dv.push(cur) + split_ws_acc(rest.skip(1), Seq::<char>::empty()));
                }
                in_token = false;
            } else {
                proof {
                    let cur = s@.subrange(tok_start as int, i as int);
                    assert(cur.push(s@[i as int]) =~= s@.subrange(tok_start as int, i as int + 1));
                }
            }
        } else {
            if !is_space_char(c) {
                tok_start = i;
                in_token = true;
                proof {
                    assert(Seq::<char>::empty().push(s@[i as int]) =~= s@.subrange(
                        i as int,
                        i as int + 1,
                    ));
                }
            }
        }
        i = i + 1;
    }
    proof {
        assert(s@.skip(n as int) =~= Seq::<char>::empty());
    }
    if in_token {
        let tok = String::from_str(s.substring_char(tok_start, n));
        let ghost dv = out.deep_view();
        let ghost cur = s@.subrange(tok_start as int, n as int);
        proof {
            assert(split_ws_acc(Seq::<char>::empty(), cur) == seq![cur]);
        }
        out.push(tok);
        proof {
            assert(out.deep_view() =~= dv.push(cur));
            assert(dv + seq![cur] =~= dv.push(cur));
        }
    } else {
        proof {
            assert(out.deep_view() + Seq::<Seq<char>>::empty() =~= out.deep_view());
        }
    }
    out
}

/// A blank string yields no tokens, and a string with any non-whitespace
/// character yields at least one.
pub proof fn lemma_blank_iff_no_tokens(s: Seq<char>)
    ensures
        is_blank(s) <==> split_ws(s).len() == 0,
{
    lemma_blank_iff_no_tokens_acc(s);
}

/// Helper: with an empty accumulator, tokens appear exactly when a
/// non-whitespace character does.
proof fn lemma_blank_iff_no_tokens_acc(s: Seq<char>)
    ensures
        is_blank(s) <==> split_ws_acc(s, Seq::empty()).len() == 0,
    decreases s.len(),
{
    if s.len() == 0 {
    } else if is_space(s[0]) {
        lemma_blank_iff_no_tokens_acc(s.skip(1));
        if is_blank(s.skip(1)) {
            assert forall|i: int| 0 <= i < s.len() implies is_space(#[trigger] s[i]) by {
                if i > 0 {
                    assert(s.skip(1)[i - 1] == s[i]);
                }
            }
            assert(is_blank(s));
        }
        if is_blank(s) {
            assert forall|j: int| 0 <= j < s.skip(1).len() implies is_space(
                #[trigger] s.skip(1)[j],
            ) by {
                assert(s.skip(1)[j] == s[j + 1]);
            }
            assert(is_blank(s.skip(1)));
        }
    } else {
        lemma_nonempty_acc_yields_token(s.skip(1), Seq::<char>::empty().push(s[0]));
        assert(!is_blank(s));
    }
}

/// Every token of a split is a run of non-whitespace characters: none is
/// blank, so a command built from a split always passes validation.
pub proof fn lemma_tokens_not_blank(s: Seq<char>)
    ensures
        forall|i: int| 0 <= i < split_ws(s).len() ==> !is_blank(#[trigger] split_ws(s)[i]),
{
    lemma_tokens_not_blank_acc(s, Seq::empty());
}

/// Helper: with an accumulator free of whitespace, every token that comes
/// out is free of whitespace and non-empty.
proof fn lemma_tokens_not_blank_acc(s: Seq<char>, cur: Seq<char>)
    requires
        forall|j: int| 0 <= j < cur.len() ==> !is_space(#[trigger] cur[j]),
    ensures
        forall|i: int|
            0 <= i < split_ws_acc(s, cur).len() ==> !is_blank(#[trigger] split_ws_acc(s, cur)[i]),
    decreases s.len(),
{
    if s.len() == 0 {
        if cur.len() > 0 {
            assert(split_ws_acc(s, cur)[0] == cur);
            assert(is_blank(cur) ==> is_space(cur[0]));
            assert(!is_blank(cur));
        }
    } else if is_space(s[0]) {
        lemma_tokens_not_blank_acc(s.skip(1), Seq::empty());
        if cur.len() == 0 {
            assert(split_ws_acc(s, cur) == split_ws_acc(s.skip(1), Seq::<char>::empty()));
        }
        if cur.len() > 0 {
            let toks = split_ws_acc(s, cur);
            let rest = split_ws_acc(s.skip(1), Seq::<char>::empty());
            assert(toks == seq![cur] + rest);
            assert(is_blank(cur) ==> is_space(cur[0]));
            assert forall|i: int| 0 <= i < toks.len() implies !is_blank(#[trigger] toks[i]) by {
                if i == 0 {
                    assert(toks[0] == cur);
                } else {
                    assert(toks[i] == rest[i - 1]);
                }
            }
        }
    } else {
        let pushed = cur.push(s[0]);
        assert forall|j: int| 0 <= j < pushed.len() implies !is_space(#[trigger] pushed[j]) by {
            if j < cur.len() {
                assert(pushed[j] == cur[j]);
            } else {
                assert(pushed[j] == s[0]);
            }
        }
        lemma_tokens_not_blank_acc(s.skip(1), pushed);
        assert(split_ws_acc(s, cur) == split_ws_acc(s.skip(1), pushed));
    }
}

/// Helper: once a token has begun it is produced, whatever follows.
proof fn lemma_nonempty_acc_yields_token(s: Seq<char>, cur: Seq<char>)
    requires
        cur.len() > 0,
    ensures
        split_ws_acc(s, cur).len() >= 1,
    decreases s.len(),
{
    if s.len() == 0 {
    } else if is_space(s[0]) {
    } else {
        lemma_nonempty_acc_yields_token(s.skip(1), cur.push(s[0]));
    }
}

// ===== Command specifications ==============================================

/// Whether any character of the string is whitespace.
pub open spec fn has_space(s: Seq<char>) -> bool {
    exists|i: int| 0 <= i < s.len() && is_space(s[i])
}

/// How one part of a command is shown: quoted when it contains
/// whitespace, bare otherwise.
pub open spec fn spec_quoted(s: Seq<char>) -> Seq<char> {
    if has_space(s) {
        seq!['"'] + s + seq!['"']
    } else {
        s
    }
}

/// How a whole command is shown: its parts, each quoted as needed,
/// separated by single spaces.
pub open spec fn spec_display_parts(parts: Seq<Seq<char>>) -> Seq<char>
    decreases parts.len(),
{
    if parts.len() == 0 {
        Seq::empty()
    } else if parts.len() == 1 {
        spec_quoted(parts[0])
    } else {
        spec_display_parts(parts.drop_last()) + seq![' '] + spec_quoted(parts.last())
    }
}

/// Whether the string holds any whitespace character.
pub fn str_has_space(s: &str) -> (r: bool)
    ensures
        r == has_space(s@),
{
    let n = s.unicode_len();
    let mut i: usize = 0;
    while i < n
        invariant
            i <= n,
            n == s@.len(),
            forall|j: int| 0 <= j < i ==> !is_space(s@[j]),
        decreases n - i,
    {
        if is_space_char(s.get_char(i)) {
            return true;
        }
        i = i + 1;
    }
    false
}

/// Appends one command part, quoted when it contains whitespace.
pub(crate) fn push_quoted(out: &mut String, part: &str)
    ensures
        final(out)@ == old(out)@ + spec_quoted(part@),
{
    proof {
        reveal_strlit("\"");
        assert("\""@ =~= seq!['"']);
    }
    if str_has_space(part) {
        out.append("\"");
        out.append(part);
        out.append("\"");
        proof {
            assert(out@ =~= old(out)@ + spec_quoted(part@));
        }
    } else {
        out.append(part);
    }
}

/// A program and its arguments, the normal form of both wire forms of a
/// command specification.
#[derive(Debug, Clone)]
pub struct ProgramAndArgs {
    /// The program to run.
    pub program: String,
    /// Arguments for the program.
    pub args: Vec<String>,
}

impl ProgramAndArgs {
    /// Builds the normal form from a single command string, split at
    /// whitespace. A blank string is rejected.
    pub fn from_simple(s: &str) -> (r: Result<ProgramAndArgs, crate::error::Error>)
        ensures
            r is Err <==> split_ws(s@).len() == 0,
            r matches Ok(p) ==> {
                &&& p.program@ == split_ws(s@)[0]
                &&& p.args.deep_view() == split_ws(s@).skip(1)
            },
    {
        let mut tokens = split_whitespace_tokens(s);
        if tokens.len() == 0 {
            proof {
                assert(tokens.deep_view() =~= Seq::<Seq<char>>::empty());
            }
            return Err(crate::error::Error::Config(String::from_str("command string is empty")));
        }
        let ghost orig = tokens@;
        let ghost orig_dv = tokens.deep_view();
        let program = tokens.remove(0);
        proof {
            assert(orig_dv.len() == orig.len());
            assert(program@ == orig_dv[0]);
            assert forall|j: int| 0 <= j < tokens@.len() implies tokens.deep_view()[j]
                == orig_dv[j + 1] by {
                assert(tokens@[j] == orig[j + 1]);
            }
            assert(tokens.deep_view() =~= orig_dv.skip(1));
        }
        Ok(ProgramAndArgs { program, args: tokens })
    }

    /// Builds the normal form from an explicit list: the first element is
    /// the program, the rest are arguments. An empty list and a blank
    /// element are rejected.
    pub fn from_explicit(v: Vec<String>) -> (r: Result<ProgramAndArgs, crate::error::Error>)
        ensures
            r is Err <==> (v@.len() == 0 || exists|i: int|
                0 <= i < v@.len() && is_blank(#[trigger] v@[i]@)),
            r matches Ok(p) ==> {
                &&& p.program == v@[0]
                &&& p.args@ == v@.skip(1)
            },
    {
        let n = v.len();
        if n == 0 {
            return Err(
                crate::error::Error::Config(
                    String::from_str("empty list as command specification"),
                ),
            );
        }
        let mut i: usize = 0;
        while i < n
            invariant
                i <= n,
                n == v@.len(),
                forall|j: int| 0 <= j < i ==> !is_blank(#[trigger] v@[j]@),
            decreases n - i,
        {
            if str_is_blank(v[i].as_str()) {
                return Err(
                    crate::error::Error::Config(
                        String::from_str("empty fragment in command specification"),
                    ),
                );
            }
            i = i + 1;
        }
        let mut rest = v;
        let ghost orig = rest@;
        let program = rest.remove(0);
        proof {
            assert(rest@ =~= orig.skip(1));
        }
        Ok(ProgramAndArgs { program, args: rest })
    }
}

/// Whether the string is blank: empty or nothing but whitespace.
pub fn str_is_blank(s: &str) -> (r: bool)
    ensures
        r == is_blank(s@),
{
    let n = s.unicode_len();
    let mut i: usize = 0;
    while i < n
        invariant
            i <= n,
            n == s@.len(),
            forall|j: int| 0 <= j < i ==> is_space(#[trigger] s@[j]),
        decreases n - i,
    {
        if !is_space_char(s.get_char(i)) {
            return false;
        }
        i = i + 1;
    }
    true
}

/// The `command` operation: a program with arguments and an optional
/// working directory, relative to the context's.
#[derive(Debug, Clone)]
pub struct Command {
    pub run: ProgramAndArgs,
    /// What working directory to execute the command in.
    pub workdir: Option<String>,
}

impl Command {
    /// A command from a single string, split at whitespace. What it builds
    /// always passes validation: tokens are never blank.
    pub fn from_simple(s: &str) -> (r: Result<Command, crate::error::Error>)
        ensures
            r is Err <==> split_ws(s@).len() == 0,
            r matches Ok(c) ==> {
                &&& c.run.program@ == split_ws(s@)[0]
                &&& c.run.args.deep_view() == split_ws(s@).skip(1)
                &&& c.workdir is None
                &&& crate::op::spec_command_valid(c)
            },
    {
        match ProgramAndArgs::from_simple(s) {
            Ok(run) => {
                proof {
                    lemma_tokens_not_blank(s@);
                    assert(run.args.deep_view() == split_ws(s@).skip(1));
                    assert(run.args.deep_view().len() == run.args@.len());
                    assert(!is_blank(run.program@));
                    assert forall|i: int| 0 <= i < run.args@.len() implies !is_blank(
                        #[trigger] run.args@[i]@,
                    ) by {
                        assert(run.args@[i]@ == run.args.deep_view()[i]);
                        assert(split_ws(s@).skip(1)[i] == split_ws(s@)[i + 1]);
                        assert(!is_blank(split_ws(s@)[i + 1]));
                    }
                }
                Ok(Command { run, workdir: None })
            },
            Err(e) => Err(e),
        }
    }

    /// A command from the explicit list form. What it builds always passes
    /// validation: blank segments were already rejected.
    pub fn from_explicit(v: Vec<String>) -> (r: Result<Command, crate::error::Error>)
        ensures
            r is Err <==> (v@.len() == 0 || exists|i: int|
                0 <= i < v@.len() && is_blank(#[trigger] v@[i]@)),
            r matches Ok(c) ==> {
                &&& c.run.program == v@[0]
                &&& c.run.args@ == v@.skip(1)
                &&& c.workdir is None
                &&& crate::op::spec_command_valid(c)
            },
    {
        match ProgramAndArgs::from_explicit(v) {
            Ok(run) => {
                proof {
                    assert(!is_blank(run.program@));
                    assert forall|i: int| 0 <= i < run.args@.len() implies !is_blank(
                        #[trigger] run.args@[i]@,
                    ) by {
                        assert(run.args@[i] == v@[i + 1]);
                    }
                }
                Ok(Command { run, workdir: None })
            },
            Err(e) => Err(e),
        }
    }

    /// How this command is shown in terminal messages: program and
    /// arguments separated by spaces, each quoted when it contains
    /// whitespace.
    pub fn display_string(&self) -> (r: String)
        ensures
            r@ == spec_display_parts(seq![self.run.program@] + self.run.args.deep_view()),
    {
        proof {
            reveal_strlit(" ");
            assert(" "@ =~= seq![' ']);
        }
        let ghost parts = seq![self.run.program@] + self.run.args.deep_view();
        let mut out = String::new();
        push_quoted(&mut out, self.run.program.as_str());
        proof {
            assert(parts.take(1).drop_last() =~= Seq::<Seq<char>>::empty());
            assert(parts.take(1)[0] == self.run.program@);
            assert(out@ =~= spec_display_parts(parts.take(1)));
        }
        let n = self.run.args.len();
        let mut i: usize = 0;
        while i < n
            invariant
                i <= n,
                n == self.run.args@.len(),
                parts == seq![self.run.program@] + self.run.args.deep_view(),
                parts.len() == n + 1,
                out@ == spec_display_parts(parts.take(i + 1)),
            decreases n - i,
        {
            proof {
                reveal_strlit(" ");
                assert(" "@ =~= seq![' ']);
            }
            out.append(" ");
            push_quoted(&mut out, self.run.args[i].as_str());
            proof {
                assert(parts.take(i + 2).drop_last() =~= parts.take(i + 1));
                assert(parts[i + 1] == self.run.args.deep_view()[i as int]);
                assert(parts.take(i + 2).last() == self.run.args.deep_view()[i as int]);
                assert(out@ =~= spec_display_parts(parts.take(i + 2)));
            }
            i = i + 1;
        }
        proof {
            assert(parts.take(n + 1) =~= parts);
        }
        out
    }

    /// Everything the runtime needs to spawn the child process: the
    /// program, its arguments, and the resolved working directory — the
    /// command's own `workdir` joined per the path rules where it has one,
    /// else the closest `WorkDir` variable.
    pub fn spawn_plan(&self, ctx: &Context) -> (r: SpawnPlan)
        requires
            ctx.wf(),
        ensures
            r.program == self.run.program,
            r.args@ == self.run.args@,
            match self.workdir {
                Some(w) => r.cwd@ == spec_join_workdir(ctx.frames@, w@),
                None => r.cwd@ == spec_closest_workdir(ctx.frames@),
            },
    {
        let cwd = match &self.workdir {
            Some(w) => ctx.join_workdir(w.as_str()),
            None => ctx.workdir(),
        };
        SpawnPlan {
            program: self.run.program.clone(),
            args: duplicate_strings(&self.run.args),
            cwd,
        }
    }
}

/// What to hand the operating system to start the child process.
#[derive(Debug, Clone)]
pub struct SpawnPlan {
    pub program: String,
    pub args: Vec<String>,
    pub cwd: String,
}

/// An exact copy of a list of strings.
pub fn duplicate_strings(v: &Vec<String>) -> (r: Vec<String>)
    ensures
        r@ == v@,
{
    let n = v.len();
    let mut out: Vec<String> = Vec::new();
    let mut i: usize = 0;
    while i < n
        invariant
            i <= n,
            n == v@.len(),
            out@ == v@.take(i as int),
        decreases n - i,
    {
        out.push(v[i].clone());
        proof {
            assert(out@ =~= v@.take(i + 1));
        }
        i = i + 1;
    }
    proof {
        assert(out@ =~= v@);
    }
    out
}

/// The outcome of a finished child: exit status zero is success, anything
/// else is failure.
pub fn exit_status_to_outcome(exit_ok: bool) -> (r: Outcome)
    ensures
        r == (if exit_ok {
            Outcome::Success
        } else {
            Outcome::Failure
        }),
{
    if exit_ok {
        Outcome::Success
    } else {
        Outcome::Failure
    }
}

// ===== Child-process supervision ===========================================

/// The first polling sleep, in microseconds.
pub const POLL_START_US: u64 = 100;

/// The longest polling sleep, in microseconds.
pub const POLL_CAP_US: u64 = 20000;

/// The next polling sleep: doubled, capped.
pub open spec fn spec_next_backoff(b: u64) -> u64 {
    if 2 * b <= POLL_CAP_US {
        (2 * b) as u64
    } else {
        POLL_CAP_US
    }
}

/// Doubles the polling sleep up to the cap.
pub fn next_backoff(b: u64) -> (r: u64)
    ensures
        r == spec_next_backoff(b),
{
    if b <= POLL_CAP_US / 2 {
        2 * b
    } else {
        POLL_CAP_US
    }
}

/// The states of the supervisor of one child process.
#[derive(Debug, Clone, Copy, PartialEq, Eq, Structural)]
pub enum SupervisorState {
    /// The child runs; the supervisor wakes every `backoff_us`.
    Polling { backoff_us: u64 },
    /// Cancellation arrived; the kill signal was sent and the supervisor
    /// waits for the child to be reaped.
    Killing,
    /// The outcome was emitted.
    Done,
}

/// What can wake the supervisor.
#[derive(Debug, Clone, Copy, PartialEq, Eq, Structural)]
pub enum SupervisorEvent {
    /// A poll found the child exited, with this status.
    Exited { exit_ok: bool },
    /// A poll found the child still running.
    StillRunning,
    /// The operation was cancelled.
    Cancel,
    /// The killed child was reaped.
    Reaped,
}

/// One transition of the supervisor: the next state and the actions the
/// runtime must perform.
#[derive(Debug, Clone, Copy, PartialEq, Eq, Structural)]
pub struct SupervisorStep {
    pub state: SupervisorState,
    /// Send the kill signal to the child.
    pub kill: bool,
    /// Sleep this long before the next poll, in microseconds.
    pub sleep_us: Option<u64>,
    /// Emit this outcome.
    pub emit: Option<Outcome>,
}

/// Which events can reach the supervisor in which state.
pub open spec fn supervisor_admissible(s: SupervisorState, e: SupervisorEvent) -> bool {
    &&& s != SupervisorState::Done
    &&& ((e matches SupervisorEvent::Exited { .. } || e == SupervisorEvent::StillRunning)
        ==> s matches SupervisorState::Polling { .. })
    &&& (e == SupervisorEvent::Reaped ==> s == SupervisorState::Killing)
}

/// The transition table of the supervisor.
pub open spec fn spec_supervisor_step(s: SupervisorState, e: SupervisorEvent) -> SupervisorStep {
    match (s, e) {
        (SupervisorState::Polling { .. }, SupervisorEvent::Exited { exit_ok }) => SupervisorStep {
            state: SupervisorState::Done,
            kill: false,
            sleep_us: None,
            emit: Some(
                if exit_ok {
                    Outcome::Success
                } else {
                    Outcome::Failure
                },
            ),
        },
        (SupervisorState::Polling { backoff_us }, SupervisorEvent::StillRunning) => SupervisorStep {
            state: SupervisorState::Polling { backoff_us: spec_next_backoff(backoff_us) },
            kill: false,
            sleep_us: Some(backoff_us),
            emit: None,
        },
        (SupervisorState::Polling { .. }, SupervisorEvent::Cancel) => SupervisorStep {
            state: SupervisorState::Killing,
            kill: true,
            sleep_us: None,
            emit: None,
        },
        (SupervisorState::Killing, SupervisorEvent::Cancel) => SupervisorStep {
            state: SupervisorState::Killing,
            kill: false,
            sleep_us: None,
            emit: None,
        },
        (SupervisorState::Killing, SupervisorEvent::Reaped) => SupervisorStep {
            state: SupervisorState::Done,
            kill: false,
            sleep_us: None,
            emit: Some(Outcome::Cancelled),
        },
        _ => SupervisorStep { state: s, kill: false, sleep_us: None, emit: None },
    }
}

/// One transition of the supervisor.
pub fn supervisor_step(s: SupervisorState, e: SupervisorEvent) -> (r: SupervisorStep)
    requires
        supervisor_admissible(s, e),
    ensures
        r == spec_supervisor_step(s, e),
        // An outcome is emitted exactly on entering the terminal state.
        r.emit is Some <==> r.state == SupervisorState::Done,
        // A child that exited maps exit status zero to success.
        (e matches SupervisorEvent::Exited { exit_ok } ==> r.emit == Some(
            if exit_ok {
                Outcome::Success
            } else {
                Outcome::Failure
            },
        )),
        // Cancellation kills the child at once (and only then), and a reaped
        // child of a cancelled command yields `Cancelled`.
        r.kill <==> (e == SupervisorEvent::Cancel && s matches SupervisorState::Polling { .. }),
        e == SupervisorEvent::Reaped ==> r.emit == Some(Outcome::Cancelled),
{
    match (s, e) {
        (SupervisorState::Polling { backoff_us: _ }, SupervisorEvent::Exited { exit_ok }) => {
            SupervisorStep {
                state: SupervisorState::Done,
                kill: false,
                sleep_us: None,
                emit: Some(exit_status_to_outcome(exit_ok)),
            }
        },
        (SupervisorState::Polling { backoff_us }, SupervisorEvent::StillRunning) => {
            SupervisorStep {
                state: SupervisorState::Polling { backoff_us: next_backoff(backoff_us) },
                kill: false,
                sleep_us: Some(backoff_us),
                emit: None,
            }
        },
        (SupervisorState::Polling { backoff_us: _ }, SupervisorEvent::Cancel) => SupervisorStep {
            state: SupervisorState::Killing,
            kill: true,
            sleep_us: None,
            emit: None,
        },
        (SupervisorState::Killing, SupervisorEvent::Cancel) => SupervisorStep {
            state: SupervisorState::Killing,
            kill: false,
            sleep_us: None,
            emit: None,
        },
        (SupervisorState::Killing, SupervisorEvent::Reaped) => SupervisorStep {
            state: SupervisorState::Done,
            kill: false,
            sleep_us: None,
            emit: Some(Outcome::Cancelled),
        },
        _ => SupervisorStep { state: s, kill: false, sleep_us: None, emit: None },
    }
}

/// The state the supervisor starts in: polling with the shortest sleep.
pub fn supervisor_initial_state() -> (r: SupervisorState)
    ensures
        r == (SupervisorState::Polling { backoff_us: POLL_START_US }),
{
    SupervisorState::Polling { backoff_us: POLL_START_US }
}

/// The sleeps a supervisor asks for never leave `[POLL_START_US,
/// POLL_CAP_US]` once it starts from the initial state: the backoff
/// doubles but is capped.
pub proof fn lemma_backoff_bounded(b: u64)
    requires
        POLL_START_US <= b <= POLL_CAP_US,
    ensures
        POLL_START_US <= spec_next_backoff(b) <= POLL_CAP_US,
{
}

// ===== Supervisor traces ===================================================

/// Every step of the event sequence is admissible from `s`.
pub open spec fn supervisor_trace_ok(s: SupervisorState, evs: Seq<SupervisorEvent>) -> bool
    decreases evs.len(),
{
    evs.len() == 0 || {
        &&& supervisor_admissible(s, evs[0])
        &&& supervisor_trace_ok(spec_supervisor_step(s, evs[0]).state, evs.skip(1))
    }
}

/// The state after processing the whole event sequence.
pub open spec fn supervisor_run_events(s: SupervisorState, evs: Seq<SupervisorEvent>)
    -> SupervisorState
    decreases evs.len(),
{
    if evs.len() == 0 {
        s
    } else {
        supervisor_run_events(spec_supervisor_step(s, evs[0]).state, evs.skip(1))
    }
}

/// How many outcomes the supervisor emits along the event sequence.
pub open spec fn supervisor_count_emits(s: SupervisorState, evs: Seq<SupervisorEvent>) -> nat
    decreases evs.len(),
{
    if evs.len() == 0 {
        0
    } else {
        (if spec_supervisor_step(s, evs[0]).emit is Some {
            1nat
        } else {
            0nat
        }) + supervisor_count_emits(spec_supervisor_step(s, evs[0]).state, evs.skip(1))
    }
}

/// Exactly-one outcome: along any admissible event sequence the supervisor
/// emits at most one outcome, and exactly one precisely when it reaches its
/// terminal state.
pub proof fn lemma_supervisor_exactly_one_outcome(s: SupervisorState, evs: Seq<SupervisorEvent>)
    requires
        s != SupervisorState::Done,
        supervisor_trace_ok(s, evs),
    ensures
        supervisor_count_emits(s, evs) <= 1,
        (supervisor_count_emits(s, evs) == 1) <==> (supervisor_run_events(s, evs)
            == SupervisorState::Done),
    decreases evs.len(),
{
    if evs.len() > 0 {
        let step = spec_supervisor_step(s, evs[0]);
        if step.state == SupervisorState::Done {
            lemma_supervisor_done_stays(step.state, evs.skip(1));
        } else {
            lemma_supervisor_exactly_one_outcome(step.state, evs.skip(1));
        }
    }
}

/// From the terminal state no admissible event exists, so nothing further
/// is emitted.
proof fn lemma_supervisor_done_stays(s: SupervisorState, evs: Seq<SupervisorEvent>)
    requires
        s == SupervisorState::Done,
        supervisor_trace_ok(s, evs),
    ensures
        evs.len() == 0,
        supervisor_count_emits(s, evs) == 0,
        supervisor_run_events(s, evs) == s,
{
}

/// Cancel is total for a command: after a cancel, the reap of the killed
/// child terminates the supervisor with `Cancelled`.
pub proof fn lemma_supervisor_cancel_total(b: u64)
    ensures
        supervisor_trace_ok(
            SupervisorState::Polling { backoff_us: b },
            seq![SupervisorEvent::Cancel, SupervisorEvent::Reaped],
        ),
        supervisor_run_events(
            SupervisorState::Polling { backoff_us: b },
            seq![SupervisorEvent::Cancel, SupervisorEvent::Reaped],
        ) == SupervisorState::Done,
        supervisor_count_emits(
            SupervisorState::Polling { backoff_us: b },
            seq![SupervisorEvent::Cancel, SupervisorEvent::Reaped],
        ) == 1,
{
    let evs = seq![SupervisorEvent::Cancel, SupervisorEvent::Reaped];
    let s = SupervisorState::Polling { backoff_us: b };
    let killing = SupervisorState::Killing;
    let done = SupervisorState::Done;
    let tail = seq![SupervisorEvent::Reaped];
    assert(evs[0] == SupervisorEvent::Cancel);
    assert(evs.skip(1) =~= tail);
    assert(tail[0] == SupervisorEvent::Reaped);
    assert(tail.skip(1) =~= Seq::<SupervisorEvent>::empty());
    assert(spec_supervisor_step(s, SupervisorEvent::Cancel).state == killing);
    assert(spec_supervisor_step(killing, SupervisorEvent::Reaped).state == done);
    assert(supervisor_trace_ok(done, Seq::<SupervisorEvent>::empty()));
    assert(supervisor_run_events(done, Seq::<SupervisorEvent>::empty()) == done);
    assert(supervisor_count_emits(done, Seq::<SupervisorEvent>::empty()) == 0);
    assert(supervisor_trace_ok(killing, tail));
    assert(supervisor_run_events(killing, tail) == done);
    assert(supervisor_count_emits(killing, tail) == 1);
    assert(supervisor_trace_ok(s, evs));
    assert(supervisor_run_events(s, evs) == done);
    assert(supervisor_count_emits(s, evs) == 1);
}

} // verus!
