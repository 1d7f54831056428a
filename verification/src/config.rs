//! The action-based configuration surface: named actions with `on_start`,
//! `run` and `on_change` command lists, a watcher section, and an HTTP
//! section with fixed default ports.

use vstd::prelude::*;
use vstd::string::*;
use crate::error::Error;
use crate::http::Addr;
use crate::op::command::{
    is_blank, push_quoted, spec_display_parts, split_ws, split_whitespace_tokens, str_is_blank,
};

verus! {

/// The debounce window used when the watcher section gives none, in
/// milliseconds.
pub const DEFAULT_DEBOUNCE_MS: u32 = 500;

/// The root of the action-based configuration.
#[derive(Debug)]
pub struct Config {
    pub actions: Vec<(String, Action)>,
    pub http: Option<Http>,
    pub watcher: Option<Watcher>,
}

/// One named action: what to watch, and which commands to run when.
#[derive(Debug)]
pub struct Action {
    /// Paths and commands resolve against this directory.
    pub base: Option<String>,
    /// Paths to watch for changes.
    pub watch: Option<Vec<String>>,
    /// Commands run on start and on every change.
    pub run: Option<Vec<Command>>,
    /// Commands run once on start.
    pub on_start: Option<Vec<Command>>,
    /// Commands run on every change.
    pub on_change: Option<Vec<Command>>,
    /// Whether and when to reload browser sessions.
    pub reload: Option<Reload>,
}

/// When an action reloads browser sessions.
#[derive(Debug, Clone, Copy, PartialEq, Eq, Structural)]
pub enum Reload {
    /// Before the `on_change` handlers run.
    Early,
    /// After all `on_change` handlers are done.
    Late,
}

/// The HTTP section: where to bind, and what to proxy.
#[derive(Debug, Clone, Copy)]
pub struct Http {
    pub addr: Option<Addr>,
    pub proxy: Option<Addr>,
    pub ws_addr: Option<Addr>,
}

/// The watcher section.
#[derive(Debug, Clone, Copy)]
pub struct Watcher {
    /// The debounce window, in milliseconds.
    pub debounce: Option<u32>,
}

/// A command specification: a single string split at whitespace, or an
/// explicit list of program and arguments.
#[derive(Debug)]
pub enum Command {
    /// A single string, split at whitespace boundaries.
    Simple(String),
    /// Program and arguments, spelled out.
    Explicit(Vec<String>),
}

/// The mathematical content of a command specification.
pub enum CmdView {
    Simple(Seq<char>),
    Explicit(Seq<Seq<char>>),
}

/// The view of one command specification.
pub open spec fn cmd_view(c: Command) -> CmdView {
    match c {
        Command::Simple(s) => CmdView::Simple(s@),
        Command::Explicit(v) => CmdView::Explicit(v.deep_view()),
    }
}

/// The views of a sequence of command specifications.
pub open spec fn cmds_view(s: Seq<Command>) -> Seq<CmdView> {
    s.map_values(|c: Command| cmd_view(c))
}

/// A command specification is valid when nothing in it is blank.
pub open spec fn spec_command_ok(c: Command) -> bool {
    match c {
        Command::Simple(s) => !is_blank(s@),
        Command::Explicit(v) => v@.len() > 0 && forall|i: int|
            0 <= i < v@.len() ==> !is_blank(#[trigger] v@[i]@),
    }
}

impl Command {
    /// Rejects blank commands and blank segments.
    pub fn validate(&self) -> (r: Result<(), Error>)
        ensures
            r is Ok <==> spec_command_ok(*self),
    {
        match self {
            Command::Simple(s) => {
                if str_is_blank(s.as_str()) {
                    Err(Error::Config(String::from_str("empty command is invalid")))
                } else {
                    Ok(())
                }
            },
            Command::Explicit(v) => {
                let n = v.len();
                if n == 0 {
                    return Err(Error::Config(String::from_str("empty command is invalid")));
                }
                let mut i: usize = 0;
                while i < n
                    invariant
                        *self == Command::Explicit(*v),
                        i <= n,
                        n == v@.len(),
                        forall|j: int| 0 <= j < i ==> !is_blank(#[trigger] v@[j]@),
                    decreases n - i,
                {
                    if str_is_blank(v[i].as_str()) {
                        proof {
                            assert(is_blank(v@[i as int]@));
                            assert(!spec_command_ok(*self));
                        }
                        return Err(
                            Error::Config(
                                String::from_str(
                                    "segment of command is empty (all segments must be non-empty)",
                                ),
                            ),
                        );
                    }
                    i = i + 1;
                }
                Ok(())
            },
        }
    }

    /// The program and arguments to hand the operating system: the simple
    /// form is split at whitespace, the explicit form is taken apart.
    pub fn to_program_args(&self) -> (r: (String, Vec<String>))
        requires
            spec_command_ok(*self),
        ensures
            match *self {
                Command::Simple(s) => r.0@ == split_ws(s@)[0] && r.1.deep_view() == split_ws(
                    s@,
                ).skip(1),
                Command::Explicit(v) => r.0 == v@[0] && r.1@ == v@.skip(1),
            },
    {
        match self {
            Command::Simple(s) => {
                proof {
                    crate::op::command::lemma_blank_iff_no_tokens(s@);
                }
                let mut tokens = split_whitespace_tokens(s.as_str());
                let ghost orig = tokens@;
                let ghost orig_dv = tokens.deep_view();
                let program = tokens.remove(0);
                proof {
                    assert(program@ == orig_dv[0]);
                    assert forall|j: int| 0 <= j < tokens@.len() implies tokens.deep_view()[j]
                        == orig_dv[j + 1] by {
                        assert(tokens@[j] == orig[j + 1]);
                    }
                    assert(tokens.deep_view() =~= orig_dv.skip(1));
                }
                (program, tokens)
            },
            Command::Explicit(v) => {
                let mut parts = crate::op::command::duplicate_strings(v);
                let ghost orig = parts@;
                let program = parts.remove(0);
                proof {
                    assert(parts@ =~= orig.skip(1));
                }
                (program, parts)
            },
        }
    }

    /// How this command is shown in terminal messages: the simple form as
    /// it was written, the explicit form with its parts separated by
    /// spaces and quoted when they contain whitespace.
    pub fn display_string(&self) -> (r: String)
        ensures
            match *self {
                Command::Simple(s) => r@ == s@,
                Command::Explicit(v) => r@ == spec_display_parts(v.deep_view()),
            },
    {
        match self {
            Command::Simple(s) => s.clone(),
            Command::Explicit(v) => {
                proof {
                    reveal_strlit(" ");
                    assert(" "@ =~= seq![' ']);
                }
                let ghost parts = v.deep_view();
                let mut out = String::new();
                let n = v.len();
                let mut i: usize = 0;
                proof {
                    assert(parts.take(0) =~= Seq::<Seq<char>>::empty());
                    assert(out@ =~= spec_display_parts(parts.take(0)));
                }
                while i < n
                    invariant
                        i <= n,
                        n == v@.len(),
                        parts == v.deep_view(),
                        parts.len() == n,
                        out@ == spec_display_parts(parts.take(i as int)),
                    decreases n - i,
                {
                    proof {
                        reveal_strlit(" ");
                        assert(" "@ =~= seq![' ']);
                    }
                    if i > 0 {
                        out.append(" ");
                    }
                    push_quoted(&mut out, v[i].as_str());
                    proof {
                        assert(parts.take(i + 1).drop_last() =~= parts.take(i as int));
                        assert(parts.take(i + 1).last() == parts[i as int]);
                        if i == 0 {
                            assert(parts.take(1) =~= seq![parts[0]]);
                        }
                        assert(out@ =~= spec_display_parts(parts.take(i + 1)));
                    }
                    i = i + 1;
                }
                proof {
                    assert(parts.take(n as int) =~= parts);
                }
                out
            },
        }
    }

    /// An exact copy of this command specification.
    pub fn duplicate(&self) -> (r: Command)
        ensures
            cmd_view(r) == cmd_view(*self),
            spec_command_ok(r) == spec_command_ok(*self),
    {
        match self {
            Command::Simple(s) => Command::Simple(s.clone()),
            Command::Explicit(v) => {
                let parts = crate::op::command::duplicate_strings(v);
                proof {
                    assert(parts.deep_view() =~= v.deep_view());
                    assert forall|i: int| 0 <= i < parts@.len() implies (is_blank(
                        #[trigger] parts@[i]@,
                    ) == is_blank(v@[i]@)) by {
                        assert(parts@[i] == v@[i]);
                    }
                }
                Command::Explicit(parts)
            },
        }
    }
}

/// Every command of the list is valid.
pub open spec fn spec_commands_ok(cs: Option<Vec<Command>>) -> bool {
    match cs {
        Some(v) => forall|i: int| 0 <= i < v@.len() ==> spec_command_ok(#[trigger] v@[i]),
        None => true,
    }
}

/// The commands of an optional list, as a sequence.
pub open spec fn spec_commands(cs: Option<Vec<Command>>) -> Seq<Command> {
    match cs {
        Some(v) => v@,
        None => Seq::empty(),
    }
}

/// An action is valid when `on_change` comes with `watch`, `watch` comes
/// with something to run, and every command list is valid.
pub open spec fn spec_action_ok(a: Action) -> bool {
    &&& !(a.on_change is Some && a.watch is None)
    &&& !(a.watch is Some && a.on_change is None && a.run is None)
    &&& spec_commands_ok(a.on_start)
    &&& spec_commands_ok(a.on_change)
    &&& spec_commands_ok(a.run)
}

/// Validates one command list.
fn validate_command_vec(v: &Vec<Command>) -> (r: Result<(), Error>)
    ensures
        r is Ok <==> forall|j: int| 0 <= j < v@.len() ==> spec_command_ok(#[trigger] v@[j]),
{
    let n = v.len();
    let mut i: usize = 0;
    while i < n
        invariant
            i <= n,
            n == v@.len(),
            forall|j: int| 0 <= j < i ==> spec_command_ok(#[trigger] v@[j]),
        decreases n - i,
    {
        let res = v[i].validate();
        if let Err(e) = res {
            return Err(e);
        }
        i = i + 1;
    }
    Ok(())
}

/// Validates one optional command list.
fn validate_commands(cs: &Option<Vec<Command>>) -> (r: Result<(), Error>)
    ensures
        r is Ok <==> spec_commands_ok(*cs),
{
    match cs {
        None => Ok(()),
        Some(v) => validate_command_vec(v),
    }
}

/// Copies every command of the list onto the end of `out`.
fn extend_commands(out: &mut Vec<Command>, cs: &Option<Vec<Command>>)
    ensures
        cmds_view(final(out)@) == cmds_view(old(out)@) + cmds_view(spec_commands(*cs)),
{
    match cs {
        None => {
            proof {
                assert(cmds_view(out@) + cmds_view(Seq::<Command>::empty()) =~= cmds_view(out@));
            }
        },
        Some(v) => {
            let n = v.len();
            let mut i: usize = 0;
            proof {
                assert(cmds_view(out@) =~= cmds_view(old(out)@) + cmds_view(v@.take(0)));
            }
            while i < n
                invariant
                    *cs == Some(*v),
                    i <= n,
                    n == v@.len(),
                    cmds_view(out@) == cmds_view(old(out)@) + cmds_view(v@.take(i as int)),
                decreases n - i,
            {
                let d = v[i].duplicate();
                let ghost prev = out@;
                out.push(d);
                proof {
                    assert(out@ == prev.push(d));
                    assert(cmds_view(out@) =~= cmds_view(prev).push(cmd_view(d)));
                    assert(v@.take(i + 1) =~= v@.take(i as int).push(v@[i as int]));
                    assert(cmds_view(v@.take(i + 1)) =~= cmds_view(v@.take(i as int)).push(
                        cmd_view(v@[i as int]),
                    ));
                    assert(cmds_view(out@) =~= cmds_view(old(out)@) + cmds_view(v@.take(i + 1)));
                }
                i = i + 1;
            }
            proof {
                assert(v@.take(n as int) =~= v@);
            }
        },
    }
}

impl Action {
    /// The commands run on every change.
    pub fn run_commands(&self) -> (r: &[Command])
        ensures
            r@ == spec_commands(self.run),
    {
        commands(&self.run)
    }

    /// The commands run once on start.
    pub fn on_start_commands(&self) -> (r: &[Command])
        ensures
            r@ == spec_commands(self.on_start),
    {
        commands(&self.on_start)
    }

    /// The commands run only on changes.
    pub fn on_change_commands(&self) -> (r: &[Command])
        ensures
            r@ == spec_commands(self.on_change),
    {
        commands(&self.on_change)
    }

    /// What runs when the action starts: its `on_start` commands and, when
    /// nothing is watched (so no executor will ever run them), its `run`
    /// commands too.
    pub fn startup_commands(&self) -> (r: Vec<Command>)
        ensures
            self.watch is None ==> cmds_view(r@) == cmds_view(spec_commands(self.on_start))
                + cmds_view(spec_commands(self.run)),
            self.watch is Some ==> cmds_view(r@) == cmds_view(spec_commands(self.on_start)),
    {
        let mut out: Vec<Command> = Vec::new();
        proof {
            assert(cmds_view(out@) =~= Seq::<CmdView>::empty());
        }
        extend_commands(&mut out, &self.on_start);
        proof {
            assert(Seq::<CmdView>::empty() + cmds_view(spec_commands(self.on_start))
                =~= cmds_view(spec_commands(self.on_start)));
        }
        if self.watch.is_none() {
            extend_commands(&mut out, &self.run);
        }
        out
    }

    /// What the executor runs on every change: the `run` commands, then the
    /// `on_change` commands.
    pub fn change_commands(&self) -> (r: Vec<Command>)
        ensures
            cmds_view(r@) == cmds_view(spec_commands(self.run)) + cmds_view(
                spec_commands(self.on_change),
            ),
    {
        let mut out: Vec<Command> = Vec::new();
        proof {
            assert(cmds_view(out@) =~= Seq::<CmdView>::empty());
        }
        extend_commands(&mut out, &self.run);
        proof {
            assert(Seq::<CmdView>::empty() + cmds_view(spec_commands(self.run)) =~= cmds_view(
                spec_commands(self.run),
            ));
        }
        extend_commands(&mut out, &self.on_change);
        out
    }

    /// Rejects `on_change` without `watch`, `watch` with nothing to run,
    /// and invalid commands.
    pub fn validate(&self) -> (r: Result<(), Error>)
        ensures
            r is Ok <==> spec_action_ok(*self),
    {
        if self.on_change.is_some() && self.watch.is_none() {
            return Err(
                Error::Config(
                    String::from_str("field 'on_change' requires 'watch' to be specified"),
                ),
            );
        }
        if self.watch.is_some() && self.on_change.is_none() && self.run.is_none() {
            return Err(
                Error::Config(
                    String::from_str(
                        "field 'watch' is specified, but neither 'run' nor 'on_change' commands are specified",
                    ),
                ),
            );
        }
        if let Err(e) = validate_commands(&self.on_start) {
            return Err(e);
        }
        if let Err(e) = validate_commands(&self.on_change) {
            return Err(e);
        }
        if let Err(e) = validate_commands(&self.run) {
            return Err(e);
        }
        Ok(())
    }
}

/// The commands of an optional list, as a slice.
fn commands(cs: &Option<Vec<Command>>) -> (r: &[Command])
    ensures
        r@ == spec_commands(*cs),
{
    match cs {
        None => &[],
        Some(v) => v.as_slice(),
    }
}

impl Http {
    /// The main bind address: the configured one, or 127.0.0.1:8030.
    pub fn addr(&self) -> (r: Addr)
        ensures
            self.addr matches Some(a) ==> r == a,
            self.addr is None ==> r == (Addr { a: 127, b: 0, c: 0, d: 0, port: 8030 }),
    {
        match self.addr {
            Some(a) => a,
            None => Addr { a: 127, b: 0, c: 0, d: 0, port: 8030 },
        }
    }

    /// An HTTP section carries no further obligations.
    pub fn validate(&self) -> (r: Result<(), Error>)
        ensures
            r is Ok,
    {
        Ok(())
    }

    /// The WebSocket bind address: the configured one, or 127.0.0.1:8031.
    pub fn ws_addr(&self) -> (r: Addr)
        ensures
            self.ws_addr matches Some(a) ==> r == a,
            self.ws_addr is None ==> r == (Addr { a: 127, b: 0, c: 0, d: 0, port: 8031 }),
    {
        match self.ws_addr {
            Some(a) => a,
            None => Addr { a: 127, b: 0, c: 0, d: 0, port: 8031 },
        }
    }
}

impl Watcher {
    /// A watcher section carries no further obligations.
    pub fn validate(&self) -> (r: Result<(), Error>)
        ensures
            r is Ok,
    {
        Ok(())
    }

    /// The debounce window in milliseconds: the configured one, or the
    /// default.
    pub fn debounce(&self) -> (r: u32)
        ensures
            self.debounce matches Some(d) ==> r == d,
            self.debounce is None ==> r == DEFAULT_DEBOUNCE_MS,
    {
        match self.debounce {
            Some(d) => d,
            None => DEFAULT_DEBOUNCE_MS,
        }
    }
}

/// A configuration is valid when every action is, and no action asks for
/// reloads without an HTTP section to deliver them.
pub open spec fn spec_config_ok(c: Config) -> bool {
    forall|i: int|
        0 <= i < c.actions@.len() ==> {
            &&& spec_action_ok((#[trigger] c.actions@[i]).1)
            &&& (c.actions@[i].1.reload is Some ==> c.http is Some)
        }
}

impl Config {
    /// Whether any action asks for browser reloads.
    pub fn auto_reload(&self) -> (r: bool)
        ensures
            r == exists|i: int|
                0 <= i < self.actions@.len() && (#[trigger] self.actions@[i]).1.reload is Some,
    {
        let n = self.actions.len();
        let mut i: usize = 0;
        while i < n
            invariant
                i <= n,
                n == self.actions@.len(),
                forall|j: int| 0 <= j < i ==> (#[trigger] self.actions@[j]).1.reload is None,
            decreases n - i,
        {
            if self.actions[i].1.reload.is_some() {
                return true;
            }
            i = i + 1;
        }
        false
    }

    /// Validates every action, and that reloads only appear beside an HTTP
    /// section.
    pub fn validate(&self) -> (r: Result<(), Error>)
        ensures
            r is Ok <==> spec_config_ok(*self),
    {
        let n = self.actions.len();
        let mut i: usize = 0;
        while i < n
            invariant
                i <= n,
                n == self.actions@.len(),
                forall|j: int|
                    0 <= j < i ==> {
                        &&& spec_action_ok((#[trigger] self.actions@[j]).1)
                        &&& (self.actions@[j].1.reload is Some ==> self.http is Some)
                    },
            decreases n - i,
        {
            let res = self.actions[i].1.validate();
            if let Err(e) = res {
                return Err(e);
            }
            if self.actions[i].1.reload.is_some() && self.http.is_none() {
                return Err(
                    Error::Config(
                        String::from_str(
                            "action specified 'reload', but no HTTP server is configured",
                        ),
                    ),
                );
            }
            i = i + 1;
        }
        Ok(())
    }
}

} // verus!
