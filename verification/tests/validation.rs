use watchboi::cfg::Config;
use watchboi::error::Error;
use watchboi::op::command::{Command, ProgramAndArgs};
use watchboi::op::http::Http;
use watchboi::op::run_task::RunTask;
use watchboi::op::watch::{OnChange, Watch};
use watchboi::op::{Op, OpKeyword, ParentKind};
use watchboi::task::Task;

use watchboi::http::Addr;
use watchboi::op::keyword_str;
fn empty_config() -> Config {
    Config { tasks: Vec::new() }
}

#[test]
fn empty_simple_command_is_rejected() {
    assert!(Command::from_simple("").is_err());
    assert!(Command::from_simple("   \t ").is_err());
    assert!(ProgramAndArgs::from_simple("\n").is_err());
}

#[test]
fn empty_explicit_command_is_rejected() {
    assert!(Command::from_explicit(Vec::new()).is_err());
    let with_blank = vec![String::from("echo"), String::from("  ")];
    assert!(Command::from_explicit(with_blank).is_err());
}

#[test]
fn simple_commands_split_at_whitespace() {
    let c = Command::from_simple("cargo build  --release").unwrap();
    assert_eq!(c.run.program, "cargo");
    assert_eq!(c.run.args, vec!["build", "--release"]);
    assert!(c.workdir.is_none());
}

#[test]
fn explicit_commands_keep_their_segments() {
    let c = Command::from_explicit(vec![
        String::from("cc"),
        String::from("a file.c"),
    ])
    .unwrap();
    assert_eq!(c.run.program, "cc");
    assert_eq!(c.run.args, vec!["a file.c"]);
}

#[test]
fn on_change_outside_watch_is_rejected() {
    let inner = Command::from_simple("true").unwrap();
    let op = Op::OnChange(OnChange(Box::new(Op::Command(inner))));
    let config = empty_config();
    assert!(op.validate(ParentKind::Task, &config).is_err());
    assert!(op
        .validate(ParentKind::Operation(OpKeyword::Concurrently), &config)
        .is_err());
    assert!(op
        .validate(ParentKind::Operation(OpKeyword::Watch), &config)
        .is_ok());
}

#[test]
fn watch_validates_its_children() {
    let inner = Command::from_simple("true").unwrap();
    let on_change = Op::OnChange(OnChange(Box::new(Op::Command(inner))));
    let watch = Op::Watch(Watch {
        paths: vec![String::from("src")],
        run: vec![on_change],
        debounce: Some(100),
    });
    // on-change is fine directly under a watch, wherever the watch stands.
    assert!(watch.validate(ParentKind::Task, &empty_config()).is_ok());
}

#[test]
fn run_task_must_reference_an_existing_task() {
    let op = Op::RunTask(RunTask(String::from("build")));
    assert!(op.validate(ParentKind::Task, &empty_config()).is_err());

    let config = Config {
        tasks: vec![Task { name: String::from("build"), operations: Vec::new() }],
    };
    assert!(op.validate(ParentKind::Task, &config).is_ok());
}

#[test]
fn http_needs_exactly_one_mode() {
    let both = Http {
        proxy: Some(String::from("127.0.0.1:9000")),
        serve: Some(String::from(".")),
        addr: None,
    };
    assert!(both.validate().is_err());
    let neither = Http { proxy: None, serve: None, addr: None };
    assert!(neither.validate().is_err());
    let proxy_only = Http {
        proxy: Some(String::from("127.0.0.1:9000")),
        serve: None,
        addr: None,
    };
    assert!(proxy_only.validate().is_ok());
}

#[test]
fn http_control_port_is_the_next_one() {
    let h = Http { proxy: Some(String::from("127.0.0.1:9000")), serve: None, addr: None };
    let (main, control) = h.bind_addrs().unwrap();
    assert_eq!(main, Addr { a: 127, b: 0, c: 0, d: 0, port: 8030 });
    assert_eq!(control.port, 8031);

    let top = Http {
        proxy: Some(String::from("127.0.0.1:9000")),
        serve: None,
        addr: Some(Addr { a: 127, b: 0, c: 0, d: 1, port: 65535 }),
    };
    assert!(top.bind_addrs().is_err());
}

#[test]
fn error_messages_name_their_kind() {
    assert_eq!(
        Error::NoReloaderInScope.message(),
        "no reloader in scope"
    );
    assert_eq!(
        Error::Path(String::from("/nope")).message(),
        "path error: /nope"
    );
    assert_eq!(
        Error::Spawn(String::from("missing")).message(),
        "spawn error: missing"
    );
    assert_eq!(
        Error::Config(String::from("bad")).message(),
        "configuration error: bad"
    );
    assert_eq!(
        Error::Supervision(String::from("io")).message(),
        "supervision error: io"
    );
    assert_eq!(
        Error::Watcher(String::from("gone")).message(),
        "watcher error: gone"
    );
    assert_eq!(Error::Bind(String::from("in use")).message(), "bind error: in use");
    assert_eq!(
        Error::Upstream(String::from("down")).message(),
        "upstream error: down"
    );
}

#[test]
fn keywords_spell_like_the_configuration() {
    assert_eq!(keyword_str(OpKeyword::Command), "command");
    assert_eq!(keyword_str(OpKeyword::SetWorkDir), "set-workdir");
    assert_eq!(keyword_str(OpKeyword::OnChange), "on-change");
    assert_eq!(keyword_str(OpKeyword::RunTask), "run-task");
    assert_eq!(keyword_str(OpKeyword::Concurrently), "concurrently");

    let c = Command::from_simple("true").unwrap();
    assert_eq!(Op::Command(c).keyword(), OpKeyword::Command);
}

#[test]
fn tasks_with_bad_commands_fail_validation() {
    // Built directly rather than through the checked constructors.
    let bad = Command {
        run: ProgramAndArgs { program: String::from("  "), args: Vec::new() },
        workdir: None,
    };
    let task = Task {
        name: String::from("default"),
        operations: vec![Op::Command(bad)],
    };
    let config = Config { tasks: vec![task] };
    assert!(config.validate().is_err());
}
