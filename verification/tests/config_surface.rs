use watchboi::config::{Action, Command, Config, Http, Reload, Watcher};
use watchboi::http::Addr;

use watchboi::step::exit_status_to_outcome;
use watchboi::step::{Command as StepCommand, Outcome as StepOutcome};
use watchboi::step::{FinishedStep, Reload as ReloadStep, RunningStep};
use watchboi::args::{parse_color_choice, ColorChoice};
use watchboi::ui::{if_verbose, Verbosity};
fn action(run: Option<Vec<Command>>, watch: Option<Vec<String>>) -> Action {
    Action {
        base: None,
        watch,
        run,
        on_start: None,
        on_change: None,
        reload: None,
    }
}

#[test]
fn action_command_lists_default_to_empty() {
    let a = action(None, None);
    assert!(a.run_commands().is_empty());
    assert!(a.on_start_commands().is_empty());
    assert!(a.on_change_commands().is_empty());
}

#[test]
fn startup_includes_run_only_without_watch() {
    let run = vec![Command::Simple(String::from("make"))];
    let unwatched = action(Some(run), None);
    let cmds = unwatched.startup_commands();
    assert_eq!(cmds.len(), 1);

    let run = vec![Command::Simple(String::from("make"))];
    let watched = action(Some(run), Some(vec![String::from("src")]));
    assert_eq!(watched.startup_commands().len(), 0);
    // Watched actions run their `run` commands from the executor instead.
    assert_eq!(watched.change_commands().len(), 1);
}

#[test]
fn on_change_requires_watch() {
    let mut a = action(None, None);
    a.on_change = Some(vec![Command::Simple(String::from("make"))]);
    assert!(a.validate().is_err());
    a.watch = Some(vec![String::from("src")]);
    assert!(a.validate().is_ok());
}

#[test]
fn watch_without_anything_to_run_is_rejected() {
    let a = action(None, Some(vec![String::from("src")]));
    assert!(a.validate().is_err());
}

#[test]
fn blank_commands_fail_action_validation() {
    let a = action(Some(vec![Command::Simple(String::from(" "))]), None);
    assert!(a.validate().is_err());
    let b = action(Some(vec![Command::Explicit(Vec::new())]), None);
    assert!(b.validate().is_err());
    let c = action(
        Some(vec![Command::Explicit(vec![
            String::from("echo"),
            String::from("\t"),
        ])]),
        None,
    );
    assert!(c.validate().is_err());
}

#[test]
fn simple_config_commands_split_like_a_shell() {
    let c = Command::Simple(String::from("cargo  run -q"));
    assert!(c.validate().is_ok());
    let (program, args) = c.to_program_args();
    assert_eq!(program, "cargo");
    assert_eq!(args, vec!["run", "-q"]);

    let e = Command::Explicit(vec![String::from("cc"), String::from("my file.c")]);
    let (program, args) = e.to_program_args();
    assert_eq!(program, "cc");
    assert_eq!(args, vec!["my file.c"]);
}

#[test]
fn reload_without_http_section_is_rejected() {
    let mut a = action(Some(vec![Command::Simple(String::from("make"))]), None);
    a.reload = Some(Reload::Late);
    let config = Config {
        actions: vec![(String::from("web"), a)],
        http: None,
        watcher: None,
    };
    assert!(config.validate().is_err());
    assert!(config.auto_reload());
}

#[test]
fn http_defaults_use_fixed_ports() {
    let h = Http { addr: None, proxy: None, ws_addr: None };
    assert_eq!(h.addr(), Addr { a: 127, b: 0, c: 0, d: 0, port: 8030 });
    assert_eq!(h.ws_addr(), Addr { a: 127, b: 0, c: 0, d: 0, port: 8031 });
    let fixed = Http {
        addr: Some(Addr { a: 0, b: 0, c: 0, d: 0, port: 80 }),
        proxy: None,
        ws_addr: None,
    };
    assert_eq!(fixed.addr().port, 80);
}

#[test]
fn watcher_debounce_defaults_to_half_a_second() {
    assert_eq!(Watcher { debounce: None }.debounce(), 500);
    assert_eq!(Watcher { debounce: Some(100) }.debounce(), 100);
}

#[test]
fn step_commands_validate_and_split() {
    let c = StepCommand::simple("ls -l");
    assert!(c.validate().is_ok());
    let (program, args) = c.to_program_args();
    assert_eq!(program, "ls");
    assert_eq!(args, vec!["-l"]);

    let blank = StepCommand::simple("   ");
    assert!(blank.validate().is_err());

    let e = StepCommand::explicit(vec![String::from("true")]);
    assert!(e.validate().is_ok());

    assert_eq!(exit_status_to_outcome(true), StepOutcome::Success);
    assert_eq!(exit_status_to_outcome(false), StepOutcome::Failure);
}

#[test]
fn finished_steps_report_their_outcome() {
    let mut s = FinishedStep(StepOutcome::Success);
    assert!(s.cancel().is_ok());
    assert_eq!(s.try_finish().unwrap(), Some(StepOutcome::Success));
    assert_eq!(s.finish().unwrap(), StepOutcome::Success);
}

#[test]
fn copy_and_reload_steps_validate() {
    let c = watchboi::step::Copy { src: String::from("a"), dst: String::from("b") };
    assert!(c.validate().is_ok());
    assert!(ReloadStep.validate().is_ok());
}

#[test]
fn verbosity_levels_and_colors_parse() {
    assert_eq!(Verbosity::from_count(0).unwrap(), Verbosity::Normal);
    assert_eq!(Verbosity::from_count(1).unwrap(), Verbosity::Verbose);
    assert_eq!(Verbosity::from_count(2).unwrap(), Verbosity::Trace);
    assert!(Verbosity::from_count(3).is_err());

    assert!(!if_verbose(Verbosity::Normal));
    assert!(if_verbose(Verbosity::Verbose));
    assert!(if_verbose(Verbosity::Trace));

    assert_eq!(parse_color_choice("never").unwrap(), ColorChoice::Never);
    assert_eq!(parse_color_choice("auto").unwrap(), ColorChoice::Auto);
    assert_eq!(parse_color_choice("always").unwrap(), ColorChoice::Always);
    assert!(parse_color_choice("sometimes").is_err());
}

#[test]
fn op_copy_is_accepted_by_validation() {
    let c = watchboi::op::copy::Copy { src: String::from("x"), dst: String::from("y") };
    assert!(c.validate().is_ok());
}

#[test]
fn commands_display_with_quoting() {
    let c = Command::Simple(String::from("cargo  build"));
    assert_eq!(c.display_string(), "cargo  build");
    let e = Command::Explicit(vec![
        String::from("cc"),
        String::from("my file.c"),
        String::from("-o"),
    ]);
    assert_eq!(e.display_string(), "cc \"my file.c\" -o");
    let none = Command::Explicit(Vec::new());
    assert_eq!(none.display_string(), "");

    let op_cmd = watchboi::op::command::Command::from_simple("echo a  b").unwrap();
    assert_eq!(op_cmd.display_string(), "echo a b");
}

#[test]
fn http_and_watcher_sections_validate() {
    assert!(Http { addr: None, proxy: None, ws_addr: None }.validate().is_ok());
    assert!(Watcher { debounce: None }.validate().is_ok());
}
