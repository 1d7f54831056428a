use watchboi::context::{Context, Var, VarKind};

use watchboi::error::Error;
use watchboi::op::workdir::SetWorkDir;
use watchboi::op::Outcome;
use watchboi::op::http::Reload;
use watchboi::context::Reloader;
fn root_context() -> Context {
    Context::new(String::from("/home/user/project"))
}

#[test]
fn absolute_paths_are_kept() {
    let ctx = root_context();
    assert_eq!(ctx.join_workdir("/etc/passwd"), "/etc/passwd");
}

#[test]
fn dot_slash_resolves_against_closest_workdir() {
    let mut ctx = root_context().fork_task("build");
    ctx.insert_top_var(Var::WorkDir(String::from("/somewhere/else")));
    assert_eq!(ctx.join_workdir("./src"), "/somewhere/else/src");
}

#[test]
fn bare_paths_resolve_against_root_workdir() {
    let mut ctx = root_context().fork_task("build");
    ctx.insert_top_var(Var::WorkDir(String::from("/somewhere/else")));
    // Not written as ./x: the config file's directory wins.
    assert_eq!(ctx.join_workdir("src"), "/home/user/project/src");
}

#[test]
fn workdir_defaults_to_config_dir() {
    let ctx = root_context();
    assert_eq!(ctx.workdir(), "/home/user/project");
    assert_eq!(ctx.join_workdir("./x"), "/home/user/project/x");
}

#[test]
fn closest_variable_wins_on_lookup() {
    let mut ctx = root_context();
    // Child frame shadows the root working directory.
    let mut child = ctx.fork_op("watch");
    child.insert_top_var(Var::WorkDir(String::from("/child/dir")));
    assert_eq!(child.workdir(), "/child/dir");
    // The parent context is untouched: the child's variable is invisible.
    assert_eq!(ctx.workdir(), "/home/user/project");
    // A variable kind the child does not hold falls through to the parent.
    ctx.insert_top_var(Var::TriggeredByChange(true));
    let grandchild = ctx.fork_op("on-change");
    match grandchild.get_closest_var(VarKind::TriggeredByChange) {
        Some(Var::TriggeredByChange(b)) => assert!(b),
        other => panic!("unexpected lookup result: {:?}", other),
    }
}

#[test]
fn frame_labels_name_task_and_operations() {
    let ctx = root_context();
    assert_eq!(ctx.frame_label(), "");
    let task = ctx.fork_task("frontend");
    assert_eq!(task.frame_label(), "frontend");
    let op = task.fork_op("watch");
    assert_eq!(op.frame_label(), "frontend.watch");
    let inner = op.fork_op("command");
    assert_eq!(inner.frame_label(), "frontend.watch.command");
}

#[test]
fn set_workdir_publishes_or_rejects() {
    let op = SetWorkDir(String::from("./sub"));
    let mut ctx = root_context().fork_op("set-workdir");
    assert_eq!(op.resolve(&ctx), "/home/user/project/sub");

    // The runtime found a directory there: the variable is published.
    let r = op.publish(&mut ctx, true);
    assert_eq!(r.unwrap(), Outcome::Success);
    assert_eq!(ctx.workdir(), "/home/user/project/sub");

    // No directory there: a path error, and the context stays as it was.
    let mut ctx2 = root_context().fork_op("set-workdir");
    match op.publish(&mut ctx2, false) {
        Err(Error::Path(_)) => {}
        other => panic!("expected a path error, got {:?}", other),
    }
    assert_eq!(ctx2.workdir(), "/home/user/project");
}

#[test]
fn reload_without_http_errors() {
    let ctx = root_context().fork_task("default");
    match Reload.decide(&ctx) {
        Err(Error::NoReloaderInScope) => {}
        other => panic!("expected NoReloaderInScope, got {:?}", other),
    }
}

#[test]
fn reload_finds_the_closest_server() {
    let mut ctx = root_context().fork_task("default");
    ctx.insert_top_var(Var::Reloader(Reloader(7)));
    let inner = ctx.fork_op("reload");
    let (handle, outcome) = Reload.decide(&inner).unwrap();
    assert_eq!(handle, Reloader(7));
    assert_eq!(outcome, Outcome::Success);
}
