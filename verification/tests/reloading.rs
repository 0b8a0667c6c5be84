use trinity::action::Action;
use trinity::builder::{BuildError, DirEntry};
use trinity::context::{AppCtx, RebuildJob};
use trinity::dispatch::CallError;
use trinity::host::{RoomResolver, Sandbox};
use trinity::registry::{ModulesConfig, Registry, Settings};
use trinity::reload::{
    has_bytecode_extension, is_relevant_change, ChangeKind, ReloadAction, ReloadEvent,
    ReloadState, BYTECODE_EXTENSION, QUIET_INTERVAL_SECS,
};

/// A sandbox that finds the modules it is told of and answers every
/// message with its own tag.
struct Tagged {
    tag: String,
    files: Vec<String>,
    fail: bool,
}

impl Tagged {
    fn new(tag: &str, files: &[&str]) -> Tagged {
        Tagged { tag: tag.to_string(), files: files.iter().map(|f| f.to_string()).collect(), fail: false }
    }
}

impl Sandbox for Tagged {
    fn scan(&mut self, _dir: &str) -> Result<Vec<DirEntry>, CallError> {
        Ok(self
            .files
            .iter()
            .map(|f| DirEntry { path: f.clone(), extension: Some("wasm".to_string()) })
            .collect())
    }

    fn load(&mut self, file: &str) -> Result<String, CallError> {
        if self.fail {
            Err(CallError { detail: format!("cannot compile {}", file) })
        } else {
            Ok(file.to_string())
        }
    }

    fn init(&mut self, _: usize, _: Option<&Settings>) -> Result<(), CallError> {
        Ok(())
    }

    fn handle(&mut self, module: usize, _: &str, _: &str, _: &str) -> Result<Vec<Action>, CallError> {
        Ok(vec![Action::React(format!("{}:{}", self.tag, module))])
    }

    fn help(&mut self, _: usize, _: Option<&str>) -> Result<String, CallError> {
        Ok(self.tag.clone())
    }

    fn admin(&mut self, _: usize, _: &str, _: &str, _: &str) -> Result<Vec<Action>, CallError> {
        Ok(Vec::new())
    }
}

struct NoRooms;

impl RoomResolver for NoRooms {
    fn resolve_room(&mut self, _: &str) -> Result<Option<String>, CallError> {
        Ok(None)
    }
}

/// What stands for the handle of the persistent store.
#[derive(Debug, PartialEq)]
struct Store(u32);

type Ctx = AppCtx<Tagged, NoRooms, Store>;

fn context(tag: &str, names: &[&str]) -> Ctx {
    AppCtx::with_registry(
        Registry { names: names.iter().map(|n| n.to_string()).collect(), sandbox: Tagged::new(tag, names) },
        vec!["modules".to_string()],
        ModulesConfig::new(),
        Store(7),
        "@admin:server".to_string(),
        NoRooms,
    )
}

/// Runs the rebuild that `job` describes in `sandbox` and ends it.
fn rebuild(ctx: &mut Ctx, job: RebuildJob, sandbox: Tagged) -> Option<BuildError> {
    let outcome = job.build(sandbox);
    ctx.finish_rebuild(outcome)
}

#[test]
fn constants_are_the_documented_ones() {
    assert_eq!(BYTECODE_EXTENSION, "wasm");
    assert_eq!(QUIET_INTERVAL_SECS, 1);
}

#[test]
fn only_changes_to_bytecode_files_are_relevant() {
    let wasm = vec![Some("txt".to_string()), Some("wasm".to_string())];
    let other = vec![Some("txt".to_string()), None, Some("wasmx".to_string())];
    assert!(is_relevant_change(ChangeKind::Create, &wasm));
    assert!(is_relevant_change(ChangeKind::Modify, &wasm));
    assert!(is_relevant_change(ChangeKind::Remove, &wasm));
    assert!(!is_relevant_change(ChangeKind::Access, &wasm));
    assert!(!is_relevant_change(ChangeKind::Any, &wasm));
    assert!(!is_relevant_change(ChangeKind::Other, &wasm));
    assert!(!is_relevant_change(ChangeKind::Modify, &other));
    assert!(!is_relevant_change(ChangeKind::Modify, &Vec::new()));
    assert!(has_bytecode_extension(&Some("wasm".to_string())));
    assert!(!has_bytecode_extension(&Some("Wasm".to_string())));
    assert!(!has_bytecode_extension(&None));
}

#[test]
fn controller_follows_its_transition_table() {
    let (idle, pending, rebuilding) =
        (ReloadState::Idle, ReloadState::PendingRebuild, ReloadState::Rebuilding);
    let (changed, elapsed, finished) =
        (ReloadEvent::Changed, ReloadEvent::QuietElapsed, ReloadEvent::RebuildFinished);
    assert_eq!(idle.on_event(changed), (pending, ReloadAction::StartTimer));
    assert_eq!(pending.on_event(changed), (pending, ReloadAction::Nothing));
    assert_eq!(rebuilding.on_event(changed), (rebuilding, ReloadAction::Nothing));
    assert_eq!(idle.on_event(elapsed), (idle, ReloadAction::Nothing));
    assert_eq!(pending.on_event(elapsed), (rebuilding, ReloadAction::LaunchRebuild));
    assert_eq!(rebuilding.on_event(elapsed), (rebuilding, ReloadAction::Nothing));
    assert_eq!(idle.on_event(finished), (idle, ReloadAction::Nothing));
    assert_eq!(pending.on_event(finished), (idle, ReloadAction::Nothing));
    assert_eq!(rebuilding.on_event(finished), (idle, ReloadAction::Nothing));
    assert!(!idle.pending());
    assert!(pending.pending());
    assert!(rebuilding.pending());
}

#[test]
fn two_changes_inside_the_quiet_interval_give_one_rebuild() {
    let mut ctx = context("old", &["echo"]);
    assert!(!ctx.needs_recompile());
    let mut timers = 0;
    let mut rebuilds = 0;
    // the file is modified, and modified again before the timer fires
    if ctx.set_needs_recompile() {
        timers += 1;
    }
    if ctx.set_needs_recompile() {
        timers += 1;
    }
    assert!(ctx.needs_recompile());
    // the timer fires once
    for _ in 0..timers {
        if let Some(job) = ctx.begin_rebuild() {
            rebuilds += 1;
            assert_eq!(rebuild(&mut ctx, job, Tagged::new("new", &["echo", "dice"])), None);
        }
    }
    assert_eq!(timers, 1);
    assert_eq!(rebuilds, 1);
    assert!(!ctx.needs_recompile());
    assert_eq!(ctx.modules.names, vec!["echo".to_string(), "dice".to_string()]);
}

#[test]
fn a_change_during_the_rebuild_is_absorbed() {
    let mut ctx = context("old", &["echo"]);
    assert!(ctx.set_needs_recompile());
    let job = ctx.begin_rebuild().unwrap();
    assert_eq!(job.paths, vec!["modules".to_string()]);
    assert_eq!(ctx.reload, ReloadState::Rebuilding);
    assert!(!ctx.set_needs_recompile());
    assert!(ctx.begin_rebuild().is_none());
    assert_eq!(rebuild(&mut ctx, job, Tagged::new("new", &["echo"])), None);
    assert_eq!(ctx.reload, ReloadState::Idle);
    assert!(ctx.set_needs_recompile());
}

#[test]
fn the_quiet_interval_without_a_change_launches_nothing() {
    let mut ctx = context("old", &["echo"]);
    assert!(ctx.begin_rebuild().is_none());
    assert_eq!(ctx.reload, ReloadState::Idle);
}

#[test]
fn a_failed_rebuild_keeps_the_registry() {
    let mut ctx = context("old", &["echo", "weather"]);
    let before = ctx.run_dispatch("@user:server", "!room:server", "hi");
    assert!(ctx.set_needs_recompile());
    let job = ctx.begin_rebuild().unwrap();
    let mut broken = Tagged::new("new", &["echo", "dice"]);
    broken.fail = true;
    let failure = rebuild(&mut ctx, job, broken);
    assert_eq!(
        failure,
        Some(BuildError::Load { file: "echo".to_string(), detail: "cannot compile echo".to_string() })
    );
    assert!(!ctx.needs_recompile());
    assert_eq!(ctx.modules.names, vec!["echo".to_string(), "weather".to_string()]);
    assert_eq!(ctx.modules.sandbox.tag, "old");
    let after = ctx.run_dispatch("@user:server", "!room:server", "hi");
    assert_eq!(before, after);
    assert_eq!(after, vec![Action::React("old:0".to_string())]);
}

#[test]
fn a_successful_rebuild_replaces_registry_and_context_together() {
    let mut ctx = context("old", &["echo"]);
    assert!(ctx.set_needs_recompile());
    let job = ctx.begin_rebuild().unwrap();
    // a dispatch may run while the registry is being built
    assert_eq!(
        ctx.run_dispatch("@user:server", "!room:server", "hi"),
        vec![Action::React("old:0".to_string())]
    );
    assert_eq!(rebuild(&mut ctx, job, Tagged::new("new", &["dice"])), None);
    assert_eq!(ctx.modules.names, vec!["dice".to_string()]);
    assert_eq!(
        ctx.run_dispatch("@user:server", "!room:server", "hi"),
        vec![Action::React("new:0".to_string())]
    );
    assert_eq!(ctx.modules_paths, vec!["modules".to_string()]);
    assert_eq!(ctx.admin_user_id, "@admin:server");
}

#[test]
fn install_registry_clears_the_flag() {
    let mut ctx = context("old", &["echo"]);
    assert!(ctx.set_needs_recompile());
    ctx.install_registry(Registry { names: vec!["b".to_string()], sandbox: Tagged::new("n", &["b"]) });
    assert!(!ctx.needs_recompile());
    assert_eq!(ctx.modules.names, vec!["b".to_string()]);
    let failure = ctx.finish_rebuild(Err(BuildError::Scan { dir: "d".to_string(), detail: "x".to_string() }));
    assert_eq!(failure, Some(BuildError::Scan { dir: "d".to_string(), detail: "x".to_string() }));
    assert_eq!(ctx.modules.names, vec!["b".to_string()]);
}

#[test]
fn run_dispatch_uses_the_administrator_of_the_context() {
    let mut ctx = context("t", &["echo"]);
    assert_eq!(
        ctx.run_dispatch("@admin:server", "!room:server", "!admin"),
        vec![Action::Respond(trinity::action::Message {
            text: "missing module and command".to_string(),
            html: None,
            to: "@admin:server".to_string()
        })]
    );
    assert_eq!(
        ctx.run_dispatch("@user:server", "!room:server", "!admin"),
        vec![Action::React("t:0".to_string())]
    );
}

#[test]
fn a_context_starts_with_the_registry_it_builds() {
    let ctx = AppCtx::new(
        Tagged::new("first", &["echo", "dice"]),
        vec!["modules".to_string()],
        ModulesConfig::new(),
        Store(1),
        "@admin:server".to_string(),
        NoRooms,
    )
    .ok()
    .unwrap();
    assert_eq!(ctx.db, Store(1));
    assert_eq!(ctx.modules.names, vec!["echo".to_string(), "dice".to_string()]);
    assert_eq!(ctx.reload, ReloadState::Idle);
    assert!(!ctx.needs_recompile());
    assert_eq!(ctx.admin_user_id, "@admin:server");
}

#[test]
fn there_is_no_context_without_a_registry() {
    let mut broken = Tagged::new("first", &["echo"]);
    broken.fail = true;
    let result = AppCtx::new(
        broken,
        vec!["modules".to_string()],
        ModulesConfig::new(),
        Store(1),
        "@admin:server".to_string(),
        NoRooms,
    );
    assert_eq!(
        result.err(),
        Some(BuildError::Load { file: "echo".to_string(), detail: "cannot compile echo".to_string() })
    );
}

#[test]
fn a_dispatch_leaves_the_context_as_it_was() {
    let mut ctx = context("t", &["echo", "dice"]);
    assert!(ctx.set_needs_recompile());
    let actions = ctx.run_dispatch("@user:server", "!room:server", "hello");
    assert_eq!(actions, vec![Action::React("t:0".to_string())]);
    assert_eq!(ctx.modules.names, vec!["echo".to_string(), "dice".to_string()]);
    assert_eq!(ctx.modules.sandbox.tag, "t");
    assert_eq!(ctx.modules_paths, vec!["modules".to_string()]);
    assert_eq!(ctx.admin_user_id, "@admin:server");
    assert_eq!(ctx.db, Store(7));
    assert_eq!(ctx.reload, ReloadState::PendingRebuild);
}
