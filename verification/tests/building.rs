use trinity::action::Action;
use trinity::builder::{
    select_bytecode, BuildError, BuildOutcome, BuildRequest, DirEntry, RegistryBuild,
};
use trinity::dispatch::CallError;
use trinity::host::{build, perform_build, Sandbox};
use trinity::registry::{clone_names, clone_settings, ModulesConfig, Settings};

fn entry(path: &str, extension: Option<&str>) -> DirEntry {
    DirEntry { path: path.to_string(), extension: extension.map(|e| e.to_string()) }
}

fn failure(detail: &str) -> CallError {
    CallError { detail: detail.to_string() }
}

fn paths(list: &[&str]) -> Vec<String> {
    list.iter().map(|s| s.to_string()).collect()
}

fn settings(pairs: &[(&str, &str)]) -> Settings {
    pairs.iter().map(|(k, v)| (k.to_string(), v.to_string())).collect()
}

/// A disk and a loader that answer from tables and record what they are
/// asked.
struct Disk {
    dirs: Vec<(String, Result<Vec<DirEntry>, CallError>)>,
    broken: Vec<String>,
    refuses_init: Vec<String>,
    loaded: Vec<String>,
    inits: Vec<(usize, Option<Settings>)>,
    scans: Vec<String>,
}

impl Disk {
    fn new() -> Disk {
        Disk {
            dirs: Vec::new(),
            broken: Vec::new(),
            refuses_init: Vec::new(),
            loaded: Vec::new(),
            inits: Vec::new(),
            scans: Vec::new(),
        }
    }

    fn with(mut self, dir: &str, entries: Vec<DirEntry>) -> Disk {
        self.dirs.push((dir.to_string(), Ok(entries)));
        self
    }
}

impl Sandbox for Disk {
    fn scan(&mut self, dir: &str) -> Result<Vec<DirEntry>, CallError> {
        self.scans.push(dir.to_string());
        match self.dirs.iter().find(|(d, _)| d == dir) {
            Some((_, Ok(entries))) => Ok(entries.clone()),
            Some((_, Err(e))) => Err(e.clone()),
            None => Err(failure("no such directory")),
        }
    }

    fn load(&mut self, file: &str) -> Result<String, CallError> {
        if self.broken.iter().any(|b| b == file) {
            return Err(failure("bad bytecode"));
        }
        let stem = file.rsplit('/').next().unwrap().trim_end_matches(".wasm");
        let name = format!("mod-{}", stem);
        self.loaded.push(name.clone());
        Ok(name)
    }

    fn init(&mut self, module: usize, settings: Option<&Settings>) -> Result<(), CallError> {
        self.inits.push((module, settings.cloned()));
        if self.refuses_init.iter().any(|n| *n == self.loaded[module]) {
            return Err(failure("init failed"));
        }
        Ok(())
    }

    fn handle(&mut self, _: usize, _: &str, _: &str, _: &str) -> Result<Vec<Action>, CallError> {
        Ok(Vec::new())
    }

    fn help(&mut self, _: usize, _: Option<&str>) -> Result<String, CallError> {
        Ok(String::new())
    }

    fn admin(&mut self, _: usize, _: &str, _: &str, _: &str) -> Result<Vec<Action>, CallError> {
        Ok(Vec::new())
    }
}

#[test]
fn select_bytecode_keeps_wasm_files_in_order() {
    let entries = vec![
        entry("m/b.wasm", Some("wasm")),
        entry("m/readme.md", Some("md")),
        entry("m/noext", None),
        entry("m/a.wasm", Some("wasm")),
        entry("m/upper.WASM", Some("WASM")),
        entry("m/wasm", None),
        entry("m/c.wasm.bak", Some("bak")),
    ];
    assert_eq!(select_bytecode(&entries), paths(&["m/b.wasm", "m/a.wasm"]));
    assert_eq!(select_bytecode(&Vec::new()), Vec::<String>::new());
}

#[test]
fn config_returns_the_settings_that_were_set_last() {
    let mut config = ModulesConfig::new();
    assert_eq!(config.get("echo"), None);
    config.insert("echo".to_string(), settings(&[("loud", "yes")]));
    config.insert("dice".to_string(), settings(&[]));
    assert_eq!(config.get("echo"), Some(&settings(&[("loud", "yes")])));
    assert_eq!(config.get("dice"), Some(&settings(&[])));
    assert_eq!(config.get("weather"), None);
    config.insert("echo".to_string(), settings(&[("loud", "no"), ("times", "2")]));
    assert_eq!(config.get("echo"), Some(&settings(&[("loud", "no"), ("times", "2")])));
    assert_eq!(config.get("dice"), Some(&settings(&[])));
}

#[test]
fn a_copied_config_answers_as_the_one_it_was_copied_from() {
    let mut config = ModulesConfig::new();
    config.insert("echo".to_string(), settings(&[("loud", "yes")]));
    config.insert("dice".to_string(), settings(&[]));
    let copy = config.copy();
    config.insert("echo".to_string(), settings(&[("loud", "no")]));
    assert_eq!(copy.get("echo"), Some(&settings(&[("loud", "yes")])));
    assert_eq!(copy.get("dice"), Some(&settings(&[])));
    assert_eq!(copy.get("weather"), None);
    assert_eq!(ModulesConfig::new().copy().get("echo"), None);
}

#[test]
fn clones_keep_the_contents() {
    let s = settings(&[("a", "1"), ("b", "2")]);
    assert_eq!(clone_settings(&s), s);
    let n = paths(&["x", "y"]);
    assert_eq!(clone_names(&n), n);
}

#[test]
fn build_loads_every_bytecode_file_in_scan_order() {
    let sandbox = Disk::new()
        .with("one", vec![entry("one/b.wasm", Some("wasm")), entry("one/notes.txt", Some("txt"))])
        .with("empty", vec![])
        .with("two", vec![entry("two/a.wasm", Some("wasm")), entry("two/c.wasm", Some("wasm"))]);
    let mut config = ModulesConfig::new();
    config.insert("mod-a".to_string(), settings(&[("key", "value")]));
    let registry = build(sandbox, &paths(&["one", "empty", "two"]), &config).unwrap();
    assert_eq!(registry.names, paths(&["mod-b", "mod-a", "mod-c"]));
    assert_eq!(registry.len(), 3);
    assert_eq!(registry.sandbox.scans, paths(&["one", "empty", "two"]));
    assert_eq!(
        registry.sandbox.inits,
        vec![(0, None), (1, Some(settings(&[("key", "value")]))), (2, None)]
    );
}

#[test]
fn build_over_no_search_path_gives_an_empty_registry() {
    let registry = build(Disk::new(), &paths(&[]), &ModulesConfig::new()).unwrap();
    assert!(registry.names.is_empty());
    assert!(registry.sandbox.scans.is_empty());
}

#[test]
fn build_fails_as_a_whole_when_a_module_does_not_load() {
    let mut sandbox = Disk::new()
        .with("one", vec![entry("one/a.wasm", Some("wasm")), entry("one/b.wasm", Some("wasm"))])
        .with("two", vec![entry("two/c.wasm", Some("wasm"))]);
    sandbox.broken.push("one/b.wasm".to_string());
    let result = build(sandbox, &paths(&["one", "two"]), &ModulesConfig::new());
    assert_eq!(
        result.err(),
        Some(BuildError::Load { file: "one/b.wasm".to_string(), detail: "bad bytecode".to_string() })
    );
}

#[test]
fn build_fails_as_a_whole_when_a_module_does_not_initialise() {
    let mut sandbox = Disk::new().with("one", vec![entry("one/a.wasm", Some("wasm"))]);
    sandbox.refuses_init.push("mod-a".to_string());
    let result = build(sandbox, &paths(&["one"]), &ModulesConfig::new());
    assert_eq!(
        result.err(),
        Some(BuildError::Init { module: "mod-a".to_string(), detail: "init failed".to_string() })
    );
}

#[test]
fn build_fails_when_a_search_path_cannot_be_scanned() {
    let sandbox = Disk::new().with("one", vec![entry("one/a.wasm", Some("wasm"))]);
    let result = build(sandbox, &paths(&["one", "gone"]), &ModulesConfig::new());
    assert_eq!(
        result.err(),
        Some(BuildError::Scan { dir: "gone".to_string(), detail: "no such directory".to_string() })
    );
}

#[test]
fn build_machine_names_each_call() {
    let dirs = paths(&["one"]);
    let mut config = ModulesConfig::new();
    config.insert("echo".to_string(), settings(&[("k", "v")]));
    let (mut b, request) = RegistryBuild::start(&dirs, &config);
    assert_eq!(request, BuildRequest::Scan { dir: "one".to_string() });
    assert!(!b.is_complete());
    assert!(b.expects(&BuildOutcome::Scanned(Ok(vec![]))));
    assert!(!b.expects(&BuildOutcome::Loaded(Ok("x".to_string()))));
    assert_eq!(b.advance(BuildOutcome::Initialized(Ok(()))), None);
    let request = b
        .advance(BuildOutcome::Scanned(Ok(vec![
            entry("one/x.txt", Some("txt")),
            entry("one/e.wasm", Some("wasm")),
        ])))
        .unwrap();
    assert_eq!(request, BuildRequest::Load { file: "one/e.wasm".to_string() });
    let request = b.advance(BuildOutcome::Loaded(Ok("echo".to_string()))).unwrap();
    assert_eq!(request, BuildRequest::Init { module: 0, settings: Some(settings(&[("k", "v")])) });
    let request = b.advance(BuildOutcome::Initialized(Ok(()))).unwrap();
    assert_eq!(request, BuildRequest::Done);
    assert!(b.is_complete());
    assert_eq!(b.into_names(), paths(&["echo"]));
}

#[test]
fn perform_build_makes_the_call_that_is_asked_for() {
    let mut sandbox = Disk::new().with("one", vec![entry("one/a.wasm", Some("wasm"))]);
    let outcome = perform_build(&mut sandbox, &BuildRequest::Scan { dir: "one".to_string() });
    assert!(matches!(outcome, BuildOutcome::Scanned(Ok(entries)) if entries.len() == 1));
    let outcome = perform_build(&mut sandbox, &BuildRequest::Load { file: "one/a.wasm".to_string() });
    assert!(matches!(outcome, BuildOutcome::Loaded(Ok(name)) if name == "mod-a"));
    let outcome = perform_build(
        &mut sandbox,
        &BuildRequest::Init { module: 0, settings: Some(settings(&[("a", "b")])) },
    );
    assert!(matches!(outcome, BuildOutcome::Initialized(Ok(()))));
    assert_eq!(sandbox.inits, vec![(0, Some(settings(&[("a", "b")])))]);
}
