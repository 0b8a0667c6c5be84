//! Building a registry: every search path is scanned for bytecode files,
//! and every such file is loaded and initialised, in scan order. One
//! failure fails the whole build.
//!
//! Scanning a directory and running a module's code are outside work, so a
//! `RegistryBuild` is a state machine like a dispatch: it names the next
//! call as a `BuildRequest` and takes what came back as a `BuildOutcome`.

use crate::dispatch::CallError;
use crate::registry::{clone_settings, ModulesConfig, Settings, SettingsView};
use crate::reload::{has_bytecode_extension, is_bytecode};
use vstd::prelude::*;

verus! {

/// One entry of a scanned directory: its path, and the extension of its
/// file name if it has one.
#[derive(Clone, Debug, PartialEq, Eq)]
pub struct DirEntry {
    pub path: String,
    pub extension: Option<String>,
}

/// The mathematical value of a `DirEntry`.
pub struct DirEntryView {
    pub path: Seq<char>,
    pub extension: Option<Seq<char>>,
}

impl View for DirEntry {
    type V = DirEntryView;

    open spec fn view(&self) -> DirEntryView {
        DirEntryView { path: self.path@, extension: self.extension.deep_view() }
    }
}

impl DeepView for DirEntry {
    type V = DirEntryView;

    open spec fn deep_view(&self) -> DirEntryView {
        self@
    }
}

/// The paths of the bytecode files among `entries`, in their order.
pub open spec fn bytecode_files(entries: Seq<DirEntryView>) -> Seq<Seq<char>>
    decreases entries.len(),
{
    if entries.len() == 0 {
        Seq::empty()
    } else if is_bytecode(entries.last().extension) {
        bytecode_files(entries.drop_last()).push(entries.last().path)
    } else {
        bytecode_files(entries.drop_last())
    }
}

/// Computes `bytecode_files`.
pub fn select_bytecode(entries: &Vec<DirEntry>) -> (files: Vec<String>)
    ensures
        files.deep_view() == bytecode_files(entries.deep_view()),
{
    let mut files: Vec<String> = Vec::new();
    let mut i: usize = 0;
    assert(entries.deep_view().take(0) =~= Seq::<DirEntryView>::empty());
    while i < entries.len()
        invariant
            i <= entries.len(),
            files.deep_view() == bytecode_files(entries.deep_view().take(i as int)),
        decreases entries.len() - i,
    {
        let ghost before = files.deep_view();
        let ghost seen = entries.deep_view().take(i + 1);
        assert(seen.drop_last() =~= entries.deep_view().take(i as int));
        assert(seen.last() == entries@[i as int]@);
        if has_bytecode_extension(&entries[i].extension) {
            files.push(entries[i].path.clone());
            assert(files.deep_view() =~= before.push(entries@[i as int].path@));
        }
        i += 1;
    }
    assert(entries.deep_view().take(entries.len() as int) =~= entries.deep_view());
    files
}

/// Why a build failed.
#[derive(Clone, Debug, PartialEq, Eq)]
pub enum BuildError {
    /// The search path `dir` could not be scanned.
    Scan { dir: String, detail: String },
    /// The bytecode file `file` could not be loaded as a module.
    Load { file: String, detail: String },
    /// The module that calls itself `module` could not be initialised.
    Init { module: String, detail: String },
}

/// The mathematical value of a `BuildError`.
pub enum BuildErrorView {
    Scan { dir: Seq<char>, detail: Seq<char> },
    Load { file: Seq<char>, detail: Seq<char> },
    Init { module: Seq<char>, detail: Seq<char> },
}

impl View for BuildError {
    type V = BuildErrorView;

    open spec fn view(&self) -> BuildErrorView {
        match self {
            BuildError::Scan { dir, detail } => BuildErrorView::Scan {
                dir: dir@,
                detail: detail@,
            },
            BuildError::Load { file, detail } => BuildErrorView::Load {
                file: file@,
                detail: detail@,
            },
            BuildError::Init { module, detail } => BuildErrorView::Init {
                module: module@,
                detail: detail@,
            },
        }
    }
}

/// What the outside answers during one build, should it be asked; an error
/// is given by its detail.
pub struct BuildAnswers {
    /// The entries of each search path.
    pub scans: Seq<Result<Seq<DirEntryView>, Seq<char>>>,
    /// The name that each module declares when it is loaded; modules are
    /// counted in load order.
    pub loads: Seq<Result<Seq<char>, Seq<char>>>,
    /// Whether each module can be initialised.
    pub inits: Seq<Result<(), Seq<char>>>,
}

/// The names of the modules once the bytecode files `files` are loaded and
/// initialised as well, behind the modules `names`; or the first failure.
pub open spec fn load_all(files: Seq<Seq<char>>, a: BuildAnswers, names: Seq<Seq<char>>) -> Result<
    Seq<Seq<char>>,
    BuildErrorView,
>
    decreases files.len(),
{
    if files.len() == 0 {
        Ok(names)
    } else {
        match a.loads[names.len() as int] {
            Err(detail) => Err(BuildErrorView::Load { file: files[0], detail }),
            Ok(name) => match a.inits[names.len() as int] {
                Err(detail) => Err(BuildErrorView::Init { module: name, detail }),
                Ok(_) => load_all(files.drop_first(), a, names.push(name)),
            },
        }
    }
}

/// The names of the modules once the search paths from `dir` on are
/// processed as well, behind the modules `names`; or the first failure.
pub open spec fn build_from(paths: Seq<Seq<char>>, a: BuildAnswers, dir: int, names: Seq<Seq<char>>)
    -> Result<Seq<Seq<char>>, BuildErrorView>
    decreases paths.len() - dir,
{
    if dir < 0 || dir >= paths.len() {
        Ok(names)
    } else {
        match a.scans[dir] {
            Err(detail) => Err(BuildErrorView::Scan { dir: paths[dir], detail }),
            Ok(entries) => match load_all(bytecode_files(entries), a, names) {
                Err(error) => Err(error),
                Ok(loaded) => build_from(paths, a, dir + 1, loaded),
            },
        }
    }
}

/// What building a registry over the search paths `paths` gives: the names
/// of the loaded modules in scan order, or the first failure.
pub open spec fn built(paths: Seq<Seq<char>>, a: BuildAnswers) -> Result<
    Seq<Seq<char>>,
    BuildErrorView,
> {
    build_from(paths, a, 0, Seq::empty())
}

/// The next thing to do for a build.
#[derive(Clone, Debug, PartialEq, Eq)]
pub enum BuildRequest {
    /// List the entries of the search path `dir`.
    Scan { dir: String },
    /// Load the bytecode file `file` as the next module.
    Load { file: String },
    /// Initialise the module at index `module` with `settings`.
    Init { module: usize, settings: Option<Settings> },
    /// The build is complete.
    Done,
    /// The build has failed.
    Failed { error: BuildError },
}

/// The mathematical value of a `BuildRequest`.
pub enum BuildRequestView {
    Scan { dir: Seq<char> },
    Load { file: Seq<char> },
    Init { module: int, settings: Option<SettingsView> },
    Done,
    Failed { error: BuildErrorView },
}

impl View for BuildRequest {
    type V = BuildRequestView;

    open spec fn view(&self) -> BuildRequestView {
        match self {
            BuildRequest::Scan { dir } => BuildRequestView::Scan { dir: dir@ },
            BuildRequest::Load { file } => BuildRequestView::Load { file: file@ },
            BuildRequest::Init { module, settings } => BuildRequestView::Init {
                module: *module as int,
                settings: settings.deep_view(),
            },
            BuildRequest::Done => BuildRequestView::Done,
            BuildRequest::Failed { error } => BuildRequestView::Failed { error: error@ },
        }
    }
}

/// What an outside call of a build returned.
#[derive(Debug)]
pub enum BuildOutcome {
    /// The answer to `BuildRequest::Scan`.
    Scanned(Result<Vec<DirEntry>, CallError>),
    /// The answer to `BuildRequest::Load`: the name that the module
    /// declares.
    Loaded(Result<String, CallError>),
    /// The answer to `BuildRequest::Init`.
    Initialized(Result<(), CallError>),
}

/// The mathematical value of a `BuildOutcome`.
pub enum BuildOutcomeView {
    Scanned { entries: Result<Seq<DirEntryView>, Seq<char>> },
    Loaded { name: Result<Seq<char>, Seq<char>> },
    Initialized { done: Result<(), Seq<char>> },
}

impl View for BuildOutcome {
    type V = BuildOutcomeView;

    open spec fn view(&self) -> BuildOutcomeView {
        match self {
            BuildOutcome::Scanned(r) => BuildOutcomeView::Scanned {
                entries: match r {
                    Ok(entries) => Ok(entries.deep_view()),
                    Err(e) => Err(e.detail@),
                },
            },
            BuildOutcome::Loaded(r) => BuildOutcomeView::Loaded {
                name: match r {
                    Ok(name) => Ok(name@),
                    Err(e) => Err(e.detail@),
                },
            },
            BuildOutcome::Initialized(r) => BuildOutcomeView::Initialized {
                done: match r {
                    Ok(_) => Ok(()),
                    Err(e) => Err(e.detail@),
                },
            },
        }
    }
}

/// Which answer a build waits for.
#[derive(Clone, Copy, Debug, PartialEq, Eq, Structural)]
pub enum BuildPhase {
    /// The entries of the search path at `dir`.
    Scanning,
    /// The name of the module in the first of `files`.
    Loading,
    /// The initialisation of the module that was loaded last.
    Initializing,
    /// None: the build is complete.
    Done,
    /// None: the build has failed.
    Failed,
}

/// The mathematical value of a `RegistryBuild`.
pub struct BuildState {
    /// The search paths.
    pub paths: Seq<Seq<char>>,
    /// The per-module configuration.
    pub config: Map<Seq<char>, SettingsView>,
    /// The index of the search path that is being processed.
    pub dir: int,
    /// The bytecode files of that search path that are not initialised yet.
    pub files: Seq<Seq<char>>,
    /// The names of the modules that were loaded so far.
    pub names: Seq<Seq<char>>,
    pub phase: BuildPhase,
}

impl BuildState {
    /// The search path, file and module that are being asked about exist.
    pub open spec fn wf(self) -> bool {
        &&& 0 <= self.dir <= self.paths.len()
        &&& !(self.phase is Done) ==> self.dir < self.paths.len()
        &&& self.phase is Loading ==> self.files.len() > 0
        &&& self.phase is Initializing ==> self.files.len() > 0 && self.names.len() > 0
    }
}

/// The settings that the configuration holds for the module `name`.
pub open spec fn settings_for(config: Map<Seq<char>, SettingsView>, name: Seq<char>) -> Option<
    SettingsView,
> {
    if config.dom().contains(name) {
        Some(config[name])
    } else {
        None
    }
}

/// Turns to the search path at `dir`: asks for its entries, or completes
/// the build if there is no such path.
pub open spec fn next_dir(s: BuildState, dir: int) -> (BuildState, BuildRequestView) {
    if dir < s.paths.len() {
        (
            BuildState { dir, files: Seq::empty(), phase: BuildPhase::Scanning, ..s },
            BuildRequestView::Scan { dir: s.paths[dir] },
        )
    } else {
        (
            BuildState { dir, files: Seq::empty(), phase: BuildPhase::Done, ..s },
            BuildRequestView::Done,
        )
    }
}

/// Turns to the next file of the current search path, or to the next
/// search path if no file is left.
pub open spec fn next_file(s: BuildState) -> (BuildState, BuildRequestView) {
    if s.files.len() > 0 {
        (
            BuildState { phase: BuildPhase::Loading, ..s },
            BuildRequestView::Load { file: s.files[0] },
        )
    } else {
        next_dir(s, s.dir + 1)
    }
}

/// The state a build starts in, and its first request.
pub open spec fn start_build(paths: Seq<Seq<char>>, config: Map<Seq<char>, SettingsView>) -> (
    BuildState,
    BuildRequestView,
) {
    next_dir(
        BuildState {
            paths,
            config,
            dir: 0,
            files: Seq::empty(),
            names: Seq::empty(),
            phase: BuildPhase::Done,
        },
        0,
    )
}

/// Whether `o` answers the request that `s` waits for.
pub open spec fn build_expects(s: BuildState, o: BuildOutcomeView) -> bool {
    match s.phase {
        BuildPhase::Scanning => o is Scanned,
        BuildPhase::Loading => o is Loaded,
        BuildPhase::Initializing => o is Initialized,
        BuildPhase::Done => false,
        BuildPhase::Failed => false,
    }
}

/// The failed state, with the request that says why.
pub open spec fn fail(s: BuildState, error: BuildErrorView) -> (BuildState, BuildRequestView) {
    (BuildState { phase: BuildPhase::Failed, ..s }, BuildRequestView::Failed { error })
}

/// The state after the answer `o`, and the next request. Any failure
/// fails the build. A module that was loaded is initialised with the
/// settings that the configuration holds for the name it declares.
pub open spec fn build_step(s: BuildState, o: BuildOutcomeView) -> (BuildState, BuildRequestView) {
    match s.phase {
        BuildPhase::Scanning => match o->entries {
            Ok(entries) => next_file(BuildState { files: bytecode_files(entries), ..s }),
            Err(detail) => fail(s, BuildErrorView::Scan { dir: s.paths[s.dir], detail }),
        },
        BuildPhase::Loading => match o->name {
            Ok(name) => (
                BuildState { names: s.names.push(name), phase: BuildPhase::Initializing, ..s },
                BuildRequestView::Init {
                    module: s.names.len() as int,
                    settings: settings_for(s.config, name),
                },
            ),
            Err(detail) => fail(s, BuildErrorView::Load { file: s.files[0], detail }),
        },
        BuildPhase::Initializing => match o->done {
            Ok(_) => next_file(BuildState { files: s.files.drop_first(), ..s }),
            Err(detail) => fail(s, BuildErrorView::Init { module: s.names.last(), detail }),
        },
        BuildPhase::Done => (s, BuildRequestView::Done),
        BuildPhase::Failed => (s, BuildRequestView::Done),
    }
}

/// What the outside answers to the request `r` of a build in state `s`.
pub open spec fn build_answer(a: BuildAnswers, s: BuildState, r: BuildRequestView)
    -> BuildOutcomeView {
    match r {
        BuildRequestView::Scan { dir } => BuildOutcomeView::Scanned { entries: a.scans[s.dir] },
        BuildRequestView::Load { file } => BuildOutcomeView::Loaded {
            name: a.loads[s.names.len() as int],
        },
        BuildRequestView::Init { module, settings } => BuildOutcomeView::Initialized {
            done: a.inits[module],
        },
        _ => BuildOutcomeView::Initialized { done: Ok(()) },
    }
}

/// Whether `r` is the request that `s` waits for an answer to.
pub open spec fn build_pending(s: BuildState, r: BuildRequestView) -> bool {
    match s.phase {
        BuildPhase::Scanning => r == (BuildRequestView::Scan { dir: s.paths[s.dir] }),
        BuildPhase::Loading => r == (BuildRequestView::Load { file: s.files[0] }),
        BuildPhase::Initializing => r matches BuildRequestView::Init { module, settings }
            && module == s.names.len() - 1,
        BuildPhase::Done => r is Done,
        BuildPhase::Failed => r is Failed,
    }
}

/// Whether the build in state `after` is closer to its end than in state
/// `before`: it has ended, or has fewer search paths left, or has scanned
/// the current one, or has fewer files left, or has loaded the current one.
pub open spec fn closer(after: BuildState, before: BuildState) -> bool {
    let live = |s: BuildState| if s.phase is Done || s.phase is Failed { 0nat } else { 1nat };
    let dirs = |s: BuildState| (s.paths.len() - s.dir) as nat;
    let scan = |s: BuildState| if s.phase is Scanning { 1nat } else { 0nat };
    let load = |s: BuildState| if s.phase is Loading { 1nat } else { 0nat };
    ||| live(after) < live(before)
    ||| live(after) == live(before) && dirs(after) < dirs(before)
    ||| live(after) == live(before) && dirs(after) == dirs(before) && scan(after) < scan(before)
    ||| live(after) == live(before) && dirs(after) == dirs(before) && scan(after) == scan(before)
        && after.files.len() < before.files.len()
    ||| live(after) == live(before) && dirs(after) == dirs(before) && scan(after) == scan(before)
        && after.files.len() == before.files.len() && load(after) < load(before)
}

/// What a build in state `s` with the pending request `r` ends with, when
/// every request is answered as `a` says: the names of the loaded modules,
/// or the failure.
pub open spec fn run_build(s: BuildState, r: BuildRequestView, a: BuildAnswers) -> Result<
    Seq<Seq<char>>,
    BuildErrorView,
>
    decreases
        if s.phase is Done || s.phase is Failed { 0nat } else { 1nat },
        (s.paths.len() - s.dir) as nat,
        if s.phase is Scanning { 1nat } else { 0nat },
        s.files.len(),
        if s.phase is Loading { 1nat } else { 0nat },
{
    match r {
        BuildRequestView::Done => Ok(s.names),
        BuildRequestView::Failed { error } => Err(error),
        _ => {
            let (next_state, next_request) = build_step(s, build_answer(a, s, r));
            if closer(next_state, s) {
                run_build(next_state, next_request, a)
            } else {
                Ok(s.names)
            }
        },
    }
}

/// Every answer that is taken brings the build closer to its end, and
/// leaves a well-formed state that waits for the request that was handed
/// out.
pub proof fn lemma_build_step(s: BuildState, o: BuildOutcomeView)
    requires
        s.wf(),
        build_expects(s, o),
    ensures
        build_step(s, o).0.wf(),
        build_pending(build_step(s, o).0, build_step(s, o).1),
        closer(build_step(s, o).0, s),
        build_step(s, o).0.paths == s.paths,
        build_step(s, o).0.config == s.config,
{
}

/// A build starts in a well-formed state that waits for its first request.
pub proof fn lemma_build_start(paths: Seq<Seq<char>>, config: Map<Seq<char>, SettingsView>)
    ensures
        start_build(paths, config).0.wf(),
        build_pending(start_build(paths, config).0, start_build(paths, config).1),
        start_build(paths, config).0.paths == paths,
        start_build(paths, config).0.config == config,
{
}

/// From the search path at `dir` on, a build ends as `build_from` says.
pub proof fn lemma_run_dirs(s: BuildState, dir: int, a: BuildAnswers)
    requires
        0 <= dir <= s.paths.len(),
    ensures
        run_build(next_dir(s, dir).0, next_dir(s, dir).1, a) == build_from(
            s.paths,
            a,
            dir,
            s.names,
        ),
    decreases s.paths.len() - dir, 1nat, 0nat,
{
    reveal_with_fuel(run_build, 2);
    if dir < s.paths.len() {
        let (s1, r1) = next_dir(s, dir);
        let o = build_answer(a, s1, r1);
        lemma_build_step(s1, o);
        match a.scans[dir] {
            Ok(entries) => {
                let s2 = BuildState { files: bytecode_files(entries), ..s1 };
                lemma_run_files(s2, a);
            },
            Err(detail) => {},
        }
    }
}

/// From the first of the files left on, a build ends as `load_all` says
/// for the current search path and `build_from` for those behind it.
pub proof fn lemma_run_files(s: BuildState, a: BuildAnswers)
    requires
        0 <= s.dir < s.paths.len(),
    ensures
        run_build(next_file(s).0, next_file(s).1, a) == match load_all(s.files, a, s.names) {
            Err(error) => Err(error),
            Ok(loaded) => build_from(s.paths, a, s.dir + 1, loaded),
        },
    decreases s.paths.len() - s.dir, 0nat, s.files.len(),
{
    reveal_with_fuel(run_build, 3);
    if s.files.len() == 0 {
        lemma_run_dirs(s, s.dir + 1, a);
    } else {
        let (s1, r1) = next_file(s);
        let o1 = build_answer(a, s1, r1);
        lemma_build_step(s1, o1);
        let (s2, r2) = build_step(s1, o1);
        match a.loads[s.names.len() as int] {
            Ok(name) => {
                let o2 = build_answer(a, s2, r2);
                lemma_build_step(s2, o2);
                match a.inits[s.names.len() as int] {
                    Ok(_) => {
                        let s3 = BuildState { files: s2.files.drop_first(), ..s2 };
                        lemma_run_files(s3, a);
                        assert(next_dir(s3, s3.dir + 1) == next_dir(s3, s.dir + 1));
                    },
                    Err(detail) => {},
                }
            },
            Err(detail) => {},
        }
    }
}

/// Driven to its end, a build gives what `built` says: the names of the
/// modules in scan order, or the first failure.
pub proof fn lemma_run_is_built(
    paths: Seq<Seq<char>>,
    config: Map<Seq<char>, SettingsView>,
    a: BuildAnswers,
)
    ensures
        run_build(start_build(paths, config).0, start_build(paths, config).1, a) == built(
            paths,
            a,
        ),
{
    let s = BuildState {
        paths,
        config,
        dir: 0,
        files: Seq::empty(),
        names: Seq::empty(),
        phase: BuildPhase::Done,
    };
    lemma_run_dirs(s, 0, a);
}

/// How many bytecode files the search paths from `from` up to `to` hold.
pub open spec fn count_files(a: BuildAnswers, from: int, to: int) -> nat
    decreases to - from,
{
    if from >= to {
        0
    } else {
        let here = match a.scans[from] {
            Ok(entries) => bytecode_files(entries).len(),
            Err(_) => 0nat,
        };
        here + count_files(a, from + 1, to)
    }
}

/// If the files of one search path are all loaded, each of them has given
/// one module, behind the modules that were there before.
pub proof fn lemma_load_all(files: Seq<Seq<char>>, a: BuildAnswers, names: Seq<Seq<char>>)
    requires
        load_all(files, a, names) is Ok,
    ensures
        ({
            let loaded = load_all(files, a, names)->Ok_0;
            &&& loaded.len() == names.len() + files.len()
            &&& loaded.take(names.len() as int) == names
            &&& forall|k: int|
                names.len() <= k < loaded.len() ==> a.loads[k] == Ok::<Seq<char>, Seq<char>>(
                    loaded[k],
                ) && a.inits[k] is Ok
        }),
    decreases files.len(),
{
    if files.len() == 0 {
        assert(names.take(names.len() as int) =~= names);
    } else {
        let name = a.loads[names.len() as int]->Ok_0;
        let more = names.push(name);
        lemma_load_all(files.drop_first(), a, more);
        let loaded = load_all(files, a, names)->Ok_0;
        assert(loaded.take(names.len() as int) =~= more.take(names.len() as int));
        assert(more.take(names.len() as int) =~= names);
        assert(loaded.take(more.len() as int)[names.len() as int] == name);
    }
}

/// A build succeeds only as a whole. If it gives a registry, every search
/// path from `dir` on was scanned, every bytecode file in them has given
/// one module, and every module was loaded and initialised without error;
/// the modules stand in the order in which they were loaded.
pub proof fn lemma_build_is_whole(
    paths: Seq<Seq<char>>,
    a: BuildAnswers,
    dir: int,
    names: Seq<Seq<char>>,
)
    requires
        0 <= dir <= paths.len(),
        build_from(paths, a, dir, names) is Ok,
    ensures
        ({
            let loaded = build_from(paths, a, dir, names)->Ok_0;
            &&& loaded.len() == names.len() + count_files(a, dir, paths.len() as int)
            &&& loaded.take(names.len() as int) == names
            &&& forall|d: int| dir <= d < paths.len() ==> (#[trigger] a.scans[d]) is Ok
            &&& forall|k: int|
                names.len() <= k < loaded.len() ==> a.loads[k] == Ok::<Seq<char>, Seq<char>>(
                    loaded[k],
                ) && a.inits[k] is Ok
        }),
    decreases paths.len() - dir,
{
    if dir >= paths.len() {
        assert(names.take(names.len() as int) =~= names);
    } else {
        let entries = a.scans[dir]->Ok_0;
        let here = load_all(bytecode_files(entries), a, names)->Ok_0;
        lemma_load_all(bytecode_files(entries), a, names);
        lemma_build_is_whole(paths, a, dir + 1, here);
        let loaded = build_from(paths, a, dir, names)->Ok_0;
        assert(loaded.take(names.len() as int) =~= here.take(names.len() as int));
        assert forall|k: int| names.len() <= k < loaded.len() implies a.loads[k] == Ok::<
            Seq<char>,
            Seq<char>,
        >(loaded[k]) && a.inits[k] is Ok by {
            if k < here.len() {
                assert(loaded.take(here.len() as int)[k] == here[k]);
            }
        }
    }
}

/// One registry on its way to being built.
pub struct RegistryBuild<'a> {
    paths: &'a Vec<String>,
    config: &'a ModulesConfig,
    dir: usize,
    files: Vec<String>,
    file: usize,
    names: Vec<String>,
    phase: BuildPhase,
}

impl<'a> View for RegistryBuild<'a> {
    type V = BuildState;

    closed spec fn view(&self) -> BuildState {
        BuildState {
            paths: self.paths.deep_view(),
            config: self.config@,
            dir: self.dir as int,
            files: self.files.deep_view().skip(self.file as int),
            names: self.names.deep_view(),
            phase: self.phase,
        }
    }
}

impl<'a> RegistryBuild<'a> {
    #[verifier::type_invariant]
    spec fn well_formed(&self) -> bool {
        self@.wf() && self.file <= self.files.len()
    }

    /// Starts the build of a registry over the search paths `paths`, with
    /// the per-module configuration `config`.
    pub fn start(paths: &'a Vec<String>, config: &'a ModulesConfig) -> (r: (
        RegistryBuild<'a>,
        BuildRequest,
    ))
        ensures
            (r.0@, r.1@) == start_build(paths.deep_view(), config@),
    {
        let mut build = RegistryBuild {
            paths,
            config,
            dir: 0,
            files: Vec::new(),
            file: 0,
            names: Vec::new(),
            phase: BuildPhase::Done,
        };
        assert(build.files.deep_view().skip(0) =~= Seq::<Seq<char>>::empty());
        assert(build.names.deep_view() =~= Seq::<Seq<char>>::empty());
        let request = build.next_dir(0);
        (build, request)
    }

    /// Whether the build is complete.
    pub fn is_complete(&self) -> (done: bool)
        ensures
            done == (self@.phase is Done),
    {
        match self.phase {
            BuildPhase::Done => true,
            _ => false,
        }
    }

    /// The names of the modules that were loaded so far, in load order.
    pub fn into_names(self) -> (names: Vec<String>)
        ensures
            names.deep_view() == self@.names,
    {
        self.names
    }

    /// Whether `outcome` answers the request that this build waits for.
    pub fn expects(&self, outcome: &BuildOutcome) -> (b: bool)
        ensures
            b == build_expects(self@, outcome@),
    {
        match (self.phase, outcome) {
            (BuildPhase::Scanning, BuildOutcome::Scanned(_)) => true,
            (BuildPhase::Loading, BuildOutcome::Loaded(_)) => true,
            (BuildPhase::Initializing, BuildOutcome::Initialized(_)) => true,
            _ => false,
        }
    }

    /// Takes the answer to the pending request and returns the next
    /// request. An `outcome` that does not answer the pending request is
    /// dropped: the build stays as it is and `None` is returned.
    pub fn advance(&mut self, outcome: BuildOutcome) -> (next: Option<BuildRequest>)
        ensures
            match next {
                Some(request) => build_expects(old(self)@, outcome@) && (final(self)@, request@)
                    == build_step(old(self)@, outcome@),
                None => !build_expects(old(self)@, outcome@) && final(self)@ == old(self)@,
            },
    {
        proof {
            use_type_invariant(&*self);
        }
        if !self.expects(&outcome) {
            return None;
        }
        let request = match outcome {
            BuildOutcome::Scanned(Ok(entries)) => {
                self.phase = BuildPhase::Done;
                self.file = 0;
                self.files = select_bytecode(&entries);
                assert(self.files.deep_view().skip(0) =~= self.files.deep_view());
                self.next_file()
            },
            BuildOutcome::Scanned(Err(e)) => {
                self.phase = BuildPhase::Failed;
                BuildRequest::Failed {
                    error: BuildError::Scan { dir: self.paths[self.dir].clone(), detail: e.detail },
                }
            },
            BuildOutcome::Loaded(Ok(name)) => {
                let settings = match self.config.get(name.as_str()) {
                    Some(s) => Some(clone_settings(s)),
                    None => None,
                };
                let module = self.names.len();
                let ghost before = self.names.deep_view();
                let ghost declared = name@;
                let mut names: Vec<String> = Vec::new();
                core::mem::swap(&mut self.names, &mut names);
                names.push(name);
                assert(names.deep_view() =~= before.push(declared));
                self.phase = BuildPhase::Done;
                self.names = names;
                self.phase = BuildPhase::Initializing;
                BuildRequest::Init { module, settings }
            },
            BuildOutcome::Loaded(Err(e)) => {
                self.phase = BuildPhase::Failed;
                assert(self.files.deep_view().skip(self.file as int)[0] == self.files@[self.file as int]@);
                BuildRequest::Failed {
                    error: BuildError::Load {
                        file: self.files[self.file].clone(),
                        detail: e.detail,
                    },
                }
            },
            BuildOutcome::Initialized(Ok(_)) => {
                assert(self.files.deep_view().skip(self.file as int).drop_first()
                    =~= self.files.deep_view().skip(self.file + 1));
                self.phase = BuildPhase::Done;
                self.file = self.file + 1;
                self.next_file()
            },
            BuildOutcome::Initialized(Err(e)) => {
                self.phase = BuildPhase::Failed;
                let last = self.names.len() - 1;
                BuildRequest::Failed {
                    error: BuildError::Init { module: self.names[last].clone(), detail: e.detail },
                }
            },
        };
        Some(request)
    }

    /// Turns to the search path at `dir`.
    fn next_dir(&mut self, dir: usize) -> (request: BuildRequest)
        requires
            dir <= old(self).paths.len(),
        ensures
            (final(self)@, request@) == next_dir(old(self)@, dir as int),
    {
        proof {
            use_type_invariant(&*self);
        }
        self.phase = BuildPhase::Done;
        self.dir = dir;
        self.file = 0;
        self.files = Vec::new();
        assert(self.files.deep_view().skip(0) =~= Seq::<Seq<char>>::empty());
        if dir < self.paths.len() {
            self.phase = BuildPhase::Scanning;
            BuildRequest::Scan { dir: self.paths[dir].clone() }
        } else {
            BuildRequest::Done
        }
    }

    /// Turns to the next file of the current search path.
    fn next_file(&mut self) -> (request: BuildRequest)
        requires
            old(self).dir < old(self).paths.len(),
        ensures
            (final(self)@, request@) == next_file(old(self)@),
    {
        proof {
            use_type_invariant(&*self);
        }
        if self.file < self.files.len() {
            self.phase = BuildPhase::Loading;
            assert(self.files.deep_view().skip(self.file as int)[0] == self.files@[self.file as int]@);
            BuildRequest::Load { file: self.files[self.file].clone() }
        } else {
            let dir = self.dir;
            let n = self.paths.len();
            self.next_dir(dir + 1)
        }
    }
}

} // verus!
