//! The outside parties of a dispatch, and the loop that asks them.
//!
//! The engine reaches the sandbox that runs the modules, and the service
//! that resolves room references, through the two traits of this file.
//! Nothing is promised of what their methods return: a dispatch is proved
//! for every answer.

use crate::action::Action;
use crate::builder::{
    build_answer, build_expects, build_pending, build_step, built, lemma_build_start,
    lemma_build_step, lemma_run_is_built, run_build, start_build, BuildAnswers, BuildError,
    BuildOutcome, BuildOutcomeView, BuildRequest, BuildRequestView, BuildState,
    DirEntry, RegistryBuild,
};
use crate::dispatch::{
    expects, idle, start, step, CallError, Dispatch, Outcome, OutcomeView, PhaseView, Request,
    RequestView, State,
};
use crate::policy::{reply, Answers, Query};
use crate::registry::{ModulesConfig, Registry, Settings};
use crate::run::{answer, lemma_run_is_reply, lemma_start, lemma_step, pending, run};
use vstd::prelude::*;

verus! {

/// The execution context shared by the loaded modules, with the three
/// entry points of each of them, and the means to find and load modules.
/// A module is addressed by its index in load order, which is the registry
/// order.
pub trait Sandbox {
    /// Lists the entries of the search path `dir`, in scan order.
    fn scan(&mut self, dir: &str) -> Result<Vec<DirEntry>, CallError>;

    /// Loads the bytecode file `file` as the next module and returns the
    /// name that the module declares.
    fn load(&mut self, file: &str) -> Result<String, CallError>;

    /// Initialises a loaded module with its settings, if it has any.
    fn init(&mut self, module: usize, settings: Option<&Settings>) -> Result<(), CallError>;

    /// Offers a message to a module.
    fn handle(&mut self, module: usize, text: &str, sender: &str, room: &str) -> Result<
        Vec<Action>,
        CallError,
    >;

    /// Asks a module for its help text, on `topic` if one is given.
    fn help(&mut self, module: usize, topic: Option<&str>) -> Result<String, CallError>;

    /// Hands an administrator command to a module.
    fn admin(&mut self, module: usize, command: &str, sender: &str, room: &str) -> Result<
        Vec<Action>,
        CallError,
    >;
}

/// The service that turns a room reference typed by a person into a room
/// identifier.
pub trait RoomResolver {
    /// The room that `token` refers to, if it refers to one.
    fn resolve_room(&mut self, token: &str) -> Result<Option<String>, CallError>;
}

/// Makes the call that `request` names and returns what came back.
pub fn perform<S: Sandbox, R: RoomResolver>(
    sandbox: &mut S,
    resolver: &mut R,
    request: &Request,
) -> (outcome: Outcome)
    requires
        !(request@ is Reply),
    ensures
        request@ is Resolve <==> outcome@ is Resolved,
        request@ is Admin <==> outcome@ is Admin,
        request@ is Help <==> outcome@ is Help,
        request@ is Handle <==> outcome@ is Handled,
{
    match request {
        Request::Resolve { token } => Outcome::Resolved(resolver.resolve_room(token.as_str())),
        Request::Admin { module, command, sender, room } => Outcome::Admin(
            sandbox.admin(*module, command.as_str(), sender.as_str(), room.as_str()),
        ),
        Request::Help { module, topic } => {
            let topic = match topic {
                Some(t) => Some(t.as_str()),
                None => None,
            };
            Outcome::Help(sandbox.help(*module, topic))
        },
        Request::Handle { module, text, sender, room } => Outcome::Handled(
            sandbox.handle(*module, text.as_str(), sender.as_str(), room.as_str()),
        ),
        Request::Reply { actions } => Outcome::Handled(Ok(Vec::new())),
    }
}

/// Whether `a` and `b` agree on every answer that a dispatch in phase
/// `phase` may have taken so far.
pub open spec fn agree_so_far(phase: PhaseView, a: Answers, b: Answers) -> bool {
    match phase {
        PhaseView::Resolving { module, token, rest } => true,
        PhaseView::Admin => a.room == b.room,
        PhaseView::Listing { next, text, html } => a.room == b.room && a.admin == b.admin
            && forall|i: int| 0 <= i < next ==> a.help[i] == b.help[i],
        PhaseView::Topic { module } => a.room == b.room && a.admin == b.admin,
        PhaseView::Handling { next } => a.room == b.room && a.admin == b.admin && forall|i: int|
            0 <= i < next ==> a.handle[i] == b.handle[i],
        PhaseView::Done => a == b,
    }
}

/// The answers `a`, with `o` as the answer to the request `r`.
pub open spec fn record(a: Answers, r: RequestView, o: OutcomeView) -> Answers {
    match r {
        RequestView::Resolve { token } => Answers { room: o->room, ..a },
        RequestView::Admin { module, command, sender, room } => Answers {
            admin: o->Admin_actions,
            ..a
        },
        RequestView::Help { module, topic } => Answers {
            help: a.help.update(module, o->text),
            ..a
        },
        RequestView::Handle { module, text, sender, room } => Answers {
            handle: a.handle.update(module, o->Handled_actions),
            ..a
        },
        RequestView::Reply { actions } => a,
    }
}

/// Taking the answer `o` to the pending request `r` keeps a dispatch on the
/// course that every set of answers `b` describes which agrees with the
/// answers taken so far.
proof fn lemma_on_course(q: Query, s: State, r: RequestView, o: OutcomeView, a: Answers, b: Answers)
    requires
        s.wf(),
        pending(s, r),
        !(r is Reply),
        expects(s, o),
        s.at(PhaseView::Done) == idle(q),
        a.covers(q.names.len()),
        b.covers(q.names.len()),
        agree_so_far(step(s, o).0.phase, b, record(a, r, o)),
        forall|c: Answers|
            c.covers(q.names.len()) && agree_so_far(s.phase, c, a) ==> run(
                start(q).0,
                start(q).1,
                c,
            ) == #[trigger] run(s, r, c),
    ensures
        run(start(q).0, start(q).1, b) == run(step(s, o).0, step(s, o).1, b),
{
    lemma_step(s, o);
    assert(agree_so_far(s.phase, b, a));
    assert(answer(b, r) == o);
    assert(run(s, r, b) == run(step(s, o).0, step(s, o).1, b));
}

/// Answers the message `text`, which `sender` sent in `room`: offers it to
/// the priority levels in their order, makes the calls that the levels ask
/// for, and returns the actions of the level that answered.
///
/// Whatever the outside parties answer, the actions are those that the
/// priority policy gives for some set of answers: they come from one level
/// alone.
pub fn dispatch<S: Sandbox, R: RoomResolver>(
    names: Vec<String>,
    admin: &str,
    sender: &str,
    room: &str,
    text: &str,
    sandbox: &mut S,
    resolver: &mut R,
) -> (actions: Vec<Action>)
    ensures
        exists|a: Answers|
            a.covers(names.deep_view().len()) && actions.deep_view() == #[trigger] reply(
                Query {
                    names: names.deep_view(),
                    admin: admin@,
                    sender: sender@,
                    room: room@,
                    text: text@,
                },
                a,
            ),
{
    let ghost q = Query {
        names: names.deep_view(),
        admin: admin@,
        sender: sender@,
        room: room@,
        text: text@,
    };
    let ghost n = q.names.len();
    let (mut d, mut request) = Dispatch::start(names, admin, sender, room, text);
    let ghost mut a = Answers {
        room: None,
        admin: None,
        help: Seq::new(n, |i: int| None),
        handle: Seq::new(n, |i: int| None),
    };
    proof {
        lemma_start(q);
    }
    loop
        invariant
            q == (Query {
                names: names.deep_view(),
                admin: admin@,
                sender: sender@,
                room: room@,
                text: text@,
            }),
            d@.wf(),
            pending(d@, request@),
            d@.at(PhaseView::Done) == idle(q),
            a.covers(q.names.len()),
            forall|c: Answers|
                c.covers(q.names.len()) && agree_so_far(d@.phase, c, a) ==> run(
                    start(q).0,
                    start(q).1,
                    c,
                ) == #[trigger] run(d@, request@, c),
        decreases d@.budget(),
    {
        if let Request::Reply { actions } = request {
            proof {
                assert(agree_so_far(d@.phase, a, a));
                assert(run(d@, request@, a) == actions.deep_view());
                lemma_run_is_reply(q, a);
                assert(actions.deep_view() == reply(q, a));
            }
            return actions;
        }
        let ghost s = d@;
        let ghost r = request@;
        let ghost before = a;
        let outcome = perform(sandbox, resolver, &request);
        let ghost o = outcome@;
        proof {
            lemma_step(s, o);
            a = record(before, r, o);
        }
        match d.advance(outcome) {
            Some(next) => {
                request = next;
                proof {
                    assert forall|c: Answers|
                        c.covers(q.names.len()) && agree_so_far(d@.phase, c, a) implies run(
                        start(q).0,
                        start(q).1,
                        c,
                    ) == #[trigger] run(d@, request@, c) by {
                        lemma_on_course(q, s, r, o, before, c);
                    }
                }
            },
            None => {
                assert(false);
                return Vec::new();
            },
        }
    }
}

/// Makes the call that `request` names and returns what came back.
pub fn perform_build<S: Sandbox>(sandbox: &mut S, request: &BuildRequest) -> (outcome:
    BuildOutcome)
    requires
        !(request@ is Done),
        !(request@ is Failed),
    ensures
        request@ is Scan <==> outcome@ is Scanned,
        request@ is Load <==> outcome@ is Loaded,
        request@ is Init <==> outcome@ is Initialized,
{
    match request {
        BuildRequest::Scan { dir } => BuildOutcome::Scanned(sandbox.scan(dir.as_str())),
        BuildRequest::Load { file } => BuildOutcome::Loaded(sandbox.load(file.as_str())),
        BuildRequest::Init { module, settings } => BuildOutcome::Initialized(
            sandbox.init(*module, settings.as_ref()),
        ),
        _ => BuildOutcome::Initialized(Ok(())),
    }
}

/// Whether the answers `b` start with the answers `a`.
pub open spec fn extends(b: BuildAnswers, a: BuildAnswers) -> bool {
    &&& forall|i: int| 0 <= i < a.scans.len() ==> b.scans[i] == a.scans[i]
    &&& forall|i: int| 0 <= i < a.loads.len() ==> b.loads[i] == a.loads[i]
    &&& forall|i: int| 0 <= i < a.inits.len() ==> b.inits[i] == a.inits[i]
}

/// The answers `a`, followed by `o` as the answer to the request `r`.
pub open spec fn record_build(a: BuildAnswers, r: BuildRequestView, o: BuildOutcomeView)
    -> BuildAnswers {
    match r {
        BuildRequestView::Scan { dir } => BuildAnswers { scans: a.scans.push(o->entries), ..a },
        BuildRequestView::Load { file } => BuildAnswers { loads: a.loads.push(o->name), ..a },
        BuildRequestView::Init { module, settings } => BuildAnswers {
            inits: a.inits.push(o->done),
            ..a
        },
        _ => a,
    }
}

/// Whether `a` holds one answer for each request that a build in state `s`
/// has made.
pub open spec fn holds_answers(s: BuildState, a: BuildAnswers) -> bool {
    s.phase is Done || s.phase is Failed || {
        &&& a.scans.len() == s.dir + if s.phase is Scanning { 0int } else { 1int }
        &&& a.loads.len() == s.names.len()
        &&& a.inits.len() == s.names.len() - if s.phase is Initializing { 1int } else { 0int }
    }
}

/// Taking the answer `o` to the pending request `r` keeps a build on the
/// course that every set of answers `b` describes which starts with the
/// answers taken so far.
proof fn lemma_build_on_course(
    paths: Seq<Seq<char>>,
    config: Map<Seq<char>, crate::registry::SettingsView>,
    s: BuildState,
    r: BuildRequestView,
    o: BuildOutcomeView,
    a: BuildAnswers,
    b: BuildAnswers,
)
    requires
        s.wf(),
        build_pending(s, r),
        build_expects(s, o),
        holds_answers(s, a),
        extends(b, record_build(a, r, o)),
        forall|c: BuildAnswers|
            extends(c, a) ==> run_build(
                start_build(paths, config).0,
                start_build(paths, config).1,
                c,
            ) == #[trigger] run_build(s, r, c),
    ensures
        run_build(start_build(paths, config).0, start_build(paths, config).1, b) == run_build(
            build_step(s, o).0,
            build_step(s, o).1,
            b,
        ),
        holds_answers(build_step(s, o).0, record_build(a, r, o)),
{
    lemma_build_step(s, o);
    let recorded = record_build(a, r, o);
    assert(extends(b, a)) by {
        assert forall|i: int| 0 <= i < a.scans.len() implies b.scans[i] == a.scans[i] by {
            assert(recorded.scans[i] == a.scans[i]);
        }
        assert forall|i: int| 0 <= i < a.loads.len() implies b.loads[i] == a.loads[i] by {
            assert(recorded.loads[i] == a.loads[i]);
        }
        assert forall|i: int| 0 <= i < a.inits.len() implies b.inits[i] == a.inits[i] by {
            assert(recorded.inits[i] == a.inits[i]);
        }
    }
    assert(build_answer(b, s, r) == o) by {
        match r {
            BuildRequestView::Scan { dir } => {
                assert(recorded.scans[s.dir] == o->entries);
            },
            BuildRequestView::Load { file } => {
                assert(recorded.loads[s.names.len() as int] == o->name);
            },
            BuildRequestView::Init { module, settings } => {
                assert(recorded.inits[module] == o->done);
            },
            _ => {},
        }
    }
    assert(run_build(s, r, b) == run_build(build_step(s, o).0, build_step(s, o).1, b));
}

/// Builds a registry in `sandbox`: scans the search paths `paths` for
/// bytecode files and loads and initialises each of them, in scan order,
/// with the settings that `config` holds for the name it declares.
///
/// The build succeeds only as a whole. Whatever the outside answers, the
/// result is what `built` gives for some set of answers: the registry of
/// all modules, or the first failure.
pub fn build<S: Sandbox>(sandbox: S, paths: &Vec<String>, config: &ModulesConfig) -> (result:
    Result<Registry<S>, BuildError>)
    ensures
        exists|a: BuildAnswers| #[trigger]
            built(paths.deep_view(), a) == match result {
                Ok(registry) => Ok::<Seq<Seq<char>>, crate::builder::BuildErrorView>(
                    registry.module_names(),
                ),
                Err(error) => Err(error@),
            },
{
    let mut sandbox = sandbox;
    let (mut b, mut request) = RegistryBuild::start(paths, config);
    let ghost mut a = BuildAnswers { scans: Seq::empty(), loads: Seq::empty(), inits: Seq::empty() };
    proof {
        lemma_build_start(paths.deep_view(), config@);
    }
    loop
        invariant
            b@.wf(),
            b@.paths == paths.deep_view(),
            b@.config == config@,
            build_pending(b@, request@),
            holds_answers(b@, a),
            forall|c: BuildAnswers|
                extends(c, a) ==> run_build(
                    start_build(paths.deep_view(), config@).0,
                    start_build(paths.deep_view(), config@).1,
                    c,
                ) == #[trigger] run_build(b@, request@, c),
        decreases
            if b@.phase is Done || b@.phase is Failed { 0nat } else { 1nat },
            (b@.paths.len() - b@.dir) as nat,
            if b@.phase is Scanning { 1nat } else { 0nat },
            b@.files.len(),
            if b@.phase is Loading { 1nat } else { 0nat },
    {
        match request {
            BuildRequest::Done => {
                proof {
                    assert(extends(a, a));
                    lemma_run_is_built(paths.deep_view(), config@, a);
                    assert(run_build(b@, request@, a) == Ok::<
                        Seq<Seq<char>>,
                        crate::builder::BuildErrorView,
                    >(b@.names));
                }
                let names = b.into_names();
                assert(built(paths.deep_view(), a) == Ok::<
                    Seq<Seq<char>>,
                    crate::builder::BuildErrorView,
                >(names.deep_view()));
                return Ok(Registry { names, sandbox });
            },
            BuildRequest::Failed { error } => {
                proof {
                    assert(extends(a, a));
                    lemma_run_is_built(paths.deep_view(), config@, a);
                    assert(run_build(b@, request@, a) == Err::<
                        Seq<Seq<char>>,
                        crate::builder::BuildErrorView,
                    >(error@));
                    assert(built(paths.deep_view(), a) == Err::<
                        Seq<Seq<char>>,
                        crate::builder::BuildErrorView,
                    >(error@));
                }
                return Err(error);
            },
            _ => {},
        }
        let ghost s = b@;
        let ghost r = request@;
        let ghost before = a;
        let outcome = perform_build(&mut sandbox, &request);
        let ghost o = outcome@;
        proof {
            lemma_build_step(s, o);
            a = record_build(before, r, o);
        }
        match b.advance(outcome) {
            Some(next) => {
                request = next;
                proof {
                    assert forall|c: BuildAnswers| extends(c, a) implies run_build(
                        start_build(paths.deep_view(), config@).0,
                        start_build(paths.deep_view(), config@).1,
                        c,
                    ) == #[trigger] run_build(b@, request@, c) by {
                        lemma_build_on_course(paths.deep_view(), config@, s, r, o, before, c);
                    }
                    lemma_build_on_course(paths.deep_view(), config@, s, r, o, before, a);
                }
            },
            None => {
                assert(false);
                return Ok(Registry { names: Vec::new(), sandbox });
            },
        }
    }
}

} // verus!