//! The dispatch engine as a state machine.
//!
//! Modules run in a sandbox and room references are resolved over the
//! network, so the engine does not make those calls itself. A `Dispatch`
//! names the next call to make as a `Request` and takes what the call
//! returned as an `Outcome`, until it hands out the reply.

use crate::action::{plain_reply, rich_reply, Action, ActionView};
use crate::command::{
    admin_parse, admin_target, help_parse, listing_item, listing_line, parse_admin, parse_help,
    resolve_target, topic_reply, topic_text, AdminParse, AdminParseView, HelpParse,
    HelpParseView, Listing, LISTING_HEADER, MISSING_COMMAND, MISSING_MODULE_AND_COMMAND,
};
use crate::policy::{is_loaded, is_taken, Query};
use crate::text::{find, lemma_find_at, same_text};
use vstd::prelude::*;

verus! {

/// An error raised by an outside call. The engine never looks into it: a
/// failed call is skipped, whatever the reason.
#[derive(Clone, Debug, PartialEq, Eq)]
pub struct CallError {
    pub detail: String,
}

/// The next thing to do for a message.
#[derive(Clone, Debug, PartialEq, Eq)]
pub enum Request {
    /// Ask the room resolver what `token` refers to.
    Resolve { token: String },
    /// Call the `admin` entry point of the module at index `module`.
    Admin { module: usize, command: String, sender: String, room: String },
    /// Call the `help` entry point of the module at index `module`.
    Help { module: usize, topic: Option<String> },
    /// Call the `handle` entry point of the module at index `module`.
    Handle { module: usize, text: String, sender: String, room: String },
    /// The dispatch is over: relay `actions`.
    Reply { actions: Vec<Action> },
}

/// The mathematical value of a `Request`.
pub enum RequestView {
    Resolve { token: Seq<char> },
    Admin { module: int, command: Seq<char>, sender: Seq<char>, room: Seq<char> },
    Help { module: int, topic: Option<Seq<char>> },
    Handle { module: int, text: Seq<char>, sender: Seq<char>, room: Seq<char> },
    Reply { actions: Seq<ActionView> },
}

impl View for Request {
    type V = RequestView;

    open spec fn view(&self) -> RequestView {
        match self {
            Request::Resolve { token } => RequestView::Resolve { token: token@ },
            Request::Admin { module, command, sender, room } => RequestView::Admin {
                module: *module as int,
                command: command@,
                sender: sender@,
                room: room@,
            },
            Request::Help { module, topic } => RequestView::Help {
                module: *module as int,
                topic: topic.deep_view(),
            },
            Request::Handle { module, text, sender, room } => RequestView::Handle {
                module: *module as int,
                text: text@,
                sender: sender@,
                room: room@,
            },
            Request::Reply { actions } => RequestView::Reply { actions: actions.deep_view() },
        }
    }
}

/// What an outside call returned.
#[derive(Debug)]
pub enum Outcome {
    /// The resolver's answer to `Request::Resolve`.
    Resolved(Result<Option<String>, CallError>),
    /// The module's answer to `Request::Admin`.
    Admin(Result<Vec<Action>, CallError>),
    /// The module's answer to `Request::Help`.
    Help(Result<String, CallError>),
    /// The module's answer to `Request::Handle`.
    Handled(Result<Vec<Action>, CallError>),
}

/// The mathematical value of an `Outcome`: a failed call is `None`, and so
/// is a room reference that names no room.
pub enum OutcomeView {
    Resolved { room: Option<Seq<char>> },
    Admin { actions: Option<Seq<ActionView>> },
    Help { text: Option<Seq<char>> },
    Handled { actions: Option<Seq<ActionView>> },
}

impl View for Outcome {
    type V = OutcomeView;

    open spec fn view(&self) -> OutcomeView {
        match self {
            Outcome::Resolved(r) => OutcomeView::Resolved {
                room: match r {
                    Ok(Some(room)) => Some(room@),
                    _ => None,
                },
            },
            Outcome::Admin(r) => OutcomeView::Admin {
                actions: match r {
                    Ok(actions) => Some(actions.deep_view()),
                    Err(_) => None,
                },
            },
            Outcome::Help(r) => OutcomeView::Help {
                text: match r {
                    Ok(text) => Some(text@),
                    Err(_) => None,
                },
            },
            Outcome::Handled(r) => OutcomeView::Handled {
                actions: match r {
                    Ok(actions) => Some(actions.deep_view()),
                    Err(_) => None,
                },
            },
        }
    }
}

/// Where a dispatch stands: which answer it waits for.
pub enum PhaseView {
    /// The resolver was asked about the `token` of an admin command.
    Resolving { module: Seq<char>, token: Seq<char>, rest: Seq<char> },
    /// The `admin` entry point of a module was called.
    Admin,
    /// The listing is being put together: the `help` entry point of module
    /// `next` was called, and `text` and `html` hold the modules before it.
    Listing { next: int, text: Seq<char>, html: Seq<char> },
    /// The `help` entry point of the module named `module` was called.
    Topic { module: Seq<char> },
    /// The `handle` entry point of module `next` was called.
    Handling { next: int },
    /// The reply was given.
    Done,
}

/// The mathematical value of a `Dispatch`: the message, the module names it
/// started with, and its phase.
pub struct State {
    pub names: Seq<Seq<char>>,
    pub sender: Seq<char>,
    pub room: Seq<char>,
    pub text: Seq<char>,
    pub phase: PhaseView,
}

impl State {
    /// A module that is being asked is one of the loaded modules.
    pub open spec fn wf(self) -> bool {
        match self.phase {
            PhaseView::Listing { next, text, html } => 0 <= next < self.names.len(),
            PhaseView::Handling { next } => 0 <= next < self.names.len(),
            _ => true,
        }
    }

    /// This state, in phase `phase`.
    pub open spec fn at(self, phase: PhaseView) -> State {
        State { phase, ..self }
    }

    /// An upper bound on the number of answers this dispatch still takes.
    pub open spec fn budget(self) -> nat {
        match self.phase {
            PhaseView::Resolving { module, token, rest } => self.names.len() + 3,
            PhaseView::Admin => self.names.len() + 2,
            PhaseView::Listing { next, text, html } => (self.names.len() - next) as nat,
            PhaseView::Topic { module } => 1,
            PhaseView::Handling { next } => (self.names.len() - next) as nat,
            PhaseView::Done => 0,
        }
    }
}

/// Enters the module path at module `from`: asks that module, or gives the
/// empty reply if there is none left.
pub open spec fn enter_modules(s: State, from: int) -> (State, RequestView) {
    if from < s.names.len() {
        (
            s.at(PhaseView::Handling { next: from }),
            RequestView::Handle { module: from, text: s.text, sender: s.sender, room: s.room },
        )
    } else {
        (s.at(PhaseView::Done), RequestView::Reply { actions: Seq::empty() })
    }
}

/// Enters the help path, and the module path if the message is no help
/// request.
pub open spec fn enter_help(s: State) -> (State, RequestView) {
    match help_parse(s.text) {
        HelpParseView::NotHelp => enter_modules(s, 0),
        HelpParseView::List => if s.names.len() == 0 {
            (
                s.at(PhaseView::Done),
                RequestView::Reply {
                    actions: seq![
                        rich_reply(
                            LISTING_HEADER@,
                            LISTING_HEADER@ + " <ul>"@ + "</ul>"@,
                            s.sender,
                        ),
                    ],
                },
            )
        } else {
            (
                s.at(
                    PhaseView::Listing {
                        next: 0,
                        text: LISTING_HEADER@,
                        html: LISTING_HEADER@ + " <ul>"@,
                    },
                ),
                RequestView::Help { module: 0, topic: None },
            )
        },
        HelpParseView::Topic { module, topic } => if is_loaded(s.names, module) {
            (
                s.at(PhaseView::Topic { module }),
                RequestView::Help { module: find(s.names, module), topic },
            )
        } else {
            (
                s.at(PhaseView::Done),
                RequestView::Reply {
                    actions: seq![
                        rich_reply(topic_text(module, None), topic_text(module, None), s.sender),
                    ],
                },
            )
        },
    }
}

/// The state of a dispatch of `q` that waits for nothing.
pub open spec fn idle(q: Query) -> State {
    State { names: q.names, sender: q.sender, room: q.room, text: q.text, phase: PhaseView::Done }
}

/// The state a dispatch starts in, and its first request.
pub open spec fn start(q: Query) -> (State, RequestView) {
    let s = idle(q);
    if q.sender != q.admin {
        enter_help(s)
    } else {
        match admin_parse(q.text) {
            AdminParseView::NotAdmin => enter_help(s),
            AdminParseView::MissingModuleAndCommand => (
                s,
                RequestView::Reply {
                    actions: seq![plain_reply(MISSING_MODULE_AND_COMMAND@, q.sender)],
                },
            ),
            AdminParseView::MissingCommand => (
                s,
                RequestView::Reply { actions: seq![plain_reply(MISSING_COMMAND@, q.sender)] },
            ),
            AdminParseView::Command { module, token, rest } => (
                s.at(PhaseView::Resolving { module, token, rest }),
                RequestView::Resolve { token },
            ),
        }
    }
}

/// Whether `o` answers the request that `s` waits for.
pub open spec fn expects(s: State, o: OutcomeView) -> bool {
    match s.phase {
        PhaseView::Resolving { module, token, rest } => o is Resolved,
        PhaseView::Admin => o is Admin,
        PhaseView::Listing { next, text, html } => o is Help,
        PhaseView::Topic { module } => o is Help,
        PhaseView::Handling { next } => o is Handled,
        PhaseView::Done => false,
    }
}

/// The state after the answer `o`, and the next request.
pub open spec fn step(s: State, o: OutcomeView) -> (State, RequestView) {
    match s.phase {
        PhaseView::Resolving { module, token, rest } => {
            let (target, command) = admin_target(token, rest, s.room, o->room);
            if is_loaded(s.names, module) {
                (
                    s.at(PhaseView::Admin),
                    RequestView::Admin {
                        module: find(s.names, module),
                        command,
                        sender: s.sender,
                        room: target,
                    },
                )
            } else {
                enter_help(s)
            }
        },
        PhaseView::Admin => match o->Admin_actions {
            Some(actions) => (s.at(PhaseView::Done), RequestView::Reply { actions }),
            None => enter_help(s),
        },
        PhaseView::Listing { next, text, html } => {
            let text = text + listing_line(s.names[next], o->text);
            let html = html + listing_item(s.names[next], o->text);
            if next + 1 < s.names.len() {
                (
                    s.at(PhaseView::Listing { next: next + 1, text, html }),
                    RequestView::Help { module: next + 1, topic: None },
                )
            } else {
                (
                    s.at(PhaseView::Done),
                    RequestView::Reply {
                        actions: seq![rich_reply(text, html + "</ul>"@, s.sender)],
                    },
                )
            }
        },
        PhaseView::Topic { module } => (
            s.at(PhaseView::Done),
            RequestView::Reply {
                actions: seq![
                    rich_reply(topic_text(module, o->text), topic_text(module, o->text), s.sender),
                ],
            },
        ),
        PhaseView::Handling { next } => if is_taken(o->Handled_actions) {
            (
                s.at(PhaseView::Done),
                RequestView::Reply { actions: o->Handled_actions->0 },
            )
        } else {
            enter_modules(s, next + 1)
        },
        PhaseView::Done => (s, RequestView::Reply { actions: Seq::empty() }),
    }
}

/// The index of the first of `names` that equals `name`, or their number
/// if none does.
pub fn position(names: &Vec<String>, name: &str) -> (i: usize)
    ensures
        i == find(names.deep_view(), name@),
        i <= names.len(),
{
    let mut i: usize = 0;
    while i < names.len() && !same_text(names[i].as_str(), name)
        invariant
            i <= names.len(),
            forall|j: int| 0 <= j < i ==> names.deep_view()[j] != name@,
        decreases names.len() - i,
    {
        i += 1;
    }
    proof {
        lemma_find_at(names.deep_view(), name@, i as int);
    }
    i
}

/// Where an executing dispatch stands.
pub enum Phase {
    Resolving { module: String, token: String, rest: String },
    Admin,
    Listing { next: usize, listing: Listing },
    Topic { module: String },
    Handling { next: usize },
    Done,
}

impl View for Phase {
    type V = PhaseView;

    open spec fn view(&self) -> PhaseView {
        match self {
            Phase::Resolving { module, token, rest } => PhaseView::Resolving {
                module: module@,
                token: token@,
                rest: rest@,
            },
            Phase::Admin => PhaseView::Admin,
            Phase::Listing { next, listing } => PhaseView::Listing {
                next: *next as int,
                text: listing.text@,
                html: listing.html@,
            },
            Phase::Topic { module } => PhaseView::Topic { module: module@ },
            Phase::Handling { next } => PhaseView::Handling { next: *next as int },
            Phase::Done => PhaseView::Done,
        }
    }
}

/// One message on its way through the priority levels.
pub struct Dispatch {
    names: Vec<String>,
    sender: String,
    room: String,
    text: String,
    phase: Phase,
}

impl View for Dispatch {
    type V = State;

    closed spec fn view(&self) -> State {
        State {
            names: self.names.deep_view(),
            sender: self.sender@,
            room: self.room@,
            text: self.text@,
            phase: self.phase@,
        }
    }
}

impl Dispatch {
    #[verifier::type_invariant]
    spec fn well_formed(&self) -> bool {
        self@.wf()
    }

    /// Starts the dispatch of the message `text`, which `sender` sent in
    /// `room`, over the modules `names`, with `admin` as the administrator.
    pub fn start(names: Vec<String>, admin: &str, sender: &str, room: &str, text: &str) -> (r: (
        Dispatch,
        Request,
    ))
        ensures
            (r.0@, r.1@) == start(
                Query {
                    names: names.deep_view(),
                    admin: admin@,
                    sender: sender@,
                    room: room@,
                    text: text@,
                },
            ),
    {
        let mut d = Dispatch {
            names,
            sender: sender.to_owned(),
            room: room.to_owned(),
            text: text.to_owned(),
            phase: Phase::Done,
        };
        if !same_text(sender, admin) {
            let request = d.enter_help();
            return (d, request);
        }
        match parse_admin(text) {
            AdminParse::NotAdmin => {
                let request = d.enter_help();
                (d, request)
            },
            AdminParse::MissingModuleAndCommand => {
                let mut actions: Vec<Action> = Vec::new();
                actions.push(Action::plain(MISSING_MODULE_AND_COMMAND, sender));
                assert(actions.deep_view() =~= seq![
                    plain_reply(MISSING_MODULE_AND_COMMAND@, sender@),
                ]);
                (d, Request::Reply { actions })
            },
            AdminParse::MissingCommand => {
                let mut actions: Vec<Action> = Vec::new();
                actions.push(Action::plain(MISSING_COMMAND, sender));
                assert(actions.deep_view() =~= seq![plain_reply(MISSING_COMMAND@, sender@)]);
                (d, Request::Reply { actions })
            },
            AdminParse::Command { module, token, rest } => {
                let request = Request::Resolve { token: token.clone() };
                d.phase = Phase::Resolving { module, token, rest };
                (d, request)
            },
        }
    }

    /// Whether the dispatch is over: the reply was given.
    pub fn is_done(&self) -> (done: bool)
        ensures
            done == (self@.phase is Done),
    {
        match self.phase {
            Phase::Done => true,
            _ => false,
        }
    }

    /// Whether `outcome` answers the request that this dispatch waits for.
    pub fn expects(&self, outcome: &Outcome) -> (b: bool)
        ensures
            b == expects(self@, outcome@),
    {
        match (&self.phase, outcome) {
            (Phase::Resolving { .. }, Outcome::Resolved(_)) => true,
            (Phase::Admin, Outcome::Admin(_)) => true,
            (Phase::Listing { .. }, Outcome::Help(_)) => true,
            (Phase::Topic { .. }, Outcome::Help(_)) => true,
            (Phase::Handling { .. }, Outcome::Handled(_)) => true,
            _ => false,
        }
    }

    /// Takes the answer to the pending request and returns the next
    /// request. An `outcome` that does not answer the pending request is
    /// dropped: the dispatch stays as it is and `None` is returned.
    pub fn advance(&mut self, outcome: Outcome) -> (next: Option<Request>)
        ensures
            match next {
                Some(request) => expects(old(self)@, outcome@) && (final(self)@, request@) == step(
                    old(self)@,
                    outcome@,
                ),
                None => !expects(old(self)@, outcome@) && final(self)@ == old(self)@,
            },
    {
        proof {
            use_type_invariant(&*self);
        }
        if !self.expects(&outcome) {
            return None;
        }
        let n = self.names.len();
        let mut phase = Phase::Done;
        core::mem::swap(&mut self.phase, &mut phase);
        let request = match phase {
            Phase::Resolving { module, token, rest } => {
                let resolved = match outcome {
                    Outcome::Resolved(Ok(Some(room))) => Some(room),
                    _ => None,
                };
                let target = resolve_target(
                    token.as_str(),
                    rest.as_str(),
                    self.room.as_str(),
                    resolved,
                );
                let i = position(&self.names, module.as_str());
                if i < n {
                    self.phase = Phase::Admin;
                    Request::Admin {
                        module: i,
                        command: target.command,
                        sender: self.sender.clone(),
                        room: target.room,
                    }
                } else {
                    self.enter_help()
                }
            },
            Phase::Admin => match outcome {
                Outcome::Admin(Ok(actions)) => Request::Reply { actions },
                _ => self.enter_help(),
            },
            Phase::Listing { next, listing } => {
                let help = match outcome {
                    Outcome::Help(Ok(text)) => Some(text),
                    _ => None,
                };
                let mut listing = listing;
                listing.push(self.names[next].as_str(), help);
                if next + 1 < n {
                    self.phase = Phase::Listing { next: next + 1, listing };
                    Request::Help { module: next + 1, topic: None }
                } else {
                    let mut actions: Vec<Action> = Vec::new();
                    let action = listing.finish(self.sender.as_str());
                    actions.push(action);
                    assert(actions.deep_view() =~= seq![action@]);
                    Request::Reply { actions }
                }
            },
            Phase::Topic { module } => {
                let help = match outcome {
                    Outcome::Help(Ok(text)) => Some(text),
                    _ => None,
                };
                let mut actions: Vec<Action> = Vec::new();
                let action = topic_reply(module.as_str(), help, self.sender.as_str());
                actions.push(action);
                assert(actions.deep_view() =~= seq![action@]);
                Request::Reply { actions }
            },
            Phase::Handling { next } => match outcome {
                Outcome::Handled(Ok(actions)) if actions.len() > 0 => Request::Reply { actions },
                _ => self.enter_modules(next + 1),
            },
            Phase::Done => Request::Reply { actions: Vec::new() },
        };
        Some(request)
    }

    /// Enters the module path at module `from`.
    fn enter_modules(&mut self, from: usize) -> (request: Request)
        ensures
            (final(self)@, request@) == enter_modules(old(self)@, from as int),
    {
        if from < self.names.len() {
            self.phase = Phase::Handling { next: from };
            Request::Handle {
                module: from,
                text: self.text.clone(),
                sender: self.sender.clone(),
                room: self.room.clone(),
            }
        } else {
            self.phase = Phase::Done;
            let actions: Vec<Action> = Vec::new();
            assert(actions.deep_view() =~= Seq::<ActionView>::empty());
            Request::Reply { actions }
        }
    }

    /// Enters the help path.
    fn enter_help(&mut self) -> (request: Request)
        ensures
            (final(self)@, request@) == enter_help(old(self)@),
    {
        match parse_help(self.text.as_str()) {
            HelpParse::NotHelp => self.enter_modules(0),
            HelpParse::List => {
                let listing = Listing::new();
                if self.names.len() == 0 {
                    self.phase = Phase::Done;
                    let mut actions: Vec<Action> = Vec::new();
                    let action = listing.finish(self.sender.as_str());
                    actions.push(action);
                    assert(actions.deep_view() =~= seq![action@]);
                    Request::Reply { actions }
                } else {
                    self.phase = Phase::Listing { next: 0, listing };
                    Request::Help { module: 0, topic: None }
                }
            },
            HelpParse::Topic { module, topic } => {
                let i = position(&self.names, module.as_str());
                if i < self.names.len() {
                    self.phase = Phase::Topic { module };
                    Request::Help { module: i, topic }
                } else {
                    self.phase = Phase::Done;
                    let mut actions: Vec<Action> = Vec::new();
                    let action = topic_reply(module.as_str(), None, self.sender.as_str());
                    actions.push(action);
                    assert(actions.deep_view() =~= seq![action@]);
                    Request::Reply { actions }
                }
            },
        }
    }
}

} // verus!
