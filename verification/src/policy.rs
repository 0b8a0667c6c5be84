//! The priority policy: which single handler answers a message.
//!
//! A message is offered to three levels in a fixed order: the administrator
//! path, the built-in help, then the loaded modules in registry order. The
//! first level that applies answers, and the others are not asked.
//!
//! The policy is stated here as a function of the message and of what the
//! outside parties (the room resolver and the modules' entry points) answer.

use crate::action::{plain_reply, rich_reply, ActionView};
use crate::command::{
    admin_parse, admin_target, described, help_parse, lemma_help_is_no_admin, listing_html,
    listing_items, listing_text, topic_text, AdminParseView, HelpParseView, MISSING_COMMAND,
    MISSING_MODULE_AND_COMMAND,
};
use crate::dispatch::RequestView;
use crate::text::find;
use vstd::prelude::*;

verus! {

/// What one dispatch is asked: the names of the loaded modules in registry
/// order, the administrator's identity, and the message with its sender and
/// the room it was sent in.
pub struct Query {
    pub names: Seq<Seq<char>>,
    pub admin: Seq<char>,
    pub sender: Seq<char>,
    pub room: Seq<char>,
    pub text: Seq<char>,
}

/// What the outside parties answer during one dispatch, should they be
/// asked. Each is asked at most once. `None` stands for a call that raised
/// an error and, for the resolver, also for a reference that names no room.
pub struct Answers {
    /// The room that the possible room reference of an admin command
    /// resolves to.
    pub room: Option<Seq<char>>,
    /// What the `admin` entry point of the addressed module returns.
    pub admin: Option<Seq<ActionView>>,
    /// What the `help` entry point of each module returns.
    pub help: Seq<Option<Seq<char>>>,
    /// What the `handle` entry point of each module returns.
    pub handle: Seq<Option<Seq<ActionView>>>,
}

impl Answers {
    /// There is an answer for each of `n` modules.
    pub open spec fn covers(self, n: nat) -> bool {
        self.help.len() == n && self.handle.len() == n
    }
}

/// Whether a module named `name` is loaded.
pub open spec fn is_loaded(names: Seq<Seq<char>>, name: Seq<char>) -> bool {
    find(names, name) < names.len()
}

/// The answer of the administrator path, if it applies: the sender is the
/// administrator and the message starts with the admin marker. A command
/// that cannot be read is answered with a diagnostic. A command for a
/// loaded module is answered with what the module's `admin` entry point
/// returns. If the module is not loaded, or its entry point fails, the path
/// does not apply.
pub open spec fn admin_level(q: Query, a: Answers) -> Option<Seq<ActionView>> {
    if q.sender != q.admin {
        None
    } else {
        match admin_parse(q.text) {
            AdminParseView::NotAdmin => None,
            AdminParseView::MissingModuleAndCommand => Some(
                seq![plain_reply(MISSING_MODULE_AND_COMMAND@, q.sender)],
            ),
            AdminParseView::MissingCommand => Some(seq![plain_reply(MISSING_COMMAND@, q.sender)]),
            AdminParseView::Command { module, token, rest } => if is_loaded(q.names, module) {
                a.admin
            } else {
                None
            },
        }
    }
}

/// The answer of the help path, if it applies: the message is a help
/// request. The list of modules is put together from the `help` entry point
/// of every module. A request for one module is answered with what that
/// module's `help` entry point returns, or with a fixed text if the module
/// is not loaded or the call fails. Help always answers the sender.
pub open spec fn help_level(q: Query, a: Answers) -> Option<ActionView> {
    match help_parse(q.text) {
        HelpParseView::NotHelp => None,
        HelpParseView::List => Some(
            rich_reply(listing_text(q.names, a.help), listing_html(q.names, a.help), q.sender),
        ),
        HelpParseView::Topic { module, topic } => {
            let help = if is_loaded(q.names, module) {
                a.help[find(q.names, module)]
            } else {
                None
            };
            Some(rich_reply(topic_text(module, help), topic_text(module, help), q.sender))
        },
    }
}

/// Whether the answer of a `handle` entry point ends the search: the call
/// succeeded and returned at least one action.
pub open spec fn is_taken(handled: Option<Seq<ActionView>>) -> bool {
    handled matches Some(actions) && actions.len() > 0
}

/// The first module from `from` on whose `handle` entry point answers with
/// at least one action, or the number of modules if there is none.
pub open spec fn first_taker(a: Answers, from: int) -> int
    decreases a.handle.len() - from,
{
    if from < 0 || from >= a.handle.len() || is_taken(a.handle[from]) {
        from
    } else {
        first_taker(a, from + 1)
    }
}

/// The answer of the module path: what the first module that answers with
/// at least one action returned, or nothing.
pub open spec fn module_level(a: Answers) -> Seq<ActionView> {
    let i = first_taker(a, 0);
    if i < a.handle.len() {
        a.handle[i]->0
    } else {
        Seq::empty()
    }
}

/// The priority level that answers.
pub enum Level {
    Admin,
    Help,
    Modules,
}

/// The level that answers a message: the first that applies.
pub open spec fn level(q: Query, a: Answers) -> Level {
    if admin_level(q, a) is Some {
        Level::Admin
    } else if help_level(q, a) is Some {
        Level::Help
    } else {
        Level::Modules
    }
}

/// The actions with which a message is answered.
pub open spec fn reply(q: Query, a: Answers) -> Seq<ActionView> {
    match level(q, a) {
        Level::Admin => admin_level(q, a)->0,
        Level::Help => seq![help_level(q, a)->0],
        Level::Modules => module_level(a),
    }
}

/// The calls of the administrator path: for a command that can be read,
/// the resolver is asked about the command's token, and then the `admin`
/// entry point of the addressed module is called, if that module is
/// loaded, with the command and the room that `admin_target` gives.
pub open spec fn admin_calls(q: Query, a: Answers) -> Seq<RequestView> {
    if q.sender == q.admin && admin_parse(q.text) is Command {
        let module = admin_parse(q.text)->module;
        let token = admin_parse(q.text)->token;
        let rest = admin_parse(q.text)->rest;
        let (target, command) = admin_target(token, rest, q.room, a.room);
        if is_loaded(q.names, module) {
            seq![
                RequestView::Resolve { token },
                RequestView::Admin {
                    module: find(q.names, module),
                    command,
                    sender: q.sender,
                    room: target,
                },
            ]
        } else {
            seq![RequestView::Resolve { token }]
        }
    } else {
        Seq::empty()
    }
}

/// The calls of the help path: for the list of modules, the `help` entry
/// point of every module, in registry order and without a topic; for the
/// help of one module, the `help` entry point of that module, if it is
/// loaded, with the topic of the request.
pub open spec fn help_calls(q: Query) -> Seq<RequestView> {
    match help_parse(q.text) {
        HelpParseView::NotHelp => Seq::empty(),
        HelpParseView::List => Seq::new(
            q.names.len(),
            |i: int| RequestView::Help { module: i, topic: None },
        ),
        HelpParseView::Topic { module, topic } => if is_loaded(q.names, module) {
            seq![RequestView::Help { module: find(q.names, module), topic }]
        } else {
            Seq::empty()
        },
    }
}

/// How many modules the module path asks from `from` on: those up to the
/// first that answers with at least one action.
pub open spec fn asked_modules(a: Answers, from: int) -> nat {
    let taker = first_taker(a, from);
    if taker < a.handle.len() {
        (taker + 1 - from) as nat
    } else {
        (a.handle.len() - from) as nat
    }
}

/// The calls of the module path: the `handle` entry point of each module
/// in registry order, with the message as it came, up to the first module
/// that answers with at least one action.
pub open spec fn module_calls(q: Query, a: Answers) -> Seq<RequestView> {
    Seq::new(
        asked_modules(a, 0),
        |i: int| RequestView::Handle { module: i, text: q.text, sender: q.sender, room: q.room },
    )
}

/// The outside calls of one dispatch, in order: those of the administrator
/// path, then, unless that path answers, those of the help path, then,
/// unless that path answers, those of the module path.
pub open spec fn calls(q: Query, a: Answers) -> Seq<RequestView> {
    match level(q, a) {
        Level::Admin => admin_calls(q, a),
        Level::Help => admin_calls(q, a) + help_calls(q),
        Level::Modules => admin_calls(q, a) + module_calls(q, a),
    }
}

/// `first_taker` returns the first module from `from` on that answers with
/// at least one action.
pub proof fn lemma_first_taker(a: Answers, from: int)
    requires
        0 <= from <= a.handle.len(),
    ensures
        from <= first_taker(a, from) <= a.handle.len(),
        first_taker(a, from) < a.handle.len() ==> is_taken(a.handle[first_taker(a, from)]),
        forall|i: int| from <= i < first_taker(a, from) ==> !is_taken(a.handle[i]),
    decreases a.handle.len() - from,
{
    if from < a.handle.len() && !is_taken(a.handle[from]) {
        lemma_first_taker(a, from + 1);
    }
}

/// The reply comes from one level alone. If the administrator path
/// applies, the reply is its answer. Otherwise, if the help path applies,
/// the reply is its one action. Otherwise the reply is empty, or it is all
/// that one module returned, and no module before that one returned any
/// action.
pub proof fn lemma_one_level_answers(q: Query, a: Answers)
    ensures
        admin_level(q, a) is Some ==> reply(q, a) == admin_level(q, a)->0,
        admin_level(q, a) is None && help_level(q, a) is Some ==> reply(q, a) == seq![
            help_level(q, a)->0,
        ],
        admin_level(q, a) is None && help_level(q, a) is None ==> reply(q, a) == module_level(a),
        module_level(a).len() == 0 || exists|i: int|
            0 <= i < a.handle.len() && #[trigger] a.handle[i] == Some(module_level(a)) && forall|
                j: int,
            |
                0 <= j < i ==> !is_taken(a.handle[j]),
{
    lemma_first_taker(a, 0);
    if module_level(a).len() > 0 {
        let i = first_taker(a, 0);
        assert(a.handle[i] == Some(module_level(a)));
    }
}

/// The first module that answers with at least one action is the last that
/// is asked: no module behind it is called. And the `admin` entry point is
/// called at most once in a dispatch.
pub proof fn lemma_calls_stop(q: Query, a: Answers)
    requires
        a.covers(q.names.len()),
    ensures
        forall|k: int|
            0 <= k < calls(q, a).len() && (#[trigger] calls(q, a)[k]) is Handle ==> calls(
                q,
                a,
            )[k]->Handle_module <= first_taker(a, 0),
        forall|j: int, k: int|
            0 <= j < calls(q, a).len() && 0 <= k < calls(q, a).len() && (#[trigger] calls(
                q,
                a,
            )[j]) is Admin && (#[trigger] calls(q, a)[k]) is Admin ==> j == k,
{
    lemma_first_taker(a, 0);
    if !(help_parse(q.text) is NotHelp) {
        lemma_help_is_no_admin(q.text);
    }
}

/// The listing is made of the modules' names and descriptions alone.
pub proof fn lemma_listing_of_descriptions(
    names: Seq<Seq<char>>,
    first: Seq<Option<Seq<char>>>,
    second: Seq<Option<Seq<char>>>,
)
    requires
        first.len() == names.len(),
        second.len() == names.len(),
        forall|i: int| 0 <= i < names.len() ==> described(first[i]) == described(second[i]),
    ensures
        listing_text(names, first) == listing_text(names, second),
        listing_items(names, first) == listing_items(names, second),
        listing_html(names, first) == listing_html(names, second),
    decreases names.len(),
{
    if names.len() > 0 {
        let n = names.len() - 1;
        assert forall|i: int| 0 <= i < n implies described(first.drop_last()[i]) == described(
            second.drop_last()[i],
        ) by {
            assert(first.drop_last()[i] == first[i]);
            assert(second.drop_last()[i] == second[i]);
        }
        lemma_listing_of_descriptions(names.drop_last(), first.drop_last(), second.drop_last());
        assert(described(first[n]) == described(second[n]));
    }
}

/// Asking for the list of modules twice gives the same reply both times,
/// as long as the same modules are loaded and each describes itself the
/// same way both times.
pub proof fn lemma_listing_repeats(q1: Query, a1: Answers, q2: Query, a2: Answers)
    requires
        help_parse(q1.text) is List,
        help_parse(q2.text) is List,
        q1.names == q2.names,
        q1.sender == q2.sender,
        a1.covers(q1.names.len()),
        a2.covers(q2.names.len()),
        forall|i: int|
            0 <= i < q1.names.len() ==> described(a1.help[i]) == described(a2.help[i]),
    ensures
        reply(q1, a1) == reply(q2, a2),
{
    lemma_help_is_no_admin(q1.text);
    lemma_help_is_no_admin(q2.text);
    lemma_listing_of_descriptions(q1.names, a1.help, a2.help);
}

} // verus!
