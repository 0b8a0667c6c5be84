//! The machine follows the policy: driven to its end with the answers of
//! the outside parties, a dispatch replies what the policy says.

use crate::action::ActionView;
use crate::command::{
    admin_parse, help_parse, listing_html, listing_items, listing_text, AdminParseView,
    HelpParseView,
};
use crate::dispatch::{
    enter_help, enter_modules, expects, idle, start, step, OutcomeView, PhaseView, RequestView,
    State,
};
use crate::policy::{
    admin_calls, admin_level, asked_modules, calls, first_taker, help_calls, help_level,
    is_loaded, is_taken, lemma_first_taker, level, module_calls, module_level, reply, Answers,
    Level, Query,
};
use crate::text::{find, lemma_find};
use vstd::prelude::*;

verus! {

/// What the outside party that `r` addresses answers.
pub open spec fn answer(a: Answers, r: RequestView) -> OutcomeView {
    match r {
        RequestView::Resolve { token } => OutcomeView::Resolved { room: a.room },
        RequestView::Admin { module, command, sender, room } => OutcomeView::Admin {
            actions: a.admin,
        },
        RequestView::Help { module, topic } => OutcomeView::Help { text: a.help[module] },
        RequestView::Handle { module, text, sender, room } => OutcomeView::Handled {
            actions: a.handle[module],
        },
        RequestView::Reply { actions } => OutcomeView::Handled { actions: None },
    }
}

/// Whether `r` is the request that `s` waits for an answer to.
pub open spec fn pending(s: State, r: RequestView) -> bool {
    match s.phase {
        PhaseView::Resolving { module, token, rest } => r == (RequestView::Resolve { token }),
        PhaseView::Admin => r matches RequestView::Admin { module, command, sender, room }
            && 0 <= module < s.names.len() && sender == s.sender,
        PhaseView::Listing { next, text, html } => r == (RequestView::Help {
            module: next,
            topic: None,
        }),
        PhaseView::Topic { module } => r matches RequestView::Help { module: index, topic }
            && index == find(s.names, module) && 0 <= index < s.names.len(),
        PhaseView::Handling { next } => r == (RequestView::Handle {
            module: next,
            text: s.text,
            sender: s.sender,
            room: s.room,
        }),
        PhaseView::Done => r is Reply,
    }
}

/// The reply that a dispatch in state `s` with the pending request `r`
/// ends with, when every request is answered as `a` says.
pub open spec fn run(s: State, r: RequestView, a: Answers) -> Seq<ActionView>
    decreases s.budget(),
{
    match r {
        RequestView::Reply { actions } => actions,
        _ => {
            let (next_state, next_request) = step(s, answer(a, r));
            if next_state.budget() < s.budget() {
                run(next_state, next_request, a)
            } else {
                Seq::empty()
            }
        },
    }
}

/// The requests that a dispatch in state `s` with the pending request `r`
/// hands out before it replies, when every request is answered as `a` says.
pub open spec fn asked(s: State, r: RequestView, a: Answers) -> Seq<RequestView>
    decreases s.budget(),
{
    match r {
        RequestView::Reply { actions } => Seq::empty(),
        _ => {
            let (next_state, next_request) = step(s, answer(a, r));
            if next_state.budget() < s.budget() {
                seq![r] + asked(next_state, next_request, a)
            } else {
                seq![r]
            }
        },
    }
}

/// Entering the module path leaves a well-formed state that waits for the
/// request it hands out, with one answer to take for each module left.
pub proof fn lemma_enter_modules(s: State, from: int)
    requires
        0 <= from <= s.names.len(),
    ensures
        enter_modules(s, from).0.wf(),
        pending(enter_modules(s, from).0, enter_modules(s, from).1),
        enter_modules(s, from).0.budget() == s.names.len() - from,
{
}

/// Entering the help path leaves a well-formed state that waits for the
/// request it hands out.
pub proof fn lemma_enter_help(s: State)
    ensures
        enter_help(s).0.wf(),
        pending(enter_help(s).0, enter_help(s).1),
        enter_help(s).0.budget() <= s.names.len() + 1,
{
    lemma_enter_modules(s, 0);
    match help_parse(s.text) {
        HelpParseView::Topic { module, topic } => {
            lemma_find(s.names, module);
        },
        _ => {},
    }
}

/// A dispatch starts in a well-formed state that waits for its first
/// request.
pub proof fn lemma_start(q: Query)
    ensures
        start(q).0.wf(),
        pending(start(q).0, start(q).1),
{
    lemma_enter_help(idle(q));
}

/// Every answer that is taken brings the dispatch closer to its reply: the
/// state stays well-formed, waits for the request that was handed out, and
/// its budget shrinks.
pub proof fn lemma_step(s: State, o: OutcomeView)
    requires
        s.wf(),
        expects(s, o),
    ensures
        step(s, o).0.wf(),
        pending(step(s, o).0, step(s, o).1),
        step(s, o).0.budget() < s.budget(),
{
    lemma_enter_help(s);
    match s.phase {
        PhaseView::Resolving { module, token, rest } => {
            lemma_find(s.names, module);
        },
        PhaseView::Handling { next } => {
            lemma_enter_modules(s, next + 1);
        },
        _ => {},
    }
}

/// From module `from` on, the module path replies what the first module
/// that answers with at least one action returned.
pub proof fn lemma_run_modules(s: State, a: Answers, from: int)
    requires
        a.handle.len() == s.names.len(),
        0 <= from <= s.names.len(),
    ensures
        run(enter_modules(s, from).0, enter_modules(s, from).1, a) == if first_taker(a, from)
            < a.handle.len() {
            a.handle[first_taker(a, from)]->0
        } else {
            Seq::empty()
        },
    decreases s.names.len() - from,
{
    reveal_with_fuel(run, 2);
    if from < s.names.len() {
        let (s1, r1) = enter_modules(s, from);
        let o = answer(a, r1);
        lemma_step(s1, o);
        if !is_taken(a.handle[from]) {
            lemma_run_modules(s, a, from + 1);
            assert(enter_modules(s1, from + 1) == enter_modules(s, from + 1));
        }
    }
}

/// The first `k` entries of the listing are the listing of the first `k`
/// modules.
proof fn lemma_listing_grows(names: Seq<Seq<char>>, helps: Seq<Option<Seq<char>>>, k: int)
    requires
        0 <= k < names.len(),
        names.len() == helps.len(),
    ensures
        listing_text(names.take(k + 1), helps.take(k + 1)) == listing_text(
            names.take(k),
            helps.take(k),
        ) + crate::command::listing_line(names[k], helps[k]),
        listing_items(names.take(k + 1), helps.take(k + 1)) == listing_items(
            names.take(k),
            helps.take(k),
        ) + crate::command::listing_item(names[k], helps[k]),
{
    assert(names.take(k + 1).drop_last() =~= names.take(k));
    assert(helps.take(k + 1).drop_last() =~= helps.take(k));
}

/// Once the listing holds the modules before `next`, the dispatch replies
/// the listing of all modules.
pub proof fn lemma_run_listing(s: State, a: Answers, next: int)
    requires
        a.help.len() == s.names.len(),
        s.phase matches PhaseView::Listing { next: at, text, html } && at == next && text
            == listing_text(s.names.take(next), a.help.take(next)) && html == listing_items(
            s.names.take(next),
            a.help.take(next),
        ),
        0 <= next < s.names.len(),
    ensures
        run(s, RequestView::Help { module: next, topic: None }, a) == seq![
            crate::action::rich_reply(
                listing_text(s.names, a.help),
                listing_html(s.names, a.help),
                s.sender,
            ),
        ],
    decreases s.names.len() - next,
{
    reveal_with_fuel(run, 2);
    let r = RequestView::Help { module: next, topic: None };
    let o = answer(a, r);
    lemma_step(s, o);
    lemma_listing_grows(s.names, a.help, next);
    let (s1, r1) = step(s, o);
    if next + 1 < s.names.len() {
        lemma_run_listing(s1, a, next + 1);
    } else {
        assert(s.names.take(next + 1) =~= s.names);
        assert(a.help.take(next + 1) =~= a.help);
    }
}

/// From the help path on, the dispatch replies what the help level says
/// and, if that does not apply, what the module level says.
pub proof fn lemma_run_help(q: Query, s: State, a: Answers)
    requires
        a.covers(q.names.len()),
        s.at(PhaseView::Done) == idle(q),
    ensures
        run(enter_help(s).0, enter_help(s).1, a) == match help_level(q, a) {
            Some(action) => seq![action],
            None => module_level(a),
        },
{
    reveal_with_fuel(run, 2);
    let (s1, r1) = enter_help(s);
    lemma_enter_help(s);
    match help_parse(s.text) {
        HelpParseView::NotHelp => {
            lemma_run_modules(s, a, 0);
        },
        HelpParseView::List => {
            if s.names.len() > 0 {
                assert(s.names.take(0) =~= Seq::<Seq<char>>::empty());
                lemma_run_listing(s1, a, 0);
            }
        },
        HelpParseView::Topic { module, topic } => {
            if is_loaded(s.names, module) {
                lemma_find(s.names, module);
                lemma_step(s1, answer(a, r1));
            }
        },
    }
}

/// Driven to its end, a dispatch replies what the priority policy says:
/// the answer of the first level that applies, and of that level alone.
pub proof fn lemma_run_is_reply(q: Query, a: Answers)
    requires
        a.covers(q.names.len()),
    ensures
        run(start(q).0, start(q).1, a) == reply(q, a),
        reply(q, a) == match level(q, a) {
            Level::Admin => admin_level(q, a)->0,
            Level::Help => seq![help_level(q, a)->0],
            Level::Modules => module_level(a),
        },
{
    reveal_with_fuel(run, 3);
    let s = idle(q);
    lemma_run_help(q, s, a);
    if q.sender == q.admin {
        match admin_parse(q.text) {
            AdminParseView::Command { module, token, rest } => {
                let (s1, r1) = start(q);
                lemma_start(q);
                lemma_step(s1, answer(a, r1));
                let (s2, r2) = step(s1, answer(a, r1));
                if is_loaded(q.names, module) {
                    lemma_step(s2, answer(a, r2));
                    lemma_run_help(q, s2, a);
                } else {
                    lemma_run_help(q, s1, a);
                }
            },
            _ => {},
        }
    }
}

/// From module `from` on, the module path asks the modules up to the first
/// that answers with at least one action.
pub proof fn lemma_asked_modules(s: State, a: Answers, from: int)
    requires
        a.handle.len() == s.names.len(),
        0 <= from <= s.names.len(),
    ensures
        asked(enter_modules(s, from).0, enter_modules(s, from).1, a) == Seq::new(
            asked_modules(a, from),
            |i: int|
                RequestView::Handle {
                    module: from + i,
                    text: s.text,
                    sender: s.sender,
                    room: s.room,
                },
        ),
    decreases s.names.len() - from,
{
    reveal_with_fuel(asked, 2);
    lemma_first_taker(a, from);
    let expected = Seq::new(
        asked_modules(a, from),
        |i: int|
            RequestView::Handle { module: from + i, text: s.text, sender: s.sender, room: s.room },
    );
    if from < s.names.len() {
        let (s1, r1) = enter_modules(s, from);
        let o = answer(a, r1);
        lemma_step(s1, o);
        if !is_taken(a.handle[from]) {
            lemma_asked_modules(s, a, from + 1);
            lemma_first_taker(a, from + 1);
            assert(enter_modules(s1, from + 1) == enter_modules(s, from + 1));
            let tail = Seq::new(
                asked_modules(a, from + 1),
                |i: int|
                    RequestView::Handle {
                        module: from + 1 + i,
                        text: s.text,
                        sender: s.sender,
                        room: s.room,
                    },
            );
            assert(expected =~= seq![r1] + tail);
        } else {
            assert(expected =~= seq![r1]);
        }
    } else {
        assert(expected =~= Seq::<RequestView>::empty());
    }
}

/// From module `next` on, the listing asks every module for its help.
pub proof fn lemma_asked_listing(s: State, a: Answers, next: int)
    requires
        a.help.len() == s.names.len(),
        s.phase matches PhaseView::Listing { next: at, text, html } && at == next,
        0 <= next < s.names.len(),
    ensures
        asked(s, RequestView::Help { module: next, topic: None }, a) == Seq::new(
            (s.names.len() - next) as nat,
            |i: int| RequestView::Help { module: next + i, topic: None },
        ),
    decreases s.names.len() - next,
{
    reveal_with_fuel(asked, 2);
    let r = RequestView::Help { module: next, topic: None };
    let o = answer(a, r);
    lemma_step(s, o);
    let (s1, r1) = step(s, o);
    let expected = Seq::new(
        (s.names.len() - next) as nat,
        |i: int| RequestView::Help { module: next + i, topic: None },
    );
    if next + 1 < s.names.len() {
        lemma_asked_listing(s1, a, next + 1);
        let tail = Seq::new(
            (s.names.len() - next - 1) as nat,
            |i: int| RequestView::Help { module: next + 1 + i, topic: None },
        );
        assert(expected =~= seq![r] + tail);
    } else {
        assert(expected =~= seq![r]);
    }
}

/// From the help path on, the dispatch makes the calls of the help path
/// and, if that path does not apply, those of the module path.
pub proof fn lemma_asked_help(q: Query, s: State, a: Answers)
    requires
        a.covers(q.names.len()),
        s.at(PhaseView::Done) == idle(q),
    ensures
        asked(enter_help(s).0, enter_help(s).1, a) == if help_level(q, a) is Some {
            help_calls(q)
        } else {
            module_calls(q, a)
        },
{
    reveal_with_fuel(asked, 2);
    let (s1, r1) = enter_help(s);
    lemma_enter_help(s);
    match help_parse(s.text) {
        HelpParseView::NotHelp => {
            lemma_asked_modules(s, a, 0);
            assert(module_calls(q, a) =~= asked(s1, r1, a));
        },
        HelpParseView::List => {
            if s.names.len() > 0 {
                lemma_asked_listing(s1, a, 0);
                assert(help_calls(q) =~= asked(s1, r1, a));
            } else {
                assert(help_calls(q) =~= Seq::<RequestView>::empty());
            }
        },
        HelpParseView::Topic { module, topic } => {
            if is_loaded(s.names, module) {
                lemma_find(s.names, module);
                lemma_step(s1, answer(a, r1));
                assert(asked(s1, r1, a) =~= seq![r1]);
            }
        },
    }
}

/// Driven to its end, a dispatch makes the calls that `calls` lists, in
/// that order, and no others.
pub proof fn lemma_asked_is_calls(q: Query, a: Answers)
    requires
        a.covers(q.names.len()),
    ensures
        asked(start(q).0, start(q).1, a) == calls(q, a),
{
    reveal_with_fuel(asked, 3);
    let s = idle(q);
    lemma_asked_help(q, s, a);
    if q.sender == q.admin {
        match admin_parse(q.text) {
            AdminParseView::Command { module, token, rest } => {
                let (s1, r1) = start(q);
                lemma_start(q);
                lemma_step(s1, answer(a, r1));
                let (s2, r2) = step(s1, answer(a, r1));
                if is_loaded(q.names, module) {
                    lemma_step(s2, answer(a, r2));
                    lemma_asked_help(q, s2, a);
                    let (s3, r3) = step(s2, answer(a, r2));
                    assert(asked(s1, r1, a) =~= seq![r1, r2] + asked(s3, r3, a));
                    assert(admin_calls(q, a) =~= seq![r1, r2]);
                } else {
                    lemma_asked_help(q, s1, a);
                    assert(asked(s1, r1, a) =~= seq![r1] + asked(s2, r2, a));
                    assert(admin_calls(q, a) =~= seq![r1]);
                }
            },
            _ => {
                assert(admin_calls(q, a) =~= Seq::<RequestView>::empty());
            },
        }
    } else {
        assert(admin_calls(q, a) =~= Seq::<RequestView>::empty());
    }
}

} // verus!
