//! The grammar of the two built-in commands: administrator commands and
//! help requests.

use crate::action::{rich_reply, Action};
use crate::text::{
    find, find_in, has_prefix, is_space, is_trimmed, lemma_find, lemma_find_at,
    lemma_trim_is_trimmed, lemma_trim_keeps_end, lemma_trim_trailing_space, slice_to_string,
    split_once, strip_prefix, to_chars, trim, trim_range, trimmed,
};
use vstd::prelude::*;
use vstd::string::StringExecFns;

verus! {

/// What an administrator command starts with.
pub const ADMIN_MARKER: &'static str = "!admin";

/// What a help request starts with.
pub const HELP_MARKER: &'static str = "!help";

/// The reply to an admin marker with nothing usable behind it.
pub const MISSING_MODULE_AND_COMMAND: &'static str = "missing module and command";

/// The reply to an admin command that names a module and nothing else.
pub const MISSING_COMMAND: &'static str = "missing command";

/// What stands for the description of a module whose help call failed.
pub const MISSING_HELP: &'static str = "<missing>";

/// The first line of the module listing.
pub const LISTING_HEADER: &'static str = "Available modules:";

/// How a message reads as an administrator command.
#[derive(Clone, Debug, PartialEq, Eq)]
pub enum AdminParse {
    /// The message does not start with the admin marker.
    NotAdmin,
    /// Nothing usable follows the marker.
    MissingModuleAndCommand,
    /// A module is named, but no command text follows it.
    MissingCommand,
    /// A command for `module`. `token` is the word after the module name,
    /// which may name a room, and `rest` is what follows that word.
    Command { module: String, token: String, rest: String },
}

/// The mathematical value of an `AdminParse`.
pub enum AdminParseView {
    NotAdmin,
    MissingModuleAndCommand,
    MissingCommand,
    Command { module: Seq<char>, token: Seq<char>, rest: Seq<char> },
}

impl View for AdminParse {
    type V = AdminParseView;

    open spec fn view(&self) -> AdminParseView {
        match self {
            AdminParse::NotAdmin => AdminParseView::NotAdmin,
            AdminParse::MissingModuleAndCommand => AdminParseView::MissingModuleAndCommand,
            AdminParse::MissingCommand => AdminParseView::MissingCommand,
            AdminParse::Command { module, token, rest } => AdminParseView::Command {
                module: module@,
                token: token@,
                rest: rest@,
            },
        }
    }
}

/// The first word of `s` and the trimmed text after it; the text is empty
/// if `s` is a single word.
pub open spec fn split_word(s: Seq<char>) -> (Seq<char>, Seq<char>) {
    match split_once(s, ' ') {
        Some((word, tail)) => (word, trim(tail)),
        None => (s, Seq::empty()),
    }
}

/// What stands behind the marker, without the one space that may separate
/// the two.
pub open spec fn behind_marker(after_marker: Seq<char>) -> Seq<char> {
    match strip_prefix(after_marker, seq![' ']) {
        Some(words) => words,
        None => after_marker,
    }
}

/// The admin grammar: the marker, an optional space, a module name, then
/// the command text, of which the first word is set apart as a possible
/// room reference.
///
/// A module name without command text gives `MissingCommand`, and so does
/// a marker that a space follows and nothing else. A marker with nothing
/// behind it, or white space only and no space at its front, gives
/// `MissingModuleAndCommand`.
pub open spec fn admin_parse(text: Seq<char>) -> AdminParseView {
    match strip_prefix(text, ADMIN_MARKER@) {
        None => AdminParseView::NotAdmin,
        Some(after_marker) => {
            let line = trim(behind_marker(after_marker));
            match split_once(line, ' ') {
                Some((module, tail)) => {
                    let (token, rest) = split_word(trim(tail));
                    AdminParseView::Command { module, token, rest }
                },
                None => if line.len() == 0 && strip_prefix(after_marker, seq![' ']) is None {
                    AdminParseView::MissingModuleAndCommand
                } else {
                    AdminParseView::MissingCommand
                },
            }
        },
    }
}

/// Reads `text` by the admin grammar.
pub fn parse_admin(text: &str) -> (parsed: AdminParse)
    ensures
        parsed@ == admin_parse(text@),
{
    let chars = to_chars(text);
    let marker = to_chars(ADMIN_MARKER);
    let n = chars.len();
    let m = marker.len();
    if !has_prefix(&chars, &marker) {
        return AdminParse::NotAdmin;
    }
    let ghost after_marker = text@.skip(m as int);
    let spaced = m < n && chars[m] == ' ';
    let start = if spaced {
        m + 1
    } else {
        m
    };
    proof {
        if spaced {
            assert(after_marker.subrange(0, 1) =~= seq![' ']);
            assert(after_marker.skip(1) =~= chars@.subrange(start as int, n as int));
        } else {
            if m < n {
                assert(after_marker[0] == chars@[m as int]);
                assert(after_marker.subrange(0, 1)[0] != seq![' '][0]);
            }
            assert(after_marker =~= chars@.subrange(start as int, n as int));
        }
        assert(behind_marker(after_marker) == chars@.subrange(start as int, n as int));
    }
    let (a, b) = trim_range(&chars, start, n);
    let i = find_in(&chars, a, b, ' ');
    let ghost line = chars@.subrange(a as int, b as int);
    if i == b {
        if a == b && !spaced {
            return AdminParse::MissingModuleAndCommand;
        }
        return AdminParse::MissingCommand;
    }
    proof {
        assert(line.take(i - a) =~= chars@.subrange(a as int, i as int));
        assert(line.skip(i - a + 1) =~= chars@.subrange(i + 1, b as int));
    }
    let (c, d) = trim_range(&chars, i + 1, b);
    let j = find_in(&chars, c, d, ' ');
    let ghost tail = chars@.subrange(c as int, d as int);
    let module = slice_to_string(text, a, i);
    if j == d {
        let token = slice_to_string(text, c, d);
        let rest = slice_to_string(text, d, d);
        assert(rest@ =~= Seq::<char>::empty());
        return AdminParse::Command { module, token, rest };
    }
    proof {
        assert(tail.take(j - c) =~= chars@.subrange(c as int, j as int));
        assert(tail.skip(j - c + 1) =~= chars@.subrange(j + 1, d as int));
    }
    let (e, f) = trim_range(&chars, j + 1, d);
    let token = slice_to_string(text, c, j);
    let rest = slice_to_string(text, e, f);
    AdminParse::Command { module, token, rest }
}

/// The room an admin command is aimed at, and its command text.
#[derive(Clone, Debug, PartialEq, Eq)]
pub struct AdminTarget {
    pub room: String,
    pub command: String,
}

/// Where an admin command goes once the room resolver has answered for its
/// `token`. A token that resolves is consumed as the target room and `rest`
/// is the command. A token that does not resolve stays in the command, in
/// front of `rest`, and the command is aimed at the room it came from.
pub open spec fn admin_target(
    token: Seq<char>,
    rest: Seq<char>,
    room: Seq<char>,
    resolved: Option<Seq<char>>,
) -> (Seq<char>, Seq<char>) {
    match resolved {
        Some(target) => (target, trim(rest)),
        None => (room, trim(token + seq![' '] + rest)),
    }
}

/// Computes `admin_target`.
pub fn resolve_target(token: &str, rest: &str, room: &str, resolved: Option<String>) -> (t:
    AdminTarget)
    ensures
        (t.room@, t.command@) == admin_target(token@, rest@, room@, resolved.deep_view()),
{
    match resolved {
        Some(target) => AdminTarget { room: target, command: trimmed(rest) },
        None => {
            let joined = token.to_owned().concat(" ").concat(rest);
            proof {
                reveal_strlit(" ");
                assert(" "@ =~= seq![' ']);
            }
            AdminTarget { room: room.to_owned(), command: trimmed(joined.as_str()) }
        },
    }
}

/// For a command that the admin grammar accepts: if its token resolves,
/// the target is the room it resolves to and the command is the rest as it
/// stands; if it does not, the target is the room the command came from and
/// the command is the token, one space and the rest, or the token alone
/// where nothing follows it.
pub proof fn lemma_admin_target(text: Seq<char>, room: Seq<char>, resolved: Option<Seq<char>>)
    requires
        admin_parse(text) is Command,
    ensures
        ({
            let token = admin_parse(text)->token;
            let rest = admin_parse(text)->rest;
            admin_target(token, rest, room, resolved) == match resolved {
                Some(target) => (target, rest),
                None => (
                    room,
                    if rest.len() == 0 {
                        token
                    } else {
                        token + seq![' '] + rest
                    },
                ),
            }
        }),
{
    let words = behind_marker(strip_prefix(text, ADMIN_MARKER@)->0);
    let parts = split_once(trim(words), ' ').unwrap();
    let tail = parts.1;
    let t = trim(tail);
    let token = admin_parse(text)->token;
    let rest = admin_parse(text)->rest;
    lemma_trim_is_trimmed(tail);
    let j = find(t, ' ');
    lemma_find(t, ' ');
    assert(is_space(' '));
    if j < t.len() {
        let after = t.skip(j + 1);
        assert(t.last() == t[t.len() - 1]);
        assert(after.last() == t.last());
        lemma_trim_keeps_end(after);
        lemma_trim_is_trimmed(after);
        lemma_trim_is_trimmed(rest);
        let joined = token + seq![' '] + rest;
        assert(token[0] == t[0]);
        assert(joined[0] == token[0]);
        assert(joined.last() == rest.last());
        lemma_trim_is_trimmed(joined);
    } else {
        assert(rest =~= Seq::<char>::empty());
        assert(trim(rest) =~= rest);
        assert(token + seq![' '] + rest =~= token + seq![' ']);
        lemma_trim_trailing_space(token);
    }
}

/// Whether no character of `s` is white space.
pub open spec fn is_word(s: Seq<char>) -> bool {
    s.len() > 0 && forall|i: int| 0 <= i < s.len() ==> !is_space(#[trigger] s[i])
}

/// The text of an admin command for the module `module`, with the word
/// `token` and the text `rest` behind it; `spaced` says whether a space
/// follows the marker.
pub open spec fn admin_text(spaced: bool, module: Seq<char>, token: Seq<char>, rest: Seq<char>)
    -> Seq<char> {
    ADMIN_MARKER@ + if spaced {
        seq![' ']
    } else {
        Seq::<char>::empty()
    } + (module + seq![' '] + token + seq![' '] + rest)
}

/// The marker, with or without a space behind it, then a module name, a
/// word and a trimmed text, each a space apart, read as the command for
/// that module with that word as its token and that text as its rest.
pub proof fn lemma_admin_parse_form(
    spaced: bool,
    module: Seq<char>,
    token: Seq<char>,
    rest: Seq<char>,
)
    requires
        is_word(module),
        is_word(token),
        is_trimmed(rest),
    ensures
        admin_parse(admin_text(spaced, module, token, rest)) == (AdminParseView::Command {
            module,
            token,
            rest,
        }),
{
    let space = seq![' '];
    let gap = if spaced {
        space
    } else {
        Seq::<char>::empty()
    };
    let body = module + space + token + space + rest;
    let text = admin_text(spaced, module, token, rest);
    let marker = ADMIN_MARKER@;
    assert(is_space(' '));
    assert(text.subrange(0, marker.len() as int) =~= marker);
    let after = text.skip(marker.len() as int);
    assert(after =~= gap + body);
    assert(body[0] == module[0]);
    if spaced {
        assert(after.subrange(0, 1) =~= space);
        assert(after.skip(1) =~= body);
    } else {
        assert(after.subrange(0, 1)[0] != space[0]);
    }
    assert(behind_marker(after) == body);
    // the line: the body without the space that an empty rest leaves behind
    let head = module + space + token;
    let line = if rest.len() == 0 {
        head
    } else {
        body
    };
    assert(head[0] == module[0]);
    assert(head.last() == token.last());
    if rest.len() == 0 {
        assert(body =~= head + space);
        lemma_trim_trailing_space(head);
    } else {
        assert(body.last() == rest.last());
        lemma_trim_is_trimmed(body);
    }
    assert(trim(body) == line);
    // the module name ends at the first space
    assert forall|i: int| 0 <= i < module.len() implies line[i] != ' ' by {
        assert(line[i] == module[i]);
    }
    assert(line[module.len() as int] == ' ');
    lemma_find_at(line, ' ', module.len() as int);
    assert(line.take(module.len() as int) =~= module);
    let tail = line.skip(module.len() as int + 1);
    let words = if rest.len() == 0 {
        token
    } else {
        token + space + rest
    };
    assert(tail =~= words);
    assert(words[0] == token[0]);
    if rest.len() > 0 {
        assert(words.last() == rest.last());
    }
    lemma_trim_is_trimmed(words);
    assert(trim(tail) == words);
    // the token ends at the next space, or with the line
    assert forall|i: int| 0 <= i < token.len() implies words[i] != ' ' by {
        assert(words[i] == token[i]);
    }
    if rest.len() > 0 {
        assert(words[token.len() as int] == ' ');
        lemma_find_at(words, ' ', token.len() as int);
        assert(words.take(token.len() as int) =~= token);
        assert(words.skip(token.len() as int + 1) =~= rest);
        lemma_trim_is_trimmed(rest);
    } else {
        lemma_find_at(words, ' ', words.len() as int);
        assert(rest =~= Seq::<char>::empty());
    }
}

/// How a message reads as a help request.
#[derive(Clone, Debug, PartialEq, Eq)]
pub enum HelpParse {
    /// The message is no help request.
    NotHelp,
    /// A request for the list of modules.
    List,
    /// A request for the help of `module`, on `topic` if one is given.
    Topic { module: String, topic: Option<String> },
}

/// The mathematical value of a `HelpParse`.
pub enum HelpParseView {
    NotHelp,
    List,
    Topic { module: Seq<char>, topic: Option<Seq<char>> },
}

impl View for HelpParse {
    type V = HelpParseView;

    open spec fn view(&self) -> HelpParseView {
        match self {
            HelpParse::NotHelp => HelpParseView::NotHelp,
            HelpParse::List => HelpParseView::List,
            HelpParse::Topic { module, topic } => HelpParseView::Topic {
                module: module@,
                topic: topic.deep_view(),
            },
        }
    }
}

/// The help grammar: the marker alone, or followed by white space only,
/// asks for the list of modules; the marker, one space, a module name and
/// an optional topic ask for that module's help.
pub open spec fn help_parse(text: Seq<char>) -> HelpParseView {
    match strip_prefix(text, HELP_MARKER@) {
        None => HelpParseView::NotHelp,
        Some(after_marker) => if trim(after_marker).len() == 0 {
            HelpParseView::List
        } else {
            match strip_prefix(after_marker, seq![' ']) {
                None => HelpParseView::NotHelp,
                Some(words) => match split_once(trim(words), ' ') {
                    None => HelpParseView::Topic { module: trim(words), topic: None },
                    Some((module, tail)) => HelpParseView::Topic {
                        module,
                        topic: Some(trim(tail)),
                    },
                },
            }
        },
    }
}

/// Reads `text` by the help grammar.
pub fn parse_help(text: &str) -> (parsed: HelpParse)
    ensures
        parsed@ == help_parse(text@),
{
    let chars = to_chars(text);
    let marker = to_chars(HELP_MARKER);
    let n = chars.len();
    let m = marker.len();
    if !has_prefix(&chars, &marker) {
        return HelpParse::NotHelp;
    }
    let ghost after_marker = text@.skip(m as int);
    assert(after_marker =~= chars@.subrange(m as int, n as int));
    let (p, q) = trim_range(&chars, m, n);
    if p == q {
        return HelpParse::List;
    }
    if chars[m] != ' ' {
        proof {
            assert(after_marker[0] == chars@[m as int]);
            assert(after_marker.subrange(0, 1)[0] != seq![' '][0]);
        }
        return HelpParse::NotHelp;
    }
    let ghost words = after_marker.skip(1);
    proof {
        assert(after_marker.subrange(0, 1) =~= seq![' ']);
        assert(words =~= chars@.subrange(m + 1, n as int));
    }
    let (a, b) = trim_range(&chars, m + 1, n);
    let i = find_in(&chars, a, b, ' ');
    let ghost line = chars@.subrange(a as int, b as int);
    if i == b {
        return HelpParse::Topic { module: slice_to_string(text, a, b), topic: None };
    }
    proof {
        assert(line.take(i - a) =~= chars@.subrange(a as int, i as int));
        assert(line.skip(i - a + 1) =~= chars@.subrange(i + 1, b as int));
    }
    let (c, d) = trim_range(&chars, i + 1, b);
    HelpParse::Topic {
        module: slice_to_string(text, a, i),
        topic: Some(slice_to_string(text, c, d)),
    }
}

/// A help request is no admin command: the two markers differ.
pub proof fn lemma_help_is_no_admin(text: Seq<char>)
    requires
        !(help_parse(text) is NotHelp),
    ensures
        admin_parse(text) is NotAdmin,
{
    reveal_strlit("!help");
    reveal_strlit("!admin");
    assert(HELP_MARKER@.is_prefix_of(text));
    if ADMIN_MARKER@.is_prefix_of(text) {
        assert(text.subrange(0, 5)[1] == 'h');
        assert(text.subrange(0, 6)[1] == 'a');
    }
}

/// The description a module is listed with: what its help call returned,
/// or a placeholder if the call failed.
pub open spec fn described(help: Option<Seq<char>>) -> Seq<char> {
    match help {
        Some(text) => text,
        None => MISSING_HELP@,
    }
}

/// The line of one module in the plain listing.
pub open spec fn listing_line(name: Seq<char>, help: Option<Seq<char>>) -> Seq<char> {
    "\n- "@ + name + ": "@ + described(help)
}

/// The item of one module in the rich-text listing.
pub open spec fn listing_item(name: Seq<char>, help: Option<Seq<char>>) -> Seq<char> {
    "<li><b>"@ + name + "</b>: "@ + described(help) + "</li>"@
}

/// The plain listing of the modules `names`, whose help calls returned
/// `helps`: the header, then one line for each module, in order.
pub open spec fn listing_text(names: Seq<Seq<char>>, helps: Seq<Option<Seq<char>>>) -> Seq<char>
    decreases names.len(),
{
    if names.len() == 0 {
        LISTING_HEADER@
    } else {
        listing_text(names.drop_last(), helps.drop_last()) + listing_line(
            names.last(),
            helps[names.len() - 1],
        )
    }
}

/// The items of the rich-text listing, behind the opening of the list.
pub open spec fn listing_items(names: Seq<Seq<char>>, helps: Seq<Option<Seq<char>>>) -> Seq<char>
    decreases names.len(),
{
    if names.len() == 0 {
        LISTING_HEADER@ + " <ul>"@
    } else {
        listing_items(names.drop_last(), helps.drop_last()) + listing_item(
            names.last(),
            helps[names.len() - 1],
        )
    }
}

/// The rich-text listing: the header, then the modules as a list.
pub open spec fn listing_html(names: Seq<Seq<char>>, helps: Seq<Option<Seq<char>>>) -> Seq<char> {
    listing_items(names, helps) + "</ul>"@
}

/// The reply to a request for the help of a module named `module`, given
/// what the help call returned; `None` stands for a module that is not
/// loaded and for a call that failed.
pub open spec fn topic_text(module: Seq<char>, help: Option<Seq<char>>) -> Seq<char> {
    match help {
        Some(text) => text,
        None => "module "@ + module + " not found"@,
    }
}

/// The module listing while it is being put together.
pub struct Listing {
    pub text: String,
    pub html: String,
}

impl Listing {
    /// The listing of no modules: `listing_text` and `listing_items` of
    /// nothing.
    pub fn new() -> (l: Listing)
        ensures
            l.text@ == LISTING_HEADER@,
            l.html@ == LISTING_HEADER@ + " <ul>"@,
    {
        Listing {
            text: LISTING_HEADER.to_owned(),
            html: LISTING_HEADER.to_owned().concat(" <ul>"),
        }
    }

    /// Adds the module `name`, whose help call returned `help`.
    pub fn push(&mut self, name: &str, help: Option<String>)
        ensures
            final(self).text@ == old(self).text@ + listing_line(name@, help.deep_view()),
            final(self).html@ == old(self).html@ + listing_item(name@, help.deep_view()),
    {
        let description = match help {
            Some(text) => text,
            None => MISSING_HELP.to_owned(),
        };
        self.text.append("\n- ");
        self.text.append(name);
        self.text.append(": ");
        self.text.append(description.as_str());
        self.html.append("<li><b>");
        self.html.append(name);
        self.html.append("</b>: ");
        self.html.append(description.as_str());
        self.html.append("</li>");
        assert(final(self).text@ =~= old(self).text@ + listing_line(name@, help.deep_view()));
        assert(final(self).html@ =~= old(self).html@ + listing_item(name@, help.deep_view()));
    }

    /// Closes the list and addresses the listing to `to`.
    pub fn finish(self, to: &str) -> (a: Action)
        ensures
            a@ == rich_reply(self.text@, self.html@ + "</ul>"@, to@),
    {
        let Listing { text, html } = self;
        Action::rich(text, html.concat("</ul>"), to)
    }
}

/// The reply that `topic_text` describes, addressed to `to`; the plain and
/// the rich-text rendering are the same.
pub fn topic_reply(module: &str, help: Option<String>, to: &str) -> (a: Action)
    ensures
        a@ == rich_reply(
            topic_text(module@, help.deep_view()),
            topic_text(module@, help.deep_view()),
            to@,
        ),
{
    let text = match help {
        Some(text) => text,
        None => "module ".to_owned().concat(module).concat(" not found"),
    };
    let html = text.clone();
    Action::rich(text, html, to)
}

} // verus!
