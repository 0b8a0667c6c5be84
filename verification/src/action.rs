//! Reply instructions: what a dispatch produces and what the network relay
//! is asked to send for each of them.

use vstd::prelude::*;

verus! {

/// A text reply, with an optional rich-text rendering, addressed to `to`.
#[derive(Clone, Debug, PartialEq, Eq)]
pub struct Message {
    pub text: String,
    pub html: Option<String>,
    pub to: String,
}

/// The mathematical value of a `Message`.
pub struct MessageView {
    pub text: Seq<char>,
    pub html: Option<Seq<char>>,
    pub to: Seq<char>,
}

impl View for Message {
    type V = MessageView;

    open spec fn view(&self) -> MessageView {
        MessageView { text: self.text@, html: self.html.deep_view(), to: self.to@ }
    }
}

impl DeepView for Message {
    type V = MessageView;

    open spec fn deep_view(&self) -> MessageView {
        self@
    }
}

/// A reply instruction: send a message, or react to the event that is being
/// answered.
#[derive(Clone, Debug, PartialEq, Eq)]
pub enum Action {
    Respond(Message),
    React(String),
}

/// The mathematical value of an `Action`.
pub enum ActionView {
    Respond(MessageView),
    React(Seq<char>),
}

impl View for Action {
    type V = ActionView;

    open spec fn view(&self) -> ActionView {
        match self {
            Action::Respond(m) => ActionView::Respond(m@),
            Action::React(r) => ActionView::React(r@),
        }
    }
}

impl DeepView for Action {
    type V = ActionView;

    open spec fn deep_view(&self) -> ActionView {
        self@
    }
}

/// A plain-text reply to `to`.
pub open spec fn plain_reply(text: Seq<char>, to: Seq<char>) -> ActionView {
    ActionView::Respond(MessageView { text, html: None, to })
}

/// A reply to `to` that carries a rich-text rendering beside the plain one.
pub open spec fn rich_reply(text: Seq<char>, html: Seq<char>, to: Seq<char>) -> ActionView {
    ActionView::Respond(MessageView { text, html: Some(html), to })
}

impl Action {
    /// Builds `plain_reply(text, to)`.
    pub fn plain(text: &str, to: &str) -> (a: Action)
        ensures
            a@ == plain_reply(text@, to@),
    {
        Action::Respond(Message { text: text.to_owned(), html: None, to: to.to_owned() })
    }

    /// Builds `rich_reply(text, html, to)`.
    pub fn rich(text: String, html: String, to: &str) -> (a: Action)
        ensures
            a@ == rich_reply(text@, html@, to@),
    {
        Action::Respond(Message { text, html: Some(html), to: to.to_owned() })
    }
}

/// What the network relay sends for one action.
#[derive(Clone, Debug, PartialEq, Eq)]
pub enum Outbound {
    /// A message with a plain and a rich-text body.
    Html { text: String, html: String },
    /// A message with a plain body only.
    Plain { text: String },
    /// A reaction `key` attached to the event `target`.
    Reaction { target: String, key: String },
}

/// The mathematical value of an `Outbound`.
pub enum OutboundView {
    Html { text: Seq<char>, html: Seq<char> },
    Plain { text: Seq<char> },
    Reaction { target: Seq<char>, key: Seq<char> },
}

impl View for Outbound {
    type V = OutboundView;

    open spec fn view(&self) -> OutboundView {
        match self {
            Outbound::Html { text, html } => OutboundView::Html { text: text@, html: html@ },
            Outbound::Plain { text } => OutboundView::Plain { text: text@ },
            Outbound::Reaction { target, key } => OutboundView::Reaction {
                target: target@,
                key: key@,
            },
        }
    }
}

impl DeepView for Outbound {
    type V = OutboundView;

    open spec fn deep_view(&self) -> OutboundView {
        self@
    }
}

/// What is sent for `action` in answer to the event `event_id`: a message is
/// sent as rich text exactly when it has a rich-text rendering, and a
/// reaction is attached to the event that is being answered.
pub open spec fn outbound_of(action: ActionView, event_id: Seq<char>) -> OutboundView {
    match action {
        ActionView::Respond(m) => match m.html {
            Some(html) => OutboundView::Html { text: m.text, html },
            None => OutboundView::Plain { text: m.text },
        },
        ActionView::React(key) => OutboundView::Reaction { target: event_id, key },
    }
}

/// Computes `outbound_of`.
pub fn outbound(action: Action, event_id: &str) -> (out: Outbound)
    ensures
        out@ == outbound_of(action@, event_id@),
{
    match action {
        Action::Respond(m) => match m.html {
            Some(html) => Outbound::Html { text: m.text, html },
            None => Outbound::Plain { text: m.text },
        },
        Action::React(key) => Outbound::Reaction { target: event_id.to_owned(), key },
    }
}

/// What is sent for each of `actions`, in their order.
pub fn outbound_events(actions: Vec<Action>, event_id: &str) -> (out: Vec<Outbound>)
    ensures
        out.deep_view() == actions.deep_view().map_values(
            |a: ActionView| outbound_of(a, event_id@),
        ),
{
    broadcast use vstd::std_specs::vec::axiom_spec_into_iter;

    let ghost all = actions@;
    let mut out: Vec<Outbound> = Vec::new();
    for action in it: actions.into_iter()
        invariant
            it.seq() == all,
            out.len() == it.index(),
            forall|i: int| 0 <= i < out.len() ==> out@[i]@ == outbound_of(all[i]@, event_id@),
    {
        let o = outbound(action, event_id);
        out.push(o);
    }
    assert(out.deep_view() =~= actions.deep_view().map_values(
        |a: ActionView| outbound_of(a, event_id@),
    ));
    out
}

} // verus!
