//! What happens to an incoming message before it is dispatched.

use crate::text::same_text;
use vstd::prelude::*;

verus! {

/// The text to dispatch for an incoming event, if it is to be dispatched:
/// the event is a text message that was not redacted, it was sent in a room
/// that the bot has joined, and the bot did not send it itself.
pub open spec fn accepted(
    room_joined: bool,
    sender: Seq<char>,
    own_id: Seq<char>,
    redacted: bool,
    body: Option<Seq<char>>,
) -> Option<Seq<char>> {
    if room_joined && sender != own_id && !redacted {
        body
    } else {
        None
    }
}

/// Computes `accepted`. `body` is the text of the event if it is a text
/// message.
pub fn accept(room_joined: bool, sender: &str, own_id: &str, redacted: bool, body: Option<String>)
    -> (text: Option<String>)
    ensures
        text.deep_view() == accepted(room_joined, sender@, own_id@, redacted, body.deep_view()),
{
    if room_joined && !same_text(sender, own_id) && !redacted {
        body
    } else {
        None
    }
}

} // verus!
