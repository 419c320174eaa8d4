//! What the listener makes of the bytes that a connection sends.

use crate::event::{Event, EventView};
use crate::text::{trim, trimmed};
use vstd::prelude::*;

verus! {

/// Bytes that are read from one connection, at most.
pub const READ_BUFFER: usize = 1024;

/// The text that std reads out of bytes, with a replacement character for
/// every run of bytes that is no UTF-8.
pub uninterp spec fn lossy_text(bytes: Seq<u8>) -> Seq<char>;

/// Calls `String::from_utf8_lossy`. Trusted: the result is std's lossy
/// reading of the bytes.
#[verifier::external_body]
fn decode_lossy(bytes: &[u8]) -> (text: String)
    ensures
        text@ == lossy_text(bytes@),
{
    String::from_utf8_lossy(bytes).into_owned()
}

/// The message in a received text: the text without the white space at its
/// ends, unless nothing is left of it.
pub open spec fn message_in(text: Seq<char>) -> Option<Seq<char>> {
    if trimmed(text).len() == 0 {
        None
    } else {
        Some(trimmed(text))
    }
}

/// The message in the bytes of a connection: the message in their text.
pub open spec fn received_message(bytes: Seq<u8>) -> Option<Seq<char>> {
    message_in(lossy_text(bytes))
}

/// The event for a text that a connection has sent, if it holds a message.
pub fn message_from_text(text: &str) -> (event: Option<Event>)
    ensures
        match event {
            Some(e) => message_in(text@) matches Some(message) && e@ == EventView::Message(
                message,
            ),
            None => message_in(text@) is None,
        },
{
    let message = trim(text);
    if message.as_str().is_empty() {
        None
    } else {
        Some(Event::Message(message))
    }
}

/// The event for the bytes that a connection has sent, if they hold a message.
pub fn message_from_bytes(bytes: &[u8]) -> (event: Option<Event>)
    ensures
        match event {
            Some(e) => received_message(bytes@) matches Some(text) && e@ == EventView::Message(
                text,
            ),
            None => received_message(bytes@) is None,
        },
{
    let text = decode_lossy(bytes);
    message_from_text(text.as_str())
}

} // verus!
