//! What the poller makes of the answer to a request.

use crate::event::{Event, EventView};
use crate::json::{extract_message, message_of, parse_json, parsed_json, JsonValue};
use crate::text::{trim, trimmed, views_of};
use vstd::prelude::*;
use vstd::string::StringExecFns;

verus! {

/// One source that is polled.
#[derive(Clone, Debug, PartialEq, Eq)]
pub struct ApiConfig {
    /// The name that its messages are shown under.
    pub name: String,
    /// Where it is asked.
    pub url: String,
    /// Whether it is asked at all.
    pub enabled: bool,
    /// Seconds between two requests.
    pub interval_sec: u64,
    /// The paths into a JSON answer; without them the answer is shown as it is.
    pub json_keys: Option<Vec<String>>,
}

/// Why an answer gives no message though the request went well.
#[derive(Clone, Copy, Debug, PartialEq, Eq, Structural)]
pub enum ApiError {
    /// Paths are configured, and the answer is no JSON.
    InvalidJson,
}

/// A message under the name of its source: the name in square brackets,
/// a blank, the message.
pub open spec fn labelled(name: Seq<char>, message: Seq<char>) -> Seq<char> {
    seq!['['] + name + seq![']', ' '] + message
}

/// What an answer gives whose body is read as `payload`. One with a
/// status of failure gives nothing. With paths configured the answer gives
/// what the paths find in the payload, and is an error where there is none.
/// Without paths the body itself is the message, without the white space at
/// its ends.
pub open spec fn processed_with(
    json_keys: Option<Seq<Seq<char>>>,
    success: bool,
    body: Seq<char>,
    payload: Option<JsonValue>,
) -> Result<Option<Seq<char>>, ApiError> {
    if !success {
        Ok(None)
    } else {
        match json_keys {
            Some(keys) => match payload {
                Some(value) => Ok(message_of(value, keys)),
                None => Err(ApiError::InvalidJson),
            },
            None => Ok(Some(trimmed(body))),
        }
    }
}

/// What an answer gives: with paths configured its body is read as JSON.
pub open spec fn processed(
    json_keys: Option<Seq<Seq<char>>>,
    success: bool,
    body: Seq<char>,
) -> Result<Option<Seq<char>>, ApiError> {
    processed_with(json_keys, success, body, parsed_json(body))
}

/// The paths of a source, as texts.
pub open spec fn keys_view(json_keys: Option<Vec<String>>) -> Option<Seq<Seq<char>>> {
    match json_keys {
        Some(keys) => Some(views_of(keys@)),
        None => None,
    }
}

/// A message under the name of its source.
pub fn label(name: &str, message: &str) -> (text: String)
    ensures
        text@ == labelled(name@, message@),
{
    let mut text = String::new();
    text.push('[');
    text.append(name);
    text.push(']');
    text.push(' ');
    text.append(message);
    assert(text@ =~= labelled(name@, message@));
    text
}

/// The event for a message of a source.
pub fn message_event(name: &str, message: &str) -> (event: Event)
    ensures
        event@ == EventView::Message(labelled(name@, message@)),
{
    Event::Message(label(name, message))
}

/// The message in the answer to a request whose body is read as `payload`.
pub fn process(
    config: &ApiConfig,
    success: bool,
    body: &str,
    payload: &Option<JsonValue>,
) -> (result: Result<Option<String>, ApiError>)
    ensures
        match result {
            Ok(Some(m)) => processed_with(keys_view(config.json_keys), success, body@, *payload)
                == Ok::<Option<Seq<char>>, ApiError>(Some(m@)),
            Ok(None) => processed_with(keys_view(config.json_keys), success, body@, *payload)
                == Ok::<Option<Seq<char>>, ApiError>(None),
            Err(e) => processed_with(keys_view(config.json_keys), success, body@, *payload)
                == Err::<Option<Seq<char>>, ApiError>(e),
        },
{
    if !success {
        return Ok(None);
    }
    match &config.json_keys {
        Some(keys) => match payload {
            Some(value) => Ok(extract_message(value, keys)),
            None => Err(ApiError::InvalidJson),
        },
        None => Ok(Some(trim(body))),
    }
}

/// The message in the answer to a request, from whether its status says
/// success and from its body.
pub fn fetch_and_process(
    config: &ApiConfig,
    success: bool,
    body: &str,
) -> (result: Result<Option<String>, ApiError>)
    ensures
        match result {
            Ok(Some(m)) => processed(keys_view(config.json_keys), success, body@) == Ok::<
                Option<Seq<char>>,
                ApiError,
            >(Some(m@)),
            Ok(None) => processed(keys_view(config.json_keys), success, body@) == Ok::<
                Option<Seq<char>>,
                ApiError,
            >(None),
            Err(e) => processed(keys_view(config.json_keys), success, body@) == Err::<
                Option<Seq<char>>,
                ApiError,
            >(e),
        },
{
    let payload = if success && config.json_keys.is_some() {
        parse_json(body)
    } else {
        None
    };
    process(config, success, body, &payload)
}

} // verus!
