//! What the WebSocket client decides: the address it connects to, and what
//! becomes of each frame it receives.

use crate::api::{label, labelled};
use crate::event::{Event, EventView};
use crate::json::{extract_message, message_of, parse_json, parsed_json, JsonValue};
use crate::text::{replace_all, replaced, same_text, views_of};
use url::Url;
use vstd::prelude::*;

verus! {

/// Seconds to wait before connecting again.
pub const RETRY_DELAY_SEC: u64 = 5;

/// One source that is listened to.
#[derive(Clone, Debug, PartialEq, Eq)]
pub struct WsConfig {
    /// The name that its messages are shown under.
    pub name: String,
    /// Where it is reached.
    pub url: String,
    /// Whether it is listened to at all.
    pub enabled: bool,
    /// The paths into a JSON frame; without them the frame is shown as it is.
    pub json_keys: Option<Vec<String>>,
}

/// Why no connection is tried.
#[derive(Clone, Copy, Debug, PartialEq, Eq, Structural)]
pub enum WsError {
    /// The configured address is no URL.
    InvalidUrl,
}

/// A frame of the connection, as far as the client reads it.
#[derive(Debug, PartialEq, Eq)]
pub enum Frame {
    /// A text frame.
    Text(String),
    /// A binary frame.
    Binary,
    /// A ping.
    Ping,
    /// A pong.
    Pong,
    /// The other side closes.
    Close,
    /// A raw frame.
    Raw,
}

/// What the client does with a frame.
#[derive(Debug, PartialEq, Eq)]
pub enum FrameAction {
    /// Hand the event to the display, and go on.
    Forward(Event),
    /// Go on.
    Ignore,
    /// Stop listening.
    Stop,
}

/// The mathematical value of [`FrameAction`].
pub enum FrameActionView {
    Forward(EventView),
    Ignore,
    Stop,
}

impl View for FrameAction {
    type V = FrameActionView;

    open spec fn view(&self) -> FrameActionView {
        match self {
            FrameAction::Forward(event) => FrameActionView::Forward(event@),
            FrameAction::Ignore => FrameActionView::Ignore,
            FrameAction::Stop => FrameActionView::Stop,
        }
    }
}

/// `url::ParseError`, of which only its presence is read.
#[verifier::external_type_specification]
#[verifier::external_body]
pub struct ExParseError(url::ParseError);

/// The scheme that `url` reads out of an address, in lower case and without
/// its colon, where the address is a URL.
pub uninterp spec fn url_scheme(address: Seq<char>) -> Option<Seq<char>>;

/// Calls `url::Url::parse` and, on the URL it gives, `url::Url::scheme`.
/// Trusted: the result is the scheme of the URL that the crate reads out of
/// `address`, and the crate's error where it reads none.
#[verifier::external_body]
fn parse_scheme(address: &str) -> (scheme: Result<String, url::ParseError>)
    ensures
        match scheme {
            Ok(s) => url_scheme(address@) == Some(s@),
            Err(_) => url_scheme(address@) is None,
        },
{
    match Url::parse(address) {
        Ok(url) => Ok(url.scheme().to_owned()),
        Err(error) => Err(error),
    }
}

/// The address to connect to for a configured address with a given scheme:
/// `https://` turned into `wss://` where the scheme is `https`, `http://`
/// into `ws://` where it is `http`, and the address itself otherwise.
pub open spec fn socket_address(address: Seq<char>, scheme: Seq<char>) -> Seq<char> {
    if scheme == "https"@ {
        replaced(address, "https://"@, "wss://"@)
    } else if scheme == "http"@ {
        replaced(address, "http://"@, "ws://"@)
    } else {
        address
    }
}

/// The address to connect to: that for the scheme of the configured one.
/// There is none where the configured one is no URL.
pub open spec fn connect_address(address: Seq<char>) -> Option<Seq<char>> {
    match url_scheme(address) {
        Some(scheme) => Some(socket_address(address, scheme)),
        None => None,
    }
}

/// The message in a text frame that is read as `payload`: the frame itself
/// where no paths are configured; else what the paths find in the payload,
/// and nothing where there is none.
pub open spec fn message_in_frame(
    text: Seq<char>,
    keys: Option<Seq<Seq<char>>>,
    payload: Option<JsonValue>,
) -> Option<Seq<char>> {
    match keys {
        None => Some(text),
        Some(paths) => match payload {
            Some(value) => message_of(value, paths),
            None => None,
        },
    }
}

/// The message in a text frame: the frame itself where no paths are
/// configured; else what the paths find in it, read as JSON, and nothing
/// where it is no JSON.
pub open spec fn frame_message(text: Seq<char>, keys: Option<Seq<Seq<char>>>) -> Option<Seq<char>> {
    message_in_frame(text, keys, parsed_json(text))
}

/// The paths of a source, as texts.
pub open spec fn keys_view(json_keys: Option<Vec<String>>) -> Option<Seq<Seq<char>>> {
    match json_keys {
        Some(keys) => Some(views_of(keys@)),
        None => None,
    }
}

/// What the client does with a frame: a text frame that holds a message is
/// handed on under the name of the source, a close frame ends the
/// listening, and everything else is passed over.
pub open spec fn frame_action(
    name: Seq<char>,
    keys: Option<Seq<Seq<char>>>,
    frame: Frame,
) -> FrameActionView {
    match frame {
        Frame::Text(text) => match frame_message(text@, keys) {
            Some(message) => FrameActionView::Forward(EventView::Message(labelled(name, message))),
            None => FrameActionView::Ignore,
        },
        Frame::Close => FrameActionView::Stop,
        _ => FrameActionView::Ignore,
    }
}

/// The address to connect to for a configured address with a given scheme.
pub fn address_for_scheme(address: &str, scheme: &str) -> (out: String)
    ensures
        out@ == socket_address(address@, scheme@),
{
    if same_text(scheme, "https") {
        replace_all(address, "https://", "wss://")
    } else if same_text(scheme, "http") {
        replace_all(address, "http://", "ws://")
    } else {
        address.to_owned()
    }
}

/// The address to connect to for a configured address.
pub fn connect_url(address: &str) -> (result: Result<String, WsError>)
    ensures
        match result {
            Ok(a) => connect_address(address@) == Some(a@),
            Err(e) => e == WsError::InvalidUrl && connect_address(address@) is None,
        },
{
    match parse_scheme(address) {
        Ok(scheme) => Ok(address_for_scheme(address, scheme.as_str())),
        Err(_) => Err(WsError::InvalidUrl),
    }
}

/// The message in a text frame whose text is read as `payload`.
pub fn message_of_frame(
    text: &str,
    keys: &Option<Vec<String>>,
    payload: &Option<JsonValue>,
) -> (message: Option<String>)
    ensures
        match message {
            Some(m) => message_in_frame(text@, keys_view(*keys), *payload) == Some(m@),
            None => message_in_frame(text@, keys_view(*keys), *payload) is None,
        },
{
    match keys {
        None => Some(text.to_owned()),
        Some(paths) => match payload {
            Some(value) => extract_message(value, paths),
            None => None,
        },
    }
}

/// The message in a text frame.
pub fn parse_message(text: &str, keys: &Option<Vec<String>>) -> (message: Option<String>)
    ensures
        match message {
            Some(m) => frame_message(text@, keys_view(*keys)) == Some(m@),
            None => frame_message(text@, keys_view(*keys)) is None,
        },
{
    let payload = if keys.is_some() {
        parse_json(text)
    } else {
        None
    };
    message_of_frame(text, keys, &payload)
}

/// What the client does with a frame it has received.
pub fn on_frame(config: &WsConfig, frame: Frame) -> (action: FrameAction)
    ensures
        action@ == frame_action(config.name@, keys_view(config.json_keys), frame),
{
    match frame {
        Frame::Text(text) => match parse_message(text.as_str(), &config.json_keys) {
            Some(message) => FrameAction::Forward(
                Event::Message(label(config.name.as_str(), message.as_str())),
            ),
            None => FrameAction::Ignore,
        },
        Frame::Close => FrameAction::Stop,
        _ => FrameAction::Ignore,
    }
}

} // verus!
