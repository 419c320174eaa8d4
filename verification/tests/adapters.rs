use infotube::api::{fetch_and_process, label, message_event, process, ApiConfig, ApiError};
use infotube::json::JsonValue;
use infotube::event::Event;
use infotube::server::{message_from_bytes, message_from_text};
use infotube::ws_client::{
    address_for_scheme, connect_url, message_of_frame, on_frame, parse_message, Frame,
    FrameAction, WsConfig, WsError,
};

fn api(json_keys: Option<Vec<String>>) -> ApiConfig {
    ApiConfig {
        name: "news".to_string(),
        url: "http://example.net/feed".to_string(),
        enabled: true,
        interval_sec: 60,
        json_keys,
    }
}

fn ws(json_keys: Option<Vec<String>>) -> WsConfig {
    WsConfig {
        name: "feed".to_string(),
        url: "wss://example.net/ws".to_string(),
        enabled: true,
        json_keys,
    }
}

#[test]
fn connection_bytes_become_a_trimmed_message() {
    assert_eq!(
        message_from_bytes(b"  hello world\r\n"),
        Some(Event::Message("hello world".to_string()))
    );
    assert_eq!(
        message_from_bytes("日本語\n".as_bytes()),
        Some(Event::Message("日本語".to_string()))
    );
}

#[test]
fn connection_without_text_gives_no_message() {
    assert_eq!(message_from_bytes(b""), None);
    assert_eq!(message_from_bytes(b" \r\n\t"), None);
}

#[test]
fn bytes_that_are_no_text_are_replaced() {
    assert_eq!(
        message_from_bytes(b"a\xffb"),
        Some(Event::Message("a\u{fffd}b".to_string()))
    );
}

#[test]
fn message_carries_the_name_of_its_source() {
    assert_eq!(label("news", "hello"), "[news] hello");
    assert_eq!(label("", ""), "[] ");
    assert_eq!(message_event("news", "hello"), Event::Message("[news] hello".to_string()));
}

#[test]
fn failed_answer_is_passed_over() {
    assert_eq!(fetch_and_process(&api(None), false, "sorry"), Ok(None));
    assert_eq!(
        fetch_and_process(&api(Some(vec!["a".to_string()])), false, "not json"),
        Ok(None)
    );
}

#[test]
fn plain_answer_is_shown_trimmed() {
    assert_eq!(
        fetch_and_process(&api(None), true, "  all well \n"),
        Ok(Some("all well".to_string()))
    );
}

#[test]
fn json_answer_is_read_along_the_paths() {
    let config = api(Some(vec!["data/title".to_string(), "data/n".to_string()]));
    let body = "{\"data\": {\"title\": \"Hello\", \"n\": 1.5, \"list\": [1, 2]}}";
    assert_eq!(fetch_and_process(&config, true, body), Ok(Some("Hello 1.5".to_string())));
    let list = api(Some(vec!["data/list".to_string(), "data/list/1".to_string()]));
    assert_eq!(fetch_and_process(&list, true, body), Ok(Some("[1,2] 2".to_string())));
    let whole = api(Some(vec!["data".to_string()]));
    assert_eq!(
        fetch_and_process(&whole, true, "{\"data\": {\"b\": null, \"a\": \"x\"}}"),
        Ok(Some("{\"a\":\"x\",\"b\":null}".to_string()))
    );
    let missing = api(Some(vec!["nope".to_string()]));
    assert_eq!(fetch_and_process(&missing, true, body), Ok(None));
}

#[test]
fn answer_that_is_no_json_is_an_error_where_paths_are_set() {
    let config = api(Some(vec!["a".to_string()]));
    assert_eq!(fetch_and_process(&config, true, "<html>"), Err(ApiError::InvalidJson));
    assert_eq!(fetch_and_process(&config, true, ""), Err(ApiError::InvalidJson));
}

#[test]
fn secure_web_address_becomes_secure_socket_address() {
    assert_eq!(connect_url("https://example.net/ws"), Ok("wss://example.net/ws".to_string()));
    assert_eq!(connect_url("http://example.net/ws"), Ok("ws://example.net/ws".to_string()));
    assert_eq!(
        connect_url("https://example.net/?next=https://other"),
        Ok("wss://example.net/?next=wss://other".to_string())
    );
}

#[test]
fn socket_address_stays_as_it_is() {
    assert_eq!(connect_url("wss://example.net/ws"), Ok("wss://example.net/ws".to_string()));
    assert_eq!(connect_url("ws://localhost:9000"), Ok("ws://localhost:9000".to_string()));
}

#[test]
fn scheme_in_capitals_is_recognised_but_not_replaced() {
    assert_eq!(connect_url("HTTPS://example.net"), Ok("HTTPS://example.net".to_string()));
}

#[test]
fn address_that_is_no_url_is_refused() {
    assert_eq!(connect_url("not a url"), Err(WsError::InvalidUrl));
    assert_eq!(connect_url(""), Err(WsError::InvalidUrl));
    assert_eq!(connect_url("//example.net"), Err(WsError::InvalidUrl));
}

#[test]
fn text_frame_without_paths_is_the_message() {
    assert_eq!(parse_message("{\"a\": 1}", &None), Some("{\"a\": 1}".to_string()));
    assert_eq!(parse_message("", &None), Some("".to_string()));
}

#[test]
fn text_frame_with_paths_is_read_as_json() {
    let keys = Some(vec!["a".to_string(), "b/0".to_string()]);
    assert_eq!(parse_message("{\"a\": 1, \"b\": [\"x\"]}", &keys), Some("1 x".to_string()));
    assert_eq!(parse_message("{\"c\": 1}", &keys), None);
    assert_eq!(parse_message("no json", &keys), None);
}

#[test]
fn frames_are_forwarded_passed_over_or_end_the_listening() {
    let config = ws(None);
    assert_eq!(
        on_frame(&config, Frame::Text("hello".to_string())),
        FrameAction::Forward(Event::Message("[feed] hello".to_string()))
    );
    assert_eq!(on_frame(&config, Frame::Binary), FrameAction::Ignore);
    assert_eq!(on_frame(&config, Frame::Ping), FrameAction::Ignore);
    assert_eq!(on_frame(&config, Frame::Pong), FrameAction::Ignore);
    assert_eq!(on_frame(&config, Frame::Raw), FrameAction::Ignore);
    assert_eq!(on_frame(&config, Frame::Close), FrameAction::Stop);
    let keyed = ws(Some(vec!["price".to_string()]));
    assert_eq!(
        on_frame(&keyed, Frame::Text("{\"price\": 42}".to_string())),
        FrameAction::Forward(Event::Message("[feed] 42".to_string()))
    );
    assert_eq!(on_frame(&keyed, Frame::Text("oops".to_string())), FrameAction::Ignore);
}

#[test]
fn received_text_becomes_a_trimmed_message() {
    assert_eq!(message_from_text(" hi \n"), Some(Event::Message("hi".to_string())));
    assert_eq!(message_from_text("a b"), Some(Event::Message("a b".to_string())));
    assert_eq!(message_from_text(" \n "), None);
    assert_eq!(message_from_text(""), None);
}

#[test]
fn address_follows_its_scheme() {
    assert_eq!(address_for_scheme("https://a/b", "https"), "wss://a/b");
    assert_eq!(address_for_scheme("http://a/b", "http"), "ws://a/b");
    assert_eq!(address_for_scheme("https://a/b", "http"), "https://a/b");
    assert_eq!(address_for_scheme("http://a/http://b", "http"), "ws://a/ws://b");
    assert_eq!(address_for_scheme("ftp://a/b", "ftp"), "ftp://a/b");
    assert_eq!(address_for_scheme("https://a/b", "HTTPS"), "https://a/b");
}

fn title_payload() -> Option<JsonValue> {
    Some(JsonValue::Object(
        vec![("title".to_string(), JsonValue::String("Hello".to_string()))],
        "{\"title\":\"Hello\"}".to_string(),
    ))
}

#[test]
fn answer_with_its_payload_at_hand() {
    let keyed = api(Some(vec!["title".to_string()]));
    assert_eq!(process(&keyed, true, "ignored", &title_payload()), Ok(Some("Hello".to_string())));
    assert_eq!(process(&keyed, true, "ignored", &None), Err(ApiError::InvalidJson));
    assert_eq!(process(&keyed, false, "ignored", &title_payload()), Ok(None));
    assert_eq!(process(&keyed, false, "ignored", &None), Ok(None));
    let other = api(Some(vec!["nope".to_string()]));
    assert_eq!(process(&other, true, "ignored", &title_payload()), Ok(None));
    let plain = api(None);
    assert_eq!(process(&plain, true, " body ", &title_payload()), Ok(Some("body".to_string())));
    assert_eq!(process(&plain, true, " body ", &None), Ok(Some("body".to_string())));
}

#[test]
fn frame_with_its_payload_at_hand() {
    let keys = Some(vec!["title".to_string()]);
    assert_eq!(message_of_frame("text", &keys, &title_payload()), Some("Hello".to_string()));
    assert_eq!(message_of_frame("text", &keys, &None), None);
    assert_eq!(message_of_frame("text", &None, &title_payload()), Some("text".to_string()));
    assert_eq!(message_of_frame("text", &None, &None), Some("text".to_string()));
}
