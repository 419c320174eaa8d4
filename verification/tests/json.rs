use infotube::json::{extract_message, extract_single_value, join_texts, parse_index, JsonValue};

fn text(s: &str) -> JsonValue {
    JsonValue::String(s.to_string())
}

fn number(s: &str) -> JsonValue {
    JsonValue::Number(s.to_string())
}

fn keys(path: &[&str]) -> Vec<String> {
    path.iter().map(|s| s.to_string()).collect()
}

/// {"data":{"title":"Hello","count":3,"ok":true,"none":null,"tags":["a","b"]},"0":"zero"}
fn payload() -> JsonValue {
    let tags = JsonValue::Array(vec![text("a"), text("b")], "[\"a\",\"b\"]".to_string());
    let data = JsonValue::Object(
        vec![
            ("title".to_string(), text("Hello")),
            ("count".to_string(), number("3")),
            ("ok".to_string(), JsonValue::Bool(true)),
            ("none".to_string(), JsonValue::Null),
            ("tags".to_string(), tags),
        ],
        "{\"count\":3}".to_string(),
    );
    JsonValue::Object(
        vec![("data".to_string(), data), ("0".to_string(), text("zero"))],
        "{}".to_string(),
    )
}

#[test]
fn path_leads_through_objects() {
    let value = payload();
    assert_eq!(extract_single_value(&value, &keys(&["data", "title"])), Some("Hello".to_string()));
    assert_eq!(extract_single_value(&value, &keys(&["data", "count"])), Some("3".to_string()));
    assert_eq!(extract_single_value(&value, &keys(&["data", "ok"])), Some("true".to_string()));
}

#[test]
fn path_leads_through_arrays_by_index() {
    let value = payload();
    assert_eq!(
        extract_single_value(&value, &keys(&["data", "tags", "1"])),
        Some("b".to_string())
    );
    assert_eq!(
        extract_single_value(&value, &keys(&["data", "tags", "+0"])),
        Some("a".to_string())
    );
    assert_eq!(extract_single_value(&value, &keys(&["data", "tags", "2"])), None);
    assert_eq!(extract_single_value(&value, &keys(&["data", "tags", "x"])), None);
}

#[test]
fn key_is_tried_before_index() {
    let value = payload();
    assert_eq!(extract_single_value(&value, &keys(&["0"])), Some("zero".to_string()));
}

#[test]
fn null_and_missing_give_nothing() {
    let value = payload();
    assert_eq!(extract_single_value(&value, &keys(&["data", "none"])), None);
    assert_eq!(extract_single_value(&value, &keys(&["data", "missing"])), None);
    assert_eq!(extract_single_value(&value, &keys(&["data", "title", "deeper"])), None);
    assert_eq!(extract_single_value(&value, &keys(&[""])), None);
    assert_eq!(extract_single_value(&JsonValue::Null, &Vec::new()), None);
}

#[test]
fn arrays_and_objects_are_shown_as_json() {
    let value = payload();
    assert_eq!(
        extract_single_value(&value, &keys(&["data", "tags"])),
        Some("[\"a\",\"b\"]".to_string())
    );
    assert_eq!(extract_single_value(&value, &keys(&["data"])), Some("{\"count\":3}".to_string()));
    assert_eq!(extract_single_value(&value, &Vec::new()), Some("{}".to_string()));
    assert_eq!(extract_single_value(&JsonValue::Bool(false), &Vec::new()), Some("false".to_string()));
}

#[test]
fn found_texts_are_joined_with_a_blank() {
    let value = payload();
    let paths = keys(&["data/title", "data/missing", "data/count", "data/tags/0"]);
    assert_eq!(extract_message(&value, &paths), Some("Hello 3 a".to_string()));
}

#[test]
fn nothing_found_gives_no_message() {
    let value = payload();
    assert_eq!(extract_message(&value, &keys(&["nope", "data/none"])), None);
    assert_eq!(extract_message(&value, &Vec::new()), None);
}

#[test]
fn empty_texts_are_joined_too() {
    let value = JsonValue::Object(
        vec![("a".to_string(), text("")), ("b".to_string(), text("x"))],
        "{}".to_string(),
    );
    assert_eq!(extract_message(&value, &keys(&["a", "b", "a"])), Some(" x ".to_string()));
    assert_eq!(extract_message(&value, &keys(&["a"])), Some("".to_string()));
}

#[test]
fn index_is_decimal_with_an_optional_plus() {
    assert_eq!(parse_index("0"), Some(0));
    assert_eq!(parse_index("42"), Some(42));
    assert_eq!(parse_index("+7"), Some(7));
    assert_eq!(parse_index("007"), Some(7));
    assert_eq!(parse_index(&usize::MAX.to_string()), Some(usize::MAX));
}

#[test]
fn index_rejects_what_is_no_number() {
    assert_eq!(parse_index(""), None);
    assert_eq!(parse_index("+"), None);
    assert_eq!(parse_index("-1"), None);
    assert_eq!(parse_index("1a"), None);
    assert_eq!(parse_index(" 1"), None);
    assert_eq!(parse_index("++1"), None);
    assert_eq!(parse_index("１"), None);
    assert_eq!(parse_index("18446744073709551616"), None);
    assert_eq!(parse_index("99999999999999999999999"), None);
}

#[test]
fn index_agrees_with_std() {
    for s in ["0", "12", "+3", "", "+", "x", "1 ", "0x10", "18446744073709551615", "18446744073709551616"] {
        assert_eq!(parse_index(s), s.parse::<usize>().ok());
    }
}

#[test]
fn join_puts_the_separator_between_all_parts() {
    assert_eq!(join_texts(&keys(&["a", "b", "c"]), " "), "a b c");
    assert_eq!(join_texts(&keys(&["a"]), " "), "a");
    assert_eq!(join_texts(&Vec::new(), " "), "");
    assert_eq!(join_texts(&keys(&["", ""]), "-"), "-");
}
