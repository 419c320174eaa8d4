//! Pulling the text to show out of a JSON payload, along paths of object
//! keys and array indices.

use crate::text::{chars_of, join_all, split, split_text, views_of};
use vstd::prelude::*;
use vstd::string::StringExecFns;

verus! {

/// A JSON value, as far as the paths read it.
#[derive(Debug, PartialEq, Eq)]
pub enum JsonValue {
    /// `null`.
    Null,
    /// `true` or `false`.
    Bool(bool),
    /// A number, as JSON writes it.
    Number(String),
    /// A string.
    String(String),
    /// An array: its elements, and the array as compact JSON.
    Array(Vec<JsonValue>, String),
    /// An object: its members in order, each under its key, and the object
    /// as compact JSON.
    Object(Vec<(String, JsonValue)>, String),
}

/// `serde_json::Value`, which only the two functions below read.
#[verifier::external_type_specification]
#[verifier::external_body]
pub struct ExValue(serde_json::Value);

/// The value that `serde_json` reads out of a text, where the text is JSON.
pub uninterp spec fn parsed_json(text: Seq<char>) -> Option<JsonValue>;

/// Turns a `serde_json::Value` into a [`JsonValue`], variant by variant and
/// element by element. The texts of numbers, arrays and objects are what
/// `to_string` of `serde_json::Number` and of `serde_json::Value` gives.
/// Trusted as a conversion; nothing is stated of its result.
#[verifier::external_body]
fn json_value(value: &serde_json::Value) -> JsonValue {
    match value {
        serde_json::Value::Null => JsonValue::Null,
        serde_json::Value::Bool(b) => JsonValue::Bool(*b),
        serde_json::Value::Number(n) => JsonValue::Number(n.to_string()),
        serde_json::Value::String(s) => JsonValue::String(s.clone()),
        serde_json::Value::Array(items) => JsonValue::Array(
            items.iter().map(json_value).collect(),
            value.to_string(),
        ),
        serde_json::Value::Object(map) => JsonValue::Object(
            map.iter().map(|(k, v)| (k.clone(), json_value(v))).collect(),
            value.to_string(),
        ),
    }
}

/// Calls `serde_json::from_str`. Trusted: the result is the value that the
/// crate reads out of `text`, converted, and `None` where the text is not
/// JSON.
#[verifier::external_body]
pub(crate) fn parse_json(text: &str) -> (value: Option<JsonValue>)
    ensures
        value == parsed_json(text@),
{
    match serde_json::from_str::<serde_json::Value>(text) {
        Ok(value) => Some(json_value(&value)),
        Err(_) => None,
    }
}

/// The value of the first member under a key.
pub open spec fn member_under(members: Seq<(String, JsonValue)>, key: Seq<char>) -> Option<
    JsonValue,
>
    decreases members.len(),
{
    if members.len() == 0 {
        None
    } else if members[0].0@ == key {
        Some(members[0].1)
    } else {
        member_under(members.drop_first(), key)
    }
}

/// Whether a character is a decimal digit.
pub open spec fn is_digit(c: char) -> bool {
    '0' <= c <= '9'
}

/// The number that a run of decimal digits writes.
pub open spec fn digits_value(s: Seq<char>) -> nat
    decreases s.len(),
{
    if s.len() == 0 {
        0
    } else {
        digits_value(s.drop_last()) * 10 + (s.last() as nat - '0' as nat) as nat
    }
}

/// The number that a run of decimal digits writes, where it is such a run,
/// not empty, and an index can hold the number.
pub open spec fn index_of_digits(digits: Seq<char>) -> Option<usize> {
    if digits.len() > 0 && (forall|i: int| 0 <= i < digits.len() ==> is_digit(#[trigger] digits[i]))
        && digits_value(digits) <= usize::MAX {
        Some(digits_value(digits) as usize)
    } else {
        None
    }
}

/// The array index that a path segment writes: decimal digits, with or
/// without a plus sign before them.
pub open spec fn parsed_index(segment: Seq<char>) -> Option<usize> {
    if segment.len() > 0 && segment[0] == '+' {
        index_of_digits(segment.drop_first())
    } else {
        index_of_digits(segment)
    }
}

impl JsonValue {
    /// The member of an object under a key; nothing else has members.
    pub open spec fn member(self, key: Seq<char>) -> Option<JsonValue> {
        match self {
            JsonValue::Object(members, _) => member_under(members@, key),
            _ => None,
        }
    }

    /// The element of an array at an index; nothing else has elements.
    pub open spec fn element(self, index: int) -> Option<JsonValue> {
        match self {
            JsonValue::Array(items, _) => if 0 <= index < items@.len() {
                Some(items@[index])
            } else {
                None
            },
            _ => None,
        }
    }

    /// One step of a path: the member under the segment as a key, or else
    /// the element at the segment as an index.
    pub open spec fn child(self, segment: Seq<char>) -> Option<JsonValue> {
        match self.member(segment) {
            Some(value) => Some(value),
            None => match parsed_index(segment) {
                Some(index) => self.element(index as int),
                None => None,
            },
        }
    }

    /// The value at the end of a path.
    pub open spec fn descend(self, segments: Seq<Seq<char>>) -> Option<JsonValue>
        decreases segments.len(),
    {
        if segments.len() == 0 {
            Some(self)
        } else {
            match self.child(segments[0]) {
                Some(value) => value.descend(segments.drop_first()),
                None => None,
            }
        }
    }

    /// The text that stands for a value on the display: a string's own
    /// text, a number or a truth value as JSON writes it, an array or an
    /// object as compact JSON, and nothing for `null`.
    pub open spec fn shown(self) -> Option<Seq<char>> {
        match self {
            JsonValue::Null => None,
            JsonValue::Bool(b) => Some(
                if b {
                    "true"@
                } else {
                    "false"@
                },
            ),
            JsonValue::Number(text) => Some(text@),
            JsonValue::String(text) => Some(text@),
            JsonValue::Array(_, text) => Some(text@),
            JsonValue::Object(_, text) => Some(text@),
        }
    }

    /// The text at the end of a path.
    pub open spec fn text_at(self, segments: Seq<Seq<char>>) -> Option<Seq<char>> {
        match self.descend(segments) {
            Some(value) => value.shown(),
            None => None,
        }
    }
}

/// The texts found along the paths that lead to one, in the order of the
/// paths. A path is a run of segments with a slash between them.
pub open spec fn found_texts(value: JsonValue, paths: Seq<Seq<char>>) -> Seq<Seq<char>>
    decreases paths.len(),
{
    if paths.len() == 0 {
        Seq::empty()
    } else {
        match value.text_at(split(paths.last(), '/')) {
            Some(text) => found_texts(value, paths.drop_last()).push(text),
            None => found_texts(value, paths.drop_last()),
        }
    }
}

/// The message that the paths draw from a payload: the texts found, with a
/// blank between them; none where nothing is found.
pub open spec fn message_of(value: JsonValue, paths: Seq<Seq<char>>) -> Option<Seq<char>> {
    if found_texts(value, paths).len() == 0 {
        None
    } else {
        Some(join_all(found_texts(value, paths), " "@))
    }
}

proof fn lemma_digits_grow(s: Seq<char>, k: int)
    requires
        0 <= k <= s.len(),
        forall|i: int| 0 <= i < s.len() ==> is_digit(#[trigger] s[i]),
    ensures
        digits_value(s.take(k)) <= digits_value(s),
    decreases s.len() - k,
{
    if k < s.len() {
        lemma_digits_grow(s.drop_last(), k);
        assert(s.drop_last().take(k) =~= s.take(k));
    } else {
        assert(s.take(k) =~= s);
    }
}

/// The array index that a path segment writes, if it writes one.
pub fn parse_index(segment: &str) -> (index: Option<usize>)
    ensures
        index == parsed_index(segment@),
{
    let glyphs = chars_of(segment);
    let n = glyphs.len();
    let first: usize = if n > 0 && glyphs[0] == '+' {
        1
    } else {
        0
    };
    let ghost digits = glyphs@.skip(first as int);
    assert(parsed_index(segment@) == index_of_digits(digits)) by {
        if first == 1 {
            assert(digits =~= glyphs@.drop_first());
        } else {
            assert(digits =~= glyphs@);
        }
    }
    if first == n {
        return None;
    }
    let mut value: usize = 0;
    let mut i = first;
    while i < n
        invariant
            first <= i <= n,
            n == glyphs@.len(),
            digits == glyphs@.skip(first as int),
            parsed_index(segment@) == index_of_digits(digits),
            forall|k: int| 0 <= k < i - first ==> is_digit(#[trigger] digits[k]),
            value == digits_value(digits.take(i - first)),
        decreases n - i,
    {
        let c = glyphs[i];
        if !('0' <= c && c <= '9') {
            assert(!is_digit(digits[i - first]));
            return None;
        }
        let d = (c as u32 - '0' as u32) as usize;
        assert(digits.take(i - first + 1).drop_last() =~= digits.take(i - first));
        let next = match value.checked_mul(10) {
            Some(tens) => tens.checked_add(d),
            None => None,
        };
        match next {
            Some(v) => {
                value = v;
            },
            None => {
                proof {
                    if forall|k: int| 0 <= k < digits.len() ==> is_digit(#[trigger] digits[k]) {
                        lemma_digits_grow(digits, i - first + 1);
                    }
                }
                return None;
            },
        }
        i = i + 1;
    }
    assert(digits.take(n - first) =~= digits);
    Some(value)
}

/// The member of an object under a key.
fn member<'a>(value: &'a JsonValue, key: &String) -> (found: Option<&'a JsonValue>)
    ensures
        match found {
            Some(v) => value.member(key@) == Some(*v),
            None => value.member(key@) is None,
        },
{
    match value {
        JsonValue::Object(members, _) => {
            let mut i: usize = 0;
            assert(members@.skip(0) =~= members@);
            while i < members.len()
                invariant
                    i <= members@.len(),
                    value.member(key@) == member_under(members@, key@),
                    member_under(members@, key@) == member_under(members@.skip(i as int), key@),
                decreases members@.len() - i,
            {
                assert(members@.skip(i as int)[0] == members@[i as int]);
                if members[i].0 == *key {
                    return Some(&members[i].1);
                }
                assert(members@.skip(i as int).drop_first() =~= members@.skip(i + 1));
                i = i + 1;
            }
            None
        },
        _ => None,
    }
}

/// One step of a path.
fn child<'a>(value: &'a JsonValue, segment: &String) -> (found: Option<&'a JsonValue>)
    ensures
        match found {
            Some(v) => value.child(segment@) == Some(*v),
            None => value.child(segment@) is None,
        },
{
    match member(value, segment) {
        Some(v) => Some(v),
        None => match parse_index(segment.as_str()) {
            Some(index) => match value {
                JsonValue::Array(items, _) => if index < items.len() {
                    Some(&items[index])
                } else {
                    None
                },
                _ => None,
            },
            None => None,
        },
    }
}

/// The text at the end of a path whose segments are given: the path is
/// walked from the payload down, each segment taken as an object key first
/// and as an array index where no such key is found.
pub fn extract_single_value(value: &JsonValue, keys: &Vec<String>) -> (text: Option<String>)
    ensures
        match text {
            Some(t) => value.text_at(views_of(keys@)) == Some(t@),
            None => value.text_at(views_of(keys@)) is None,
        },
{
    let ghost segments = views_of(keys@);
    let mut current: &JsonValue = value;
    let mut i: usize = 0;
    assert(segments.skip(0) =~= segments);
    while i < keys.len()
        invariant
            i <= keys@.len(),
            segments == views_of(keys@),
            value.descend(segments) == current.descend(segments.skip(i as int)),
        decreases keys@.len() - i,
    {
        assert(segments.skip(i as int).drop_first() =~= segments.skip(i + 1));
        match child(current, &keys[i]) {
            Some(next) => {
                current = next;
            },
            None => {
                return None;
            },
        }
        i = i + 1;
    }
    match current {
        JsonValue::Null => None,
        JsonValue::Bool(b) => Some(
            if *b {
                "true".to_owned()
            } else {
                "false".to_owned()
            },
        ),
        JsonValue::Number(text) => Some(text.clone()),
        JsonValue::String(text) => Some(text.clone()),
        JsonValue::Array(_, text) => Some(text.clone()),
        JsonValue::Object(_, text) => Some(text.clone()),
    }
}

/// The parts in order, with the separator between every two of them.
pub fn join_texts(parts: &Vec<String>, sep: &str) -> (text: String)
    ensures
        text@ == join_all(views_of(parts@), sep@),
{
    let mut text = String::new();
    let mut i: usize = 0;
    while i < parts.len()
        invariant
            i <= parts@.len(),
            text@ == join_all(views_of(parts@).take(i as int), sep@),
        decreases parts@.len() - i,
    {
        let ghost before = views_of(parts@).take(i as int);
        assert(views_of(parts@).take(i + 1).drop_last() =~= before);
        if i > 0 {
            text.append(sep);
        }
        text.append(parts[i].as_str());
        assert(text@ =~= join_all(views_of(parts@).take(i + 1), sep@));
        i = i + 1;
    }
    assert(views_of(parts@).take(i as int) =~= views_of(parts@));
    text
}

/// The message that a list of paths draws from a payload: for each path the
/// text at its end, where there is one, and these with a blank between them.
pub fn extract_message(value: &JsonValue, paths: &Vec<String>) -> (message: Option<String>)
    ensures
        match message {
            Some(m) => message_of(*value, views_of(paths@)) == Some(m@),
            None => message_of(*value, views_of(paths@)) is None,
        },
{
    let mut results: Vec<String> = Vec::new();
    let mut i: usize = 0;
    assert(views_of(results@) =~= Seq::<Seq<char>>::empty());
    while i < paths.len()
        invariant
            i <= paths@.len(),
            views_of(results@) == found_texts(*value, views_of(paths@).take(i as int)),
        decreases paths@.len() - i,
    {
        let ghost before = views_of(paths@).take(i as int);
        assert(views_of(paths@).take(i + 1).drop_last() =~= before);
        let keys = split_text(paths[i].as_str(), '/');
        match extract_single_value(value, &keys) {
            Some(text) => {
                assert(views_of(results@.push(text)) =~= views_of(results@).push(text@));
                results.push(text);
            },
            None => {},
        }
        i = i + 1;
    }
    assert(views_of(paths@).take(i as int) =~= views_of(paths@));
    if results.len() == 0 {
        None
    } else {
        Some(join_texts(&results, " "))
    }
}

} // verus!
