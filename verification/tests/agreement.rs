use infotube::api::{fetch_and_process, ApiConfig};
use infotube::marquee::{marquee_window, ticker_line};
use infotube::source::file_text;
use infotube::text::{replace_all, split_text, trim};
use unicode_width::UnicodeWidthChar;

const TEXTS: [&str; 8] = [
    "",
    "a",
    "Hello, world! This is a test.",
    "日本語のテキストと ASCII の混在",
    "e\u{301}galite\u{301}, liberte\u{301}",
    "\u{301}starts with a mark",
    "tab\there and\nnewline",
    "ends wide 語",
];

fn columns(c: char) -> usize {
    c.width().unwrap_or(0)
}

/// The window by a plain walk over the repeated strip: glyphs are passed
/// over while they end at or before the column, then taken until the
/// columns are full.
fn walked(content: &str, offset: usize, avail: usize) -> String {
    let strip: Vec<char> = content.chars().chain("   ***   ".chars()).collect();
    let period: usize = strip.iter().map(|c| columns(*c)).sum();
    let column = offset % period;
    let mut glyphs = strip.iter().cycle();
    let mut window = String::new();
    let mut passed = 0;
    let mut taken = 0;
    if avail == 0 {
        return window;
    }
    for c in glyphs.by_ref() {
        if passed + columns(*c) > column {
            window.push(*c);
            taken += columns(*c);
            break;
        }
        passed += columns(*c);
    }
    for c in glyphs {
        if taken >= avail {
            break;
        }
        window.push(*c);
        taken += columns(*c);
    }
    window
}

#[test]
fn window_is_what_a_walk_over_the_repeated_strip_gives() {
    for text in TEXTS {
        let period: usize = text.chars().map(columns).sum::<usize>() + 9;
        for offset in (0..3 * period).chain([usize::MAX - 1, usize::MAX]) {
            for avail in 0..24 {
                assert_eq!(
                    marquee_window(text, offset, avail),
                    walked(text, offset, avail),
                    "{:?} at {} in {}",
                    text,
                    offset,
                    avail
                );
            }
        }
    }
}

#[test]
fn line_is_the_text_or_its_window() {
    for text in TEXTS {
        let width: usize = text.chars().map(columns).sum();
        for line in 0..40 {
            for offset in [0, 1, 5, 28, 29, 1000] {
                let expected = if width <= line {
                    text.to_string()
                } else {
                    walked(text, offset, line)
                };
                assert_eq!(ticker_line("", text, line, offset), expected);
                let left = line.saturating_sub(6);
                let with_prefix = if width <= left {
                    format!("(9s)  {}", text)
                } else {
                    format!("(9s)  {}", walked(text, offset, left))
                };
                assert_eq!(ticker_line("(9s)  ", text, line, offset), with_prefix);
            }
        }
    }
}

const FILES: [&str; 10] = [
    "",
    "one line",
    "one\ntwo\nthree\n",
    "  padded  \n\n\n\tnext\t\n",
    "windows\r\nline\r\nends\r\n",
    "lone\rreturn\nhere",
    "\u{3000}wide blanks\u{3000}\n\u{a0}hard blank\u{a0}",
    "\n\n\n",
    " \t \n \r\n",
    "last line without end\n   ",
];

#[test]
fn file_text_is_its_trimmed_lines_joined() {
    for content in FILES {
        let expected = content
            .lines()
            .map(|line| line.trim())
            .filter(|line| !line.is_empty())
            .collect::<Vec<&str>>()
            .join("    ");
        assert_eq!(file_text(content), expected, "{:?}", content);
    }
}

#[test]
fn text_helpers_do_what_std_does() {
    for content in FILES.iter().chain(TEXTS.iter()) {
        assert_eq!(trim(content), content.trim());
        for sep in ['\n', ' ', '/', 'e'] {
            let expected: Vec<String> = content.split(sep).map(|part| part.to_string()).collect();
            assert_eq!(split_text(content, sep), expected);
        }
        for (pattern, with) in [("e", "E"), ("\n", ""), ("  ", " "), ("ne", "<>"), ("日本", "J")] {
            assert_eq!(replace_all(content, pattern, with), content.replace(pattern, with));
        }
    }
}

/// What the paths find in a payload, asked of the JSON library itself.
fn asked(body: &str, paths: &[&str]) -> Option<String> {
    let value: serde_json::Value = serde_json::from_str(body).ok()?;
    let mut found = Vec::new();
    for path in paths {
        let mut current = Some(&value);
        for key in path.split('/') {
            current = current.and_then(|v| {
                v.get(key).or_else(|| key.parse::<usize>().ok().and_then(|index| v.get(index)))
            });
        }
        let text = match current {
            None | Some(serde_json::Value::Null) => None,
            Some(serde_json::Value::String(s)) => Some(s.clone()),
            Some(other) => Some(other.to_string()),
        };
        found.extend(text);
    }
    if found.is_empty() {
        None
    } else {
        Some(found.join(" "))
    }
}

#[test]
fn paths_find_what_the_json_library_finds() {
    let bodies = [
        "{\"a\": {\"b\": [1, 2.5, \"three\", null, true, {\"c\": \"deep\"}]}, \"0\": \"zero\", \"\": \"empty\"}",
        "[10, [20, 21], {\"1\": \"one\", \"x\": -3e2}]",
        "\"just a string\"",
        "12345678901234567890",
        "null",
        "{\"escaped\": \"quote \\\" and \\n newline\", \"uni\": \"\\u65e5\\u672c\"}",
        "{\"dup\": 1, \"dup\": 2}",
    ];
    let paths = [
        "a", "a/b", "a/b/0", "a/b/1", "a/b/2", "a/b/3", "a/b/4", "a/b/5", "a/b/5/c", "a/b/6",
        "a/b/+1", "a/b/01", "a/b/-1", "0", "1", "2", "1/0", "2/1", "2/x", "", "a/", "/a", "x",
        "escaped", "uni", "dup",
    ];
    for body in bodies {
        for first in paths {
            for second in ["a/b/2", "nope"] {
                let keys = vec![first.to_string(), second.to_string()];
                let config = ApiConfig {
                    name: "n".to_string(),
                    url: "u".to_string(),
                    enabled: true,
                    interval_sec: 1,
                    json_keys: Some(keys),
                };
                assert_eq!(
                    fetch_and_process(&config, true, body),
                    Ok(asked(body, &[first, second])),
                    "{} in {}",
                    first,
                    body
                );
            }
        }
    }
}
