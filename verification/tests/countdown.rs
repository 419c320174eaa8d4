use infotube::countdown::{countdown_prefix, push_decimal};
use infotube::glyph::run_columns;
use infotube::text::{chars_of, push_joined, string_of, trimmed_part};

fn decimal(n: usize) -> String {
    let mut out = String::new();
    push_decimal(&mut out, n);
    out
}

#[test]
fn numbers_are_written_without_leading_zeros() {
    assert_eq!(decimal(0), "0");
    assert_eq!(decimal(7), "7");
    assert_eq!(decimal(10), "10");
    assert_eq!(decimal(1234567890), "1234567890");
    assert_eq!(decimal(usize::MAX), usize::MAX.to_string());
}

#[test]
fn number_is_put_behind_what_is_there() {
    let mut out = String::from("n = ");
    push_decimal(&mut out, 42);
    assert_eq!(out, "n = 42");
}

#[test]
fn countdown_rounds_seconds_up() {
    assert_eq!(countdown_prefix(0), "(0s)  ");
    assert_eq!(countdown_prefix(1), "(1s)  ");
    assert_eq!(countdown_prefix(999), "(1s)  ");
    assert_eq!(countdown_prefix(1000), "(1s)  ");
    assert_eq!(countdown_prefix(1001), "(2s)  ");
    assert_eq!(countdown_prefix(9000), "(9s)  ");
    assert_eq!(countdown_prefix(9001), "(10s)  ");
    assert_eq!(countdown_prefix(usize::MAX), format!("({}s)  ", usize::MAX / 1000 + 1));
}

#[test]
fn glyphs_of_a_string_come_in_order() {
    assert_eq!(chars_of("aé日"), vec!['a', 'é', '日']);
    assert_eq!(chars_of(""), Vec::<char>::new());
}

#[test]
fn columns_of_a_run_are_the_sum_of_its_glyphs() {
    assert_eq!(run_columns(&vec!['a', '日', '\u{301}', '\n', '\u{17d8}']), 6);
    assert_eq!(run_columns(&Vec::new()), 0);
}

#[test]
fn part_of_a_run_as_a_string() {
    let glyphs = chars_of("  hello  ");
    assert_eq!(string_of(&glyphs, 2, 7), "hello");
    assert_eq!(string_of(&glyphs, 3, 3), "");
    assert_eq!(string_of(&glyphs, 0, 9), "  hello  ");
    assert_eq!(trimmed_part(&glyphs, 0, 9), "hello");
    assert_eq!(trimmed_part(&glyphs, 0, 2), "");
    assert_eq!(trimmed_part(&glyphs, 1, 5), "hel");
}

#[test]
fn separator_stands_only_between_parts() {
    let mut out = String::new();
    push_joined(&mut out, "", ", ");
    assert_eq!(out, "");
    push_joined(&mut out, "a", ", ");
    assert_eq!(out, "a");
    push_joined(&mut out, "", ", ");
    assert_eq!(out, "a");
    push_joined(&mut out, "b", ", ");
    assert_eq!(out, "a, b");
}
