use infotube::glyph::{display_width, glyph_columns};
use infotube::marquee::{marquee_window, strip_columns, ticker_line};

const TWENTY: &str = "ABCDEFGHIJKLMNOPQRST";

#[test]
fn ascii_text_is_as_wide_as_it_is_long() {
    assert_eq!(display_width("AB"), 2);
    assert_eq!(display_width(""), 0);
    assert_eq!(display_width("   ***   "), 9);
}

#[test]
fn wide_and_combining_glyphs_are_counted_by_columns() {
    assert_eq!(display_width("日本"), 4);
    assert_eq!(display_width("e\u{301}"), 1);
    assert_eq!(glyph_columns('日'), 2);
    assert_eq!(glyph_columns('\u{301}'), 0);
    assert_eq!(glyph_columns('a'), 1);
}

#[test]
fn control_characters_take_no_column() {
    assert_eq!(glyph_columns('\n'), 0);
    assert_eq!(glyph_columns('\u{7f}'), 0);
    assert_eq!(display_width("a\nb"), 2);
    assert_eq!(display_width("\r\n"), 0);
}

#[test]
fn widest_glyph_takes_three_columns() {
    assert_eq!(glyph_columns('\u{17d8}'), 3);
}

#[test]
fn strip_is_nine_columns_wider_than_its_content() {
    assert_eq!(strip_columns(""), 9);
    assert_eq!(strip_columns(TWENTY), 29);
    assert_eq!(strip_columns("日本"), 13);
}

#[test]
fn short_text_is_shown_whole_at_any_offset() {
    assert_eq!(ticker_line("", "AB", 10, 0), "AB");
    assert_eq!(ticker_line("", "AB", 10, 7), "AB");
    assert_eq!(ticker_line("", "AB", 2, 12345), "AB");
    assert_eq!(ticker_line("", "AB", 10, usize::MAX), "AB");
}

#[test]
fn text_as_wide_as_the_line_does_not_scroll() {
    assert_eq!(ticker_line("", TWENTY, 20, 3), TWENTY);
    assert_eq!(ticker_line("", TWENTY, 19, 0), "ABCDEFGHIJKLMNOPQRS");
}

#[test]
fn window_moves_one_column_per_offset() {
    assert_eq!(marquee_window(TWENTY, 0, 10), "ABCDEFGHIJ");
    assert_eq!(marquee_window(TWENTY, 1, 10), "BCDEFGHIJK");
    assert_eq!(marquee_window(TWENTY, 15, 10), "PQRST   **");
    assert_eq!(marquee_window(TWENTY, 25, 10), "*   ABCDEF");
    assert_eq!(marquee_window(TWENTY, 28, 10), " ABCDEFGHI");
}

#[test]
fn window_returns_after_the_width_of_the_strip() {
    for offset in 0..29usize {
        let first = marquee_window(TWENTY, offset, 10);
        assert_eq!(display_width(&first), 10);
        assert_eq!(marquee_window(TWENTY, offset + 29, 10), first);
        assert_eq!(marquee_window(TWENTY, offset + 29 * 1000, 10), first);
    }
    assert_ne!(marquee_window(TWENTY, 0, 10), marquee_window(TWENTY, 28, 10));
}

#[test]
fn window_at_the_largest_offset_is_that_of_its_remainder() {
    let column = usize::MAX % 29;
    assert_eq!(marquee_window(TWENTY, usize::MAX, 10), marquee_window(TWENTY, column, 10));
}

#[test]
fn window_wider_than_the_strip_repeats_it() {
    assert_eq!(marquee_window("AB", 0, 24), "AB   ***   AB   ***   AB");
    assert_eq!(marquee_window("", 3, 12), "***      ***");
}

#[test]
fn window_of_no_columns_is_empty() {
    assert_eq!(marquee_window(TWENTY, 0, 0), "");
    assert_eq!(marquee_window(TWENTY, 17, 0), "");
    assert_eq!(ticker_line("", TWENTY, 0, 5), "");
    assert_eq!(ticker_line("", "", 0, 5), "");
}

#[test]
fn wide_glyph_is_never_cut() {
    // strip: 日 本 語 and the spacer, 15 columns
    assert_eq!(marquee_window("日本語", 0, 4), "日本");
    // column 1 lies inside the first glyph, which is shown whole
    assert_eq!(marquee_window("日本語", 1, 4), "日本");
    assert_eq!(marquee_window("日本語", 2, 4), "本語");
    // three columns are reached only by going one beyond
    assert_eq!(marquee_window("日本語", 0, 3), "日本");
    assert_eq!(display_width(&marquee_window("日本語", 0, 3)), 4);
}

#[test]
fn glyphs_without_width_do_not_shift_the_columns() {
    // e + combining acute: one column, two glyphs
    let text = "e\u{301}bcdefghij";
    assert_eq!(display_width(text), 10);
    assert_eq!(marquee_window(text, 0, 3), "e\u{301}bc");
    assert_eq!(marquee_window(text, 1, 3), "bcd");
    // a window ends as soon as it is full
    assert_eq!(marquee_window("ab\u{301}cdefghij", 0, 2), "ab");
    // glyphs without width at the head of the strip are passed over
    assert_eq!(marquee_window("\u{301}abcdefghij", 0, 3), "abc");
}

#[test]
fn prefix_stands_still_and_takes_its_columns() {
    assert_eq!(ticker_line("(9s)  ", "ALERT X", 40, 0), "(9s)  ALERT X");
    assert_eq!(ticker_line("(9s)  ", "ALERT X", 13, 4), "(9s)  ALERT X");
    assert_eq!(ticker_line("(9s)  ", "ALERT X", 12, 0), "(9s)  ALERT ");
    assert_eq!(ticker_line("(9s)  ", "ALERT X", 12, 1), "(9s)  LERT X");
    assert_eq!(ticker_line("(9s)  ", "ALERT X", 12, 16), "(9s)  ALERT ");
}

#[test]
fn prefix_wider_than_the_line_leaves_no_window() {
    assert_eq!(ticker_line("(9s)  ", "ALERT X", 6, 0), "(9s)  ");
    assert_eq!(ticker_line("(9s)  ", "ALERT X", 3, 2), "(9s)  ");
    assert_eq!(ticker_line("(9s)  ", "", 3, 2), "(9s)  ");
}
