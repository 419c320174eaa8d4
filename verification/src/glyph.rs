//! Display widths of glyphs and of runs of glyphs, in terminal columns.
//!
//! Every width in this crate goes through one function, [`glyph_cols`], so a
//! run of glyphs is exactly as wide as its glyphs taken one by one.

use crate::text::chars_of;
use unicode_width::UnicodeWidthChar;
use vstd::prelude::*;

verus! {

/// What `unicode_width` reports for one glyph: its width in columns, or
/// `None` for a control character.
pub uninterp spec fn glyph_width(c: char) -> Option<usize>;

/// Columns that a glyph occupies on the line; a control character occupies none.
pub open spec fn glyph_cols(c: char) -> nat {
    match glyph_width(c) {
        Some(w) => w as nat,
        None => 0,
    }
}

/// The sum of a run of widths.
pub open spec fn sum_cols(widths: Seq<nat>) -> nat
    decreases widths.len(),
{
    if widths.len() == 0 {
        0
    } else {
        sum_cols(widths.drop_last()) + widths.last()
    }
}

/// The width of each glyph of a run.
pub open spec fn widths_of(s: Seq<char>) -> Seq<nat> {
    Seq::new(s.len(), |i: int| glyph_cols(s[i]))
}

/// Columns that a run of glyphs occupies: the sum over its glyphs.
pub open spec fn text_cols(s: Seq<char>) -> nat {
    sum_cols(widths_of(s))
}

/// Measured widths, as numbers.
pub open spec fn nats(widths: Seq<u8>) -> Seq<nat> {
    Seq::new(widths.len(), |i: int| widths[i] as nat)
}

/// Calls `unicode_width::UnicodeWidthChar::width`. Trusted: the result is the
/// crate's answer for `c`; the crate never reports more than three columns,
/// and reports exactly one for printable ASCII.
#[verifier::external_body]
fn char_width(c: char) -> (w: Option<usize>)
    ensures
        w == glyph_width(c),
        w matches Some(n) ==> n <= 3,
        ' ' <= c < '\u{7f}' ==> w == Some(1usize),
{
    UnicodeWidthChar::width(c)
}

/// Appending a width adds it to the sum.
pub proof fn lemma_sum_push(widths: Seq<nat>, width: nat)
    ensures
        sum_cols(widths.push(width)) == sum_cols(widths) + width,
{
    assert(widths.push(width).drop_last() =~= widths);
}

/// The sum of a concatenation is the sum of the sums of its parts.
pub proof fn lemma_sum_concat(a: Seq<nat>, b: Seq<nat>)
    ensures
        sum_cols(a + b) == sum_cols(a) + sum_cols(b),
    decreases b.len(),
{
    if b.len() == 0 {
        assert(a + b =~= a);
    } else {
        lemma_sum_concat(a, b.drop_last());
        assert((a + b).drop_last() =~= a + b.drop_last());
    }
}

/// One more width of a prefix adds that width.
pub proof fn lemma_sum_take_next(widths: Seq<nat>, i: int)
    requires
        0 <= i < widths.len(),
    ensures
        sum_cols(widths.take(i + 1)) == sum_cols(widths.take(i)) + widths[i],
{
    assert(widths.take(i + 1).drop_last() =~= widths.take(i));
}

/// The sums of prefixes grow with their length.
pub proof fn lemma_sum_take_monotone(widths: Seq<nat>, i: int, j: int)
    requires
        0 <= i <= j <= widths.len(),
    ensures
        sum_cols(widths.take(i)) <= sum_cols(widths.take(j)),
    decreases j - i,
{
    if i < j {
        lemma_sum_take_monotone(widths, i, j - 1);
        lemma_sum_take_next(widths, j - 1);
    }
}

/// The columns of a concatenation are the sum of the columns of its parts.
pub proof fn lemma_cols_concat(a: Seq<char>, b: Seq<char>)
    ensures
        text_cols(a + b) == text_cols(a) + text_cols(b),
{
    assert(widths_of(a + b) =~= widths_of(a) + widths_of(b));
    lemma_sum_concat(widths_of(a), widths_of(b));
}

/// Columns of one glyph, with control characters counted as zero.
pub fn glyph_columns(c: char) -> (w: u8)
    ensures
        w == glyph_cols(c),
        w <= 3,
        ' ' <= c < '\u{7f}' ==> w == 1,
{
    match char_width(c) {
        Some(w) => w as u8,
        None => 0,
    }
}

/// The width of each glyph of a run.
pub fn measure(glyphs: &Vec<char>) -> (widths: Vec<u8>)
    ensures
        nats(widths@) == widths_of(glyphs@),
        widths@.len() == glyphs@.len(),
        forall|i: int| 0 <= i < widths@.len() ==> widths@[i] <= 3,
{
    let mut widths: Vec<u8> = Vec::new();
    let mut i: usize = 0;
    while i < glyphs.len()
        invariant
            i <= glyphs@.len(),
            widths@.len() == i,
            forall|k: int| 0 <= k < i ==> widths@[k] as nat == glyph_cols(glyphs@[k]),
            forall|k: int| 0 <= k < i ==> widths@[k] <= 3,
        decreases glyphs@.len() - i,
    {
        widths.push(glyph_columns(glyphs[i]));
        i = i + 1;
    }
    assert(nats(widths@) =~= widths_of(glyphs@));
    widths
}

/// The sum of the first `count` measured widths. It is exact: the sum of
/// as many bytes as a vector holds cannot leave a `u128`.
pub fn sum_prefix(widths: &Vec<u8>, count: usize) -> (sum: u128)
    requires
        count <= widths@.len(),
    ensures
        sum == sum_cols(nats(widths@).take(count as int)),
        sum <= 255 * count <= 255 * usize::MAX,
{
    let mut sum: u128 = 0;
    let mut i: usize = 0;
    let ghost all = nats(widths@);
    while i < count
        invariant
            i <= count <= widths@.len(),
            all == nats(widths@),
            sum == sum_cols(all.take(i as int)),
            sum <= 255 * i,
        decreases count - i,
    {
        proof {
            lemma_sum_take_next(all, i as int);
        }
        sum = sum + widths[i] as u128;
        i = i + 1;
    }
    sum
}

/// The sum of measured widths.
pub fn sum_widths(widths: &Vec<u8>) -> (sum: u128)
    ensures
        sum == sum_cols(nats(widths@)),
        sum <= 255 * widths@.len() <= 255 * usize::MAX,
{
    assert(nats(widths@).take(widths@.len() as int) =~= nats(widths@));
    sum_prefix(widths, widths.len())
}

/// Columns of a run of glyphs.
pub fn run_columns(glyphs: &Vec<char>) -> (w: u128)
    ensures
        w == text_cols(glyphs@),
        w <= 255 * usize::MAX,
{
    let widths = measure(glyphs);
    sum_widths(&widths)
}

/// Display width of a string in terminal columns.
pub fn display_width(text: &str) -> (w: u128)
    ensures
        w == text_cols(text@),
        w <= 255 * usize::MAX,
{
    let glyphs = chars_of(text);
    run_columns(&glyphs)
}

} // verus!
