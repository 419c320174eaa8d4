//! The marquee renderer: a column-exact window into the endlessly repeating
//! strip made of the content and a spacer.
//!
//! The window is cut by columns alone: [`cut_window`] takes the glyphs of
//! the strip together with their widths, and knows nothing of where the
//! widths come from.

use crate::glyph::{
    display_width, glyph_columns, lemma_cols_concat, lemma_sum_push, lemma_sum_take_monotone,
    lemma_sum_take_next, measure, nats, run_columns, sum_cols, sum_prefix, sum_widths, text_cols,
    widths_of,
};
use crate::text::{chars_of, string_of};
use vstd::prelude::*;
use vstd::string::StringExecFns;

verus! {

/// The spacer that separates the end of the content from its next repetition.
pub open spec fn spacer() -> Seq<char> {
    seq![' ', ' ', ' ', '*', '*', '*', ' ', ' ', ' ']
}

/// One period of the strip that scrolls by: the content, then the spacer.
pub open spec fn strip_of(content: Seq<char>) -> Seq<char> {
    content + spacer()
}

/// `len` consecutive items of the endlessly repeated strip, from its item `start`.
pub open spec fn cyclic_run<T>(strip: Seq<T>, start: int, len: nat) -> Seq<T> {
    Seq::new(len, |i: int| strip[(start + i) % (strip.len() as int)])
}

/// Glyph `start` of a strip with these widths is the one under column
/// `col`: the glyphs before it end at or before that column, and it reaches
/// beyond it.
pub open spec fn glyph_at_column(widths: Seq<nat>, start: int, col: nat) -> bool {
    &&& 0 <= start < widths.len()
    &&& sum_cols(widths.take(start)) <= col < sum_cols(widths.take(start + 1))
}

/// `len` glyphs from `start` are the shortest run that fills `avail` columns.
pub open spec fn fills(widths: Seq<nat>, start: int, len: nat, avail: nat) -> bool {
    &&& sum_cols(cyclic_run(widths, start, len)) >= avail
    &&& len > 0 ==> sum_cols(cyclic_run(widths, start, (len - 1) as nat)) < avail
}

/// `w` is the window of `avail` columns that starts at column `col` of the
/// strip of `glyphs`, whose widths are `widths`: it begins with the glyph
/// under that column and is the shortest run from there that fills the columns.
pub open spec fn window_on<T>(
    glyphs: Seq<T>,
    widths: Seq<nat>,
    col: nat,
    avail: nat,
    w: Seq<T>,
) -> bool {
    &&& glyphs.len() == widths.len()
    &&& exists|start: int|
        glyph_at_column(widths, start, col) && w == cyclic_run(glyphs, start, w.len())
            && #[trigger] fills(widths, start, w.len(), avail)
}

/// `shown` is what a line of `avail` columns shows of a body at scroll
/// offset `offset`. The strip is the body, which is its first `body_len`
/// glyphs, and the spacer. A body that fits the line is shown whole;
/// of one that does not, the window into the strip is shown.
pub open spec fn laid_out<T>(
    strip: Seq<T>,
    widths: Seq<nat>,
    body_len: int,
    avail: nat,
    offset: nat,
    shown: Seq<T>,
) -> bool {
    if sum_cols(widths.take(body_len)) <= avail {
        shown == strip.take(body_len)
    } else {
        window_on(strip, widths, offset % sum_cols(widths), avail, shown)
    }
}

/// `w` is the window of `avail` columns that starts at column `col` of the strip.
pub open spec fn is_window(strip: Seq<char>, col: nat, avail: nat, w: Seq<char>) -> bool {
    window_on(strip, widths_of(strip), col, avail, w)
}

/// The window of `avail` columns that starts at column `col` of the strip.
pub open spec fn window_at(strip: Seq<char>, col: nat, avail: nat) -> Seq<char> {
    choose|w: Seq<char>| is_window(strip, col, avail, w)
}

/// The window shown at scroll offset `offset`: only the offset's remainder
/// by the width of the strip counts.
pub open spec fn scroll_window(strip: Seq<char>, offset: nat, avail: nat) -> Seq<char> {
    window_at(strip, offset % text_cols(strip), avail)
}

/// What the line shows: a fixed prefix, then the body, whole where it fits in
/// the columns that the prefix leaves, scrolling where it does not.
pub open spec fn ticker_text(prefix: Seq<char>, body: Seq<char>, width: nat, offset: nat) -> Seq<
    char,
> {
    let avail = if width >= text_cols(prefix) {
        (width - text_cols(prefix)) as nat
    } else {
        0
    };
    if text_cols(body) <= avail {
        prefix + body
    } else {
        prefix + scroll_window(strip_of(body), offset, avail)
    }
}

proof fn lemma_run_prefix(widths: Seq<nat>, start: int, a: nat, b: nat)
    requires
        a <= b,
    ensures
        sum_cols(cyclic_run(widths, start, a)) <= sum_cols(cyclic_run(widths, start, b)),
{
    assert(cyclic_run(widths, start, b).take(a as int) =~= cyclic_run(widths, start, a));
    assert(cyclic_run(widths, start, b).take(b as int) =~= cyclic_run(widths, start, b));
    lemma_sum_take_monotone(cyclic_run(widths, start, b), a as int, b as int);
}

proof fn lemma_run_widths(strip: Seq<char>, start: int, len: nat)
    requires
        strip.len() > 0,
    ensures
        widths_of(cyclic_run(strip, start, len)) == cyclic_run(widths_of(strip), start, len),
{
    let of_run = widths_of(cyclic_run(strip, start, len));
    let run_of = cyclic_run(widths_of(strip), start, len);
    assert forall|i: int| 0 <= i < len implies #[trigger] of_run[i] == run_of[i] by {
        vstd::arithmetic::div_mod::lemma_mod_bound(start + i, strip.len() as int);
    }
    assert(of_run =~= run_of);
}

/// At most one glyph of a strip lies under a given column.
pub proof fn lemma_start_unique(widths: Seq<nat>, col: nat, a: int, b: int)
    requires
        glyph_at_column(widths, a, col),
        glyph_at_column(widths, b, col),
    ensures
        a == b,
{
    if a < b {
        lemma_sum_take_monotone(widths, a + 1, b);
    } else if b < a {
        lemma_sum_take_monotone(widths, b + 1, a);
    }
}

/// A strip has at most one window for given column and width.
pub proof fn lemma_window_unique<T>(
    glyphs: Seq<T>,
    widths: Seq<nat>,
    col: nat,
    avail: nat,
    a: Seq<T>,
    b: Seq<T>,
)
    requires
        window_on(glyphs, widths, col, avail, a),
        window_on(glyphs, widths, col, avail, b),
    ensures
        a == b,
{
    let sa = choose|start: int|
        glyph_at_column(widths, start, col) && a == cyclic_run(glyphs, start, a.len())
            && #[trigger] fills(widths, start, a.len(), avail);
    let sb = choose|start: int|
        glyph_at_column(widths, start, col) && b == cyclic_run(glyphs, start, b.len())
            && #[trigger] fills(widths, start, b.len(), avail);
    lemma_start_unique(widths, col, sa, sb);
    if a.len() < b.len() {
        lemma_run_prefix(widths, sa, a.len(), (b.len() - 1) as nat);
    } else if b.len() < a.len() {
        lemma_run_prefix(widths, sa, b.len(), (a.len() - 1) as nat);
    }
}

proof fn lemma_start_exists(widths: Seq<nat>, col: nat, end: int)
    requires
        0 <= end <= widths.len(),
        col < sum_cols(widths.take(end)),
    ensures
        exists|start: int| glyph_at_column(widths, start, col),
    decreases end,
{
    if end == 0 {
        assert(sum_cols(widths.take(0)) == 0);
    } else if sum_cols(widths.take(end - 1)) <= col {
        assert(glyph_at_column(widths, end - 1, col));
    } else {
        lemma_start_exists(widths, col, end - 1);
    }
}

proof fn lemma_rounds_add_columns(widths: Seq<nat>, start: int, rounds: nat)
    requires
        0 <= start < widths.len(),
        widths[start] > 0,
    ensures
        sum_cols(cyclic_run(widths, start, rounds * widths.len())) >= rounds,
    decreases rounds,
{
    let n = widths.len();
    if rounds == 0 {
        assert(rounds * n == 0) by (nonlinear_arith)
            requires
                rounds == 0,
        ;
    } else {
        let before = ((rounds - 1) * n) as nat;
        lemma_rounds_add_columns(widths, start, (rounds - 1) as nat);
        assert(rounds * n == before + n) by (nonlinear_arith)
            requires
                before == (rounds - 1) * n,
        ;
        vstd::arithmetic::div_mod::lemma_mod_multiples_vanish(rounds - 1, start, n as int);
        vstd::arithmetic::div_mod::lemma_small_mod(start as nat, n);
        assert(n * (rounds - 1) + start == start + before) by (nonlinear_arith)
            requires
                before == (rounds - 1) * n,
        ;
        assert(cyclic_run(widths, start, before + 1) =~= cyclic_run(widths, start, before).push(
            widths[start],
        ));
        lemma_sum_push(cyclic_run(widths, start, before), widths[start]);
        lemma_run_prefix(widths, start, before + 1, before + n);
    }
}

proof fn lemma_length_exists(widths: Seq<nat>, start: int, avail: nat, end: nat)
    requires
        sum_cols(cyclic_run(widths, start, end)) >= avail,
    ensures
        exists|len: nat| #[trigger] fills(widths, start, len, avail),
    decreases end,
{
    if end == 0 || sum_cols(cyclic_run(widths, start, (end - 1) as nat)) < avail {
        assert(fills(widths, start, end, avail));
    } else {
        lemma_length_exists(widths, start, avail, (end - 1) as nat);
    }
}

/// Every column of a strip begins a window of every width.
pub proof fn lemma_window_on_exists<T>(glyphs: Seq<T>, widths: Seq<nat>, col: nat, avail: nat)
    requires
        glyphs.len() == widths.len(),
        col < sum_cols(widths),
    ensures
        exists|w: Seq<T>| window_on(glyphs, widths, col, avail, w),
{
    assert(widths.take(widths.len() as int) =~= widths);
    lemma_start_exists(widths, col, widths.len() as int);
    let start = choose|start: int| glyph_at_column(widths, start, col);
    lemma_sum_take_next(widths, start);
    lemma_rounds_add_columns(widths, start, avail);
    lemma_length_exists(widths, start, avail, avail * widths.len());
    let len = choose|len: nat| #[trigger] fills(widths, start, len, avail);
    let w = cyclic_run(glyphs, start, len);
    assert(cyclic_run(glyphs, start, w.len()) =~= w);
    assert(window_on(glyphs, widths, col, avail, w));
}

/// A window is never narrower than the columns asked for, and without its
/// last glyph it would be.
pub proof fn lemma_window_fills(strip: Seq<char>, col: nat, avail: nat, w: Seq<char>)
    requires
        is_window(strip, col, avail, w),
    ensures
        text_cols(w) >= avail,
        w.len() > 0 ==> text_cols(w.drop_last()) < avail,
        avail == 0 ==> w.len() == 0,
{
    let widths = widths_of(strip);
    let start = choose|start: int|
        glyph_at_column(widths, start, col) && w == cyclic_run(strip, start, w.len())
            && #[trigger] fills(widths, start, w.len(), avail);
    lemma_run_widths(strip, start, w.len());
    if w.len() > 0 {
        lemma_run_widths(strip, start, (w.len() - 1) as nat);
        assert(cyclic_run(strip, start, (w.len() - 1) as nat) =~= w.drop_last());
    }
}

/// The window that the scroll offset picks is a window indeed: it fills the
/// columns asked for, and is empty where none are asked for.
pub proof fn lemma_window_exists(strip: Seq<char>, offset: nat, avail: nat)
    requires
        text_cols(strip) > 0,
    ensures
        is_window(
            strip,
            offset % text_cols(strip),
            avail,
            scroll_window(strip, offset, avail),
        ),
        text_cols(scroll_window(strip, offset, avail)) >= avail,
        avail == 0 ==> scroll_window(strip, offset, avail).len() == 0,
{
    let col = offset % text_cols(strip);
    vstd::arithmetic::div_mod::lemma_mod_bound(offset as int, text_cols(strip) as int);
    lemma_window_on_exists(strip, widths_of(strip), col, avail);
    let found = choose|w: Seq<char>| window_on(strip, widths_of(strip), col, avail, w);
    assert(is_window(strip, col, avail, found));
    lemma_window_fills(strip, col, avail, scroll_window(strip, offset, avail));
}

/// Offsets with the same remainder by the strip's width show the same
/// window: however far the offset has grown, only the column counts.
pub proof fn lemma_window_wraps(strip: Seq<char>, a: nat, b: nat, avail: nat)
    requires
        a % text_cols(strip) == b % text_cols(strip),
    ensures
        scroll_window(strip, a, avail) == scroll_window(strip, b, avail),
{
}

/// The window comes back after every full width of the strip.
pub proof fn lemma_window_period(strip: Seq<char>, offset: nat, rounds: nat, avail: nat)
    requires
        text_cols(strip) > 0,
    ensures
        scroll_window(strip, offset + rounds * text_cols(strip), avail) == scroll_window(
            strip,
            offset,
            avail,
        ),
{
    let period = text_cols(strip) as int;
    vstd::arithmetic::div_mod::lemma_mod_multiples_vanish(rounds as int, offset as int, period);
    assert(period * rounds + offset == offset + rounds * period) by (nonlinear_arith);
}

/// One more column of offset starts the window one column further along
/// the strip, and at its first column again after the last.
pub proof fn lemma_window_shifts(strip: Seq<char>, offset: nat, avail: nat)
    requires
        text_cols(strip) > 0,
    ensures
        scroll_window(strip, offset + 1, avail) == window_at(
            strip,
            if offset % text_cols(strip) + 1 == text_cols(strip) {
                0
            } else {
                offset % text_cols(strip) + 1
            },
            avail,
        ),
{
    lemma_next_index(offset as int, text_cols(strip) as int);
}

/// A body that fits in the columns that the prefix leaves is shown whole
/// behind the prefix, whatever the offset.
pub proof fn lemma_fitting_body_is_whole(
    prefix: Seq<char>,
    body: Seq<char>,
    width: nat,
    offset: nat,
)
    requires
        text_cols(prefix) + text_cols(body) <= width,
    ensures
        ticker_text(prefix, body, width, offset) == prefix + body,
        ticker_text(Seq::empty(), body, width, offset) == body,
{
    assert(widths_of(Seq::<char>::empty()) =~= Seq::<nat>::empty());
    assert(Seq::<char>::empty() + body =~= body);
}

/// Offsets with the same remainder by the strip's width show the same line.
pub proof fn lemma_ticker_wraps(prefix: Seq<char>, body: Seq<char>, width: nat, a: nat, b: nat)
    requires
        a % text_cols(strip_of(body)) == b % text_cols(strip_of(body)),
    ensures
        ticker_text(prefix, body, width, a) == ticker_text(prefix, body, width, b),
{
}

proof fn lemma_next_index(k: int, n: int)
    requires
        n > 0,
    ensures
        (k + 1) % n == if k % n + 1 == n {
            0
        } else {
            k % n + 1
        },
{
    vstd::arithmetic::div_mod::lemma_fundamental_div_mod(k, n);
    vstd::arithmetic::div_mod::lemma_mod_bound(k, n);
    if k % n + 1 == n {
        assert(k + 1 == n * (k / n + 1)) by (nonlinear_arith)
            requires
                k == n * (k / n) + k % n,
                k % n + 1 == n,
        ;
        vstd::arithmetic::div_mod::lemma_mod_multiples_basic(k / n + 1, n);
        assert((k / n + 1) * n == n * (k / n + 1)) by (nonlinear_arith);
    } else {
        assert(k + 1 == (k / n) * n + (k % n + 1)) by (nonlinear_arith)
            requires
                k == n * (k / n) + k % n,
        ;
        vstd::arithmetic::div_mod::lemma_fundamental_div_mod_converse(
            k + 1,
            n,
            k / n,
            k % n + 1,
        );
    }
}

/// Cuts the window of `avail` columns out of the strip of `glyphs`, whose
/// widths are `widths`, at scroll offset `offset`: it starts with the glyph
/// under the offset's column and goes on, round the strip as often as
/// needed, until the columns are filled.
pub fn cut_window(
    glyphs: &Vec<char>,
    widths: &Vec<u8>,
    offset: usize,
    avail: usize,
) -> (window: Vec<char>)
    requires
        glyphs@.len() == widths@.len(),
        sum_cols(nats(widths@)) > 0,
    ensures
        window_on(
            glyphs@,
            nats(widths@),
            (offset as nat) % sum_cols(nats(widths@)),
            avail as nat,
            window@,
        ),
{
    let ghost cols = nats(widths@);
    let n = widths.len();
    let total = sum_widths(widths);
    let col = (offset as u128) % total;
    proof {
        vstd::arithmetic::div_mod::lemma_mod_decreases(offset as nat, total as nat);
    }
    assert(cols.take(n as int) =~= cols);
    let mut start: usize = 0;
    let mut skipped: u128 = 0;
    assert(n > 0);
    loop
        invariant_except_break
            n == widths@.len(),
            cols == nats(widths@),
            start < n,
            skipped == sum_cols(cols.take(start as int)),
            skipped <= col <= usize::MAX,
            col < sum_cols(cols.take(n as int)),
        ensures
            start < n,
            n == widths@.len(),
            cols == nats(widths@),
            glyph_at_column(cols, start as int, col as nat),
        decreases n - start,
    {
        let w = widths[start] as u128;
        proof {
            lemma_sum_take_next(cols, start as int);
        }
        if skipped + w > col {
            break;
        }
        skipped = skipped + w;
        start = start + 1;
    }
    proof {
        lemma_sum_take_next(cols, start as int);
        vstd::arithmetic::div_mod::lemma_small_mod(start as nat, n as nat);
    }
    let mut window: Vec<char> = Vec::new();
    let mut next: usize = start;
    let mut shown: u128 = 0;
    while shown < avail as u128
        invariant
            n == widths@.len() == glyphs@.len(),
            cols == nats(widths@),
            start < n,
            next < n,
            next == (start + window@.len()) % (n as int),
            window@ == cyclic_run(glyphs@, start as int, window@.len()),
            shown == sum_cols(cyclic_run(cols, start as int, window@.len())),
            window@.len() > 0 ==> sum_cols(
                cyclic_run(cols, start as int, (window@.len() - 1) as nat),
            ) < avail,
            cols[start as int] > 0,
        decreases
                (if shown < avail {
                    avail - shown
                } else {
                    0
                }),
                (if next <= start {
                    start - next
                } else {
                    n - next + start
                }),
    {
        let c = glyphs[next];
        let w = widths[next];
        proof {
            let len = window@.len();
            lemma_sum_push(cyclic_run(cols, start as int, len), w as nat);
            lemma_next_index(start + len, n as int);
            assert(cyclic_run(glyphs@, start as int, len + 1) =~= window@.push(c));
            assert(cyclic_run(cols, start as int, len + 1) =~= cyclic_run(
                cols,
                start as int,
                len,
            ).push(w as nat));
        }
        window.push(c);
        shown = shown + w as u128;
        next = if next + 1 == n {
            0
        } else {
            next + 1
        };
    }
    assert(fills(cols, start as int, window@.len(), avail as nat));
    window
}

/// Lays a body out in a line of `avail` columns, at scroll offset `offset`.
/// The strip is given by its glyphs and their widths; its first `body_len`
/// glyphs are the body. A body that fits the line is shown whole; of one
/// that does not, the window into the strip is shown.
pub fn lay_out(
    strip: &Vec<char>,
    widths: &Vec<u8>,
    body_len: usize,
    offset: usize,
    avail: usize,
) -> (shown: Vec<char>)
    requires
        body_len <= strip@.len() == widths@.len(),
    ensures
        laid_out(strip@, nats(widths@), body_len as int, avail as nat, offset as nat, shown@),
{
    let body_cols = sum_prefix(widths, body_len);
    if body_cols <= avail as u128 {
        let mut shown: Vec<char> = Vec::new();
        let mut i: usize = 0;
        while i < body_len
            invariant
                i <= body_len <= strip@.len(),
                shown@ == strip@.take(i as int),
            decreases body_len - i,
        {
            shown.push(strip[i]);
            i = i + 1;
            assert(shown@ =~= strip@.take(i as int));
        }
        shown
    } else {
        proof {
            let cols = nats(widths@);
            assert(cols.take(cols.len() as int) =~= cols);
            lemma_sum_take_monotone(cols, body_len as int, cols.len() as int);
        }
        cut_window(strip, widths, offset, avail)
    }
}

/// Appends the spacer to a run of glyphs and reports its columns.
fn push_spacer(glyphs: &mut Vec<char>) -> (cols: u128)
    ensures
        final(glyphs)@ == strip_of(old(glyphs)@),
        cols == text_cols(spacer()),
        cols == 9,
{
    let blank = glyph_columns(' ') as u128;
    let star = glyph_columns('*') as u128;
    proof {
        let s = widths_of(spacer());
        lemma_sum_take_next(s, 0);
        lemma_sum_take_next(s, 1);
        lemma_sum_take_next(s, 2);
        lemma_sum_take_next(s, 3);
        lemma_sum_take_next(s, 4);
        lemma_sum_take_next(s, 5);
        lemma_sum_take_next(s, 6);
        lemma_sum_take_next(s, 7);
        lemma_sum_take_next(s, 8);
        assert(s.take(9) =~= s);
        assert(sum_cols(s.take(0)) == 0);
    }
    glyphs.push(' ');
    glyphs.push(' ');
    glyphs.push(' ');
    glyphs.push('*');
    glyphs.push('*');
    glyphs.push('*');
    glyphs.push(' ');
    glyphs.push(' ');
    glyphs.push(' ');
    assert(glyphs@ =~= strip_of(old(glyphs)@));
    3 * blank + 3 * star + 3 * blank
}

/// The window of a strip whose glyphs are given, as a string.
fn strip_window(strip: &Vec<char>, offset: usize, avail: usize) -> (out: String)
    requires
        text_cols(strip@) > 0,
    ensures
        out@ == scroll_window(strip@, offset as nat, avail as nat),
        is_window(strip@, (offset as nat) % text_cols(strip@), avail as nat, out@),
{
    let widths = measure(strip);
    let window = cut_window(strip, &widths, offset, avail);
    proof {
        let col = (offset as nat) % text_cols(strip@);
        assert(is_window(strip@, col, avail as nat, window@));
        lemma_window_unique(
            strip@,
            widths_of(strip@),
            col,
            avail as nat,
            window@,
            scroll_window(strip@, offset as nat, avail as nat),
        );
        assert(window@.subrange(0, window@.len() as int) =~= window@);
    }
    string_of(&window, 0, window.len())
}

/// The window of `avail` columns into the strip of `content`, at scroll
/// offset `offset`. An `avail` of zero gives the empty window.
pub fn marquee_window(content: &str, offset: usize, avail: usize) -> (out: String)
    ensures
        out@ == scroll_window(strip_of(content@), offset as nat, avail as nat),
        is_window(
            strip_of(content@),
            (offset as nat) % text_cols(strip_of(content@)),
            avail as nat,
            out@,
        ),
        text_cols(strip_of(content@)) == text_cols(content@) + 9,
{
    let mut strip = chars_of(content);
    push_spacer(&mut strip);
    proof {
        lemma_cols_concat(content@, spacer());
    }
    strip_window(&strip, offset, avail)
}

/// Renders one line: `prefix` stands still; `body` follows it, whole where it
/// fits in the columns left over and as a scrolling window where it does not.
pub fn ticker_line(prefix: &str, body: &str, width: usize, offset: usize) -> (line: String)
    ensures
        line@ == ticker_text(prefix@, body@, width as nat, offset as nat),
{
    let prefix_cols = display_width(prefix);
    let avail: usize = if width as u128 >= prefix_cols {
        (width as u128 - prefix_cols) as usize
    } else {
        0
    };
    let mut strip = chars_of(body);
    let body_len = strip.len();
    push_spacer(&mut strip);
    let widths = measure(&strip);
    let shown = lay_out(&strip, &widths, body_len, offset, avail);
    proof {
        let col = (offset as nat) % text_cols(strip@);
        assert(strip@.take(body_len as int) =~= body@);
        assert(widths_of(strip@).take(body_len as int) =~= widths_of(body@));
        if text_cols(body@) > avail {
            assert(is_window(strip@, col, avail as nat, shown@));
            lemma_window_unique(
                strip@,
                widths_of(strip@),
                col,
                avail as nat,
                shown@,
                scroll_window(strip@, offset as nat, avail as nat),
            );
        }
        assert(shown@.subrange(0, shown@.len() as int) =~= shown@);
    }
    let mut line = prefix.to_owned();
    line.append(string_of(&shown, 0, shown.len()).as_str());
    line
}

/// Columns of one period of the strip of `content`: its own and the nine of
/// the spacer.
pub fn strip_columns(content: &str) -> (w: u128)
    ensures
        w == text_cols(strip_of(content@)),
        w == text_cols(content@) + 9,
{
    let mut strip = chars_of(content);
    let body_cols = run_columns(&strip);
    let spacer_cols = push_spacer(&mut strip);
    proof {
        lemma_cols_concat(content@, spacer());
    }
    body_cols + spacer_cols
}

} // verus!
