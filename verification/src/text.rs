//! Plain work on texts: trimming white space, splitting at a separator,
//! joining parts.

use vstd::prelude::*;
use vstd::string::StringExecFns;

verus! {

/// The glyphs of a string, in order.
pub fn chars_of(s: &str) -> (v: Vec<char>)
    ensures
        v@ == s@,
{
    broadcast use vstd::string::group_string_axioms;

    let mut v: Vec<char> = Vec::new();
    let chars = s.chars();
    for c in it: chars
        invariant
            it.seq() == s@,
            v@ == it.seq().take(it.index()),
    {
        v.push(c);
    }
    v
}

/// `String::push` appends one character to the string.
pub assume_specification[ std::string::String::push ](s: &mut std::string::String, ch: char)
    ensures
        final(s)@ == old(s)@.push(ch),
;

/// The texts that a list of strings holds.
pub open spec fn views_of(contents: Seq<String>) -> Seq<Seq<char>> {
    Seq::new(contents.len(), |i: int| contents[i]@)
}

/// Whether a character is white space: one of the characters to which
/// Unicode gives that name, which are those that `char::is_whitespace` knows.
pub open spec fn is_whitespace(c: char) -> bool {
    let code = c as u32;
    ||| 0x09 <= code <= 0x0d
    ||| code == 0x20
    ||| code == 0x85
    ||| code == 0xa0
    ||| code == 0x1680
    ||| 0x2000 <= code <= 0x200a
    ||| code == 0x2028
    ||| code == 0x2029
    ||| code == 0x202f
    ||| code == 0x205f
    ||| code == 0x3000
}

/// Whether a character is white space.
pub fn is_blank(c: char) -> (blank: bool)
    ensures
        blank == is_whitespace(c),
{
    let code = c as u32;
    (0x09 <= code && code <= 0x0d) || code == 0x20 || code == 0x85 || code == 0xa0 || code
        == 0x1680 || (0x2000 <= code && code <= 0x200a) || code == 0x2028 || code == 0x2029
        || code == 0x202f || code == 0x205f || code == 0x3000
}

/// A run of glyphs without the white space at its head.
pub open spec fn trim_start(s: Seq<char>) -> Seq<char>
    decreases s.len(),
{
    if s.len() > 0 && is_whitespace(s[0]) {
        trim_start(s.drop_first())
    } else {
        s
    }
}

/// A run of glyphs without the white space at its end.
pub open spec fn trim_end(s: Seq<char>) -> Seq<char>
    decreases s.len(),
{
    if s.len() > 0 && is_whitespace(s.last()) {
        trim_end(s.drop_last())
    } else {
        s
    }
}

/// A run of glyphs without the white space at either end.
pub open spec fn trimmed(s: Seq<char>) -> Seq<char> {
    trim_end(trim_start(s))
}

/// Where the first part of a text ends: at the first separator, or at the
/// end of the text where it holds none.
pub open spec fn first_index(s: Seq<char>, sep: char) -> int
    decreases s.len(),
{
    if s.len() == 0 || s[0] == sep {
        0
    } else {
        1 + first_index(s.drop_first(), sep)
    }
}

/// The parts of a text: what stands between its separators. A text without
/// a separator is one part, and so is the empty text.
pub open spec fn split(s: Seq<char>, sep: char) -> Seq<Seq<char>>
    decreases s.len(),
{
    let end = first_index(s, sep);
    if 0 <= end < s.len() {
        seq![s.take(end)] + split(s.skip(end + 1), sep)
    } else {
        seq![s]
    }
}

/// Whether a text begins with a pattern.
pub open spec fn starts_with(s: Seq<char>, pattern: Seq<char>) -> bool {
    pattern.len() <= s.len() && s.take(pattern.len() as int) == pattern
}

/// A text with every occurrence of a pattern replaced, from the left, each
/// occurrence beginning where the one before it has ended.
pub open spec fn replaced(s: Seq<char>, pattern: Seq<char>, with: Seq<char>) -> Seq<char>
    decreases s.len(),
{
    if s.len() == 0 || pattern.len() == 0 {
        s
    } else if starts_with(s, pattern) {
        with + replaced(s.skip(pattern.len() as int), pattern, with)
    } else {
        seq![s[0]] + replaced(s.drop_first(), pattern, with)
    }
}

/// The parts in order, with the separator between every two of them.
pub open spec fn join_all(parts: Seq<Seq<char>>, sep: Seq<char>) -> Seq<char>
    decreases parts.len(),
{
    if parts.len() == 0 {
        Seq::empty()
    } else if parts.len() == 1 {
        parts[0]
    } else {
        join_all(parts.drop_last(), sep) + sep + parts.last()
    }
}

/// A text with one more part behind it. An empty part adds nothing, and the
/// separator stands only between two parts.
pub open spec fn joined_with(head: Seq<char>, part: Seq<char>, sep: Seq<char>) -> Seq<char> {
    if part.len() == 0 {
        head
    } else if head.len() == 0 {
        part
    } else {
        head + sep + part
    }
}

/// The parts that are not empty, in order, with the separator between them.
pub open spec fn join_filled(parts: Seq<Seq<char>>, sep: Seq<char>) -> Seq<char>
    decreases parts.len(),
{
    if parts.len() == 0 {
        Seq::empty()
    } else {
        joined_with(join_filled(parts.drop_last(), sep), parts.last(), sep)
    }
}

proof fn lemma_trim_start(s: Seq<char>, k: int)
    requires
        0 <= k <= s.len(),
        forall|i: int| 0 <= i < k ==> is_whitespace(s[i]),
        k < s.len() ==> !is_whitespace(s[k]),
    ensures
        trim_start(s) == s.skip(k),
    decreases k,
{
    if k == 0 {
        assert(s.skip(0) =~= s);
    } else {
        lemma_trim_start(s.drop_first(), k - 1);
        assert(s.drop_first().skip(k - 1) =~= s.skip(k));
    }
}

proof fn lemma_trim_end(s: Seq<char>, k: int)
    requires
        0 <= k <= s.len(),
        forall|i: int| k <= i < s.len() ==> is_whitespace(s[i]),
        k > 0 ==> !is_whitespace(s[k - 1]),
    ensures
        trim_end(s) == s.take(k),
    decreases s.len() - k,
{
    if k == s.len() {
        assert(s.take(k) =~= s);
    } else {
        lemma_trim_end(s.drop_last(), k);
        assert(s.drop_last().take(k) =~= s.take(k));
    }
}

/// The first part of a text ends at `k` where a separator stands there, or
/// the text ends there, and none stands before.
pub proof fn lemma_first_index(s: Seq<char>, sep: char, k: int)
    requires
        0 <= k <= s.len(),
        forall|i: int| 0 <= i < k ==> s[i] != sep,
        k < s.len() ==> s[k] == sep,
    ensures
        first_index(s, sep) == k,
    decreases k,
{
    if k > 0 {
        lemma_first_index(s.drop_first(), sep, k - 1);
    }
}

/// Joining one more part is joining the parts before it and putting the
/// part behind them.
pub proof fn lemma_join_push(parts: Seq<Seq<char>>, part: Seq<char>, sep: Seq<char>)
    ensures
        join_filled(parts.push(part), sep) == joined_with(join_filled(parts, sep), part, sep),
{
    assert(parts.push(part).drop_last() =~= parts);
}

/// The glyphs `from..to` of a run, as a string.
pub fn string_of(glyphs: &Vec<char>, from: usize, to: usize) -> (text: String)
    requires
        from <= to <= glyphs@.len(),
    ensures
        text@ == glyphs@.subrange(from as int, to as int),
{
    let mut text = String::new();
    let mut i = from;
    while i < to
        invariant
            from <= i <= to <= glyphs@.len(),
            text@ == glyphs@.subrange(from as int, i as int),
        decreases to - i,
    {
        text.push(glyphs[i]);
        i = i + 1;
        assert(text@ =~= glyphs@.subrange(from as int, i as int));
    }
    text
}

/// The glyphs `from..to` of a run without the white space at either end.
pub fn trimmed_part(glyphs: &Vec<char>, from: usize, to: usize) -> (text: String)
    requires
        from <= to <= glyphs@.len(),
    ensures
        text@ == trimmed(glyphs@.subrange(from as int, to as int)),
{
    let ghost part = glyphs@.subrange(from as int, to as int);
    let mut head = from;
    while head < to && is_blank(glyphs[head])
        invariant
            from <= head <= to <= glyphs@.len(),
            forall|i: int| from <= i < head ==> is_whitespace(glyphs@[i]),
        decreases to - head,
    {
        head = head + 1;
    }
    let mut end = to;
    while end > head && is_blank(glyphs[end - 1])
        invariant
            head <= end <= to <= glyphs@.len(),
            forall|i: int| end <= i < to ==> is_whitespace(glyphs@[i]),
        decreases end,
    {
        end = end - 1;
    }
    proof {
        lemma_trim_start(part, head - from);
        let rest = part.skip(head - from);
        lemma_trim_end(rest, end - head);
        assert(rest.take(end - head) =~= glyphs@.subrange(head as int, end as int));
    }
    string_of(glyphs, head, end)
}

/// Puts one more part behind a text, with the separator where both hold
/// something.
pub fn push_joined(out: &mut String, part: &str, sep: &str)
    ensures
        final(out)@ == joined_with(old(out)@, part@, sep@),
{
    if !part.is_empty() {
        if !out.as_str().is_empty() {
            out.append(sep);
        }
        out.append(part);
    }
}

/// Whether two texts are the same.
pub fn same_text(a: &str, b: &str) -> (same: bool)
    ensures
        same == (a@ == b@),
{
    let x = chars_of(a);
    let y = chars_of(b);
    if x.len() != y.len() {
        return false;
    }
    let mut i: usize = 0;
    while i < x.len()
        invariant
            x@ == a@,
            y@ == b@,
            i <= x@.len() == y@.len(),
            x@.take(i as int) == y@.take(i as int),
        decreases x@.len() - i,
    {
        if x[i] != y[i] {
            return false;
        }
        assert(x@.take(i + 1) =~= x@.take(i as int).push(x@[i as int]));
        assert(y@.take(i + 1) =~= y@.take(i as int).push(y@[i as int]));
        i = i + 1;
    }
    assert(x@.take(i as int) =~= x@ && y@.take(i as int) =~= y@);
    true
}

/// Whether the pattern stands in the run of glyphs at `at`.
fn matches_at(glyphs: &Vec<char>, at: usize, pattern: &Vec<char>) -> (found: bool)
    requires
        at <= glyphs@.len(),
    ensures
        found == starts_with(glyphs@.skip(at as int), pattern@),
{
    if pattern.len() > glyphs.len() - at {
        return false;
    }
    let ghost rest = glyphs@.skip(at as int);
    let mut i: usize = 0;
    while i < pattern.len()
        invariant
            at <= glyphs@.len() <= usize::MAX,
            i <= pattern@.len() <= glyphs@.len() - at,
            rest == glyphs@.skip(at as int),
            rest.take(i as int) == pattern@.take(i as int),
        decreases pattern@.len() - i,
    {
        if glyphs[at + i] != pattern[i] {
            assert(rest.take(pattern@.len() as int)[i as int] != pattern@[i as int]);
            return false;
        }
        assert(rest.take(i + 1) =~= rest.take(i as int).push(rest[i as int]));
        assert(pattern@.take(i + 1) =~= pattern@.take(i as int).push(pattern@[i as int]));
        i = i + 1;
    }
    assert(pattern@.take(i as int) =~= pattern@);
    true
}

/// A text with every occurrence of a pattern replaced by another text. An
/// empty pattern occurs nowhere.
pub fn replace_all(text: &str, pattern: &str, with: &str) -> (out: String)
    ensures
        out@ == replaced(text@, pattern@, with@),
{
    let glyphs = chars_of(text);
    let wanted = chars_of(pattern);
    let n = glyphs.len();
    if wanted.len() == 0 {
        return text.to_owned();
    }
    let mut out = String::new();
    let mut i: usize = 0;
    assert(glyphs@.skip(0) =~= glyphs@);
    while i < n
        invariant
            i <= n == glyphs@.len(),
            wanted@ == pattern@,
            wanted@.len() > 0,
            replaced(glyphs@, wanted@, with@) == out@ + replaced(
                glyphs@.skip(i as int),
                wanted@,
                with@,
            ),
        decreases n - i,
    {
        let ghost rest = glyphs@.skip(i as int);
        let ghost before = out@;
        if matches_at(&glyphs, i, &wanted) {
            out.append(with);
            assert(rest.skip(wanted@.len() as int) =~= glyphs@.skip(i + wanted@.len()));
            assert(before + (with@ + replaced(rest.skip(wanted@.len() as int), wanted@, with@))
                =~= (before + with@) + replaced(rest.skip(wanted@.len() as int), wanted@, with@));
            i = i + wanted.len();
        } else {
            out.push(glyphs[i]);
            assert(rest.drop_first() =~= glyphs@.skip(i + 1));
            assert(before + (seq![rest[0]] + replaced(rest.drop_first(), wanted@, with@))
                =~= before.push(rest[0]) + replaced(rest.drop_first(), wanted@, with@));
            i = i + 1;
        }
    }
    assert(out@ + Seq::<char>::empty() =~= out@);
    out
}

/// A text without the white space at either end.
pub fn trim(text: &str) -> (out: String)
    ensures
        out@ == trimmed(text@),
{
    let glyphs = chars_of(text);
    assert(glyphs@.subrange(0, glyphs@.len() as int) =~= glyphs@);
    trimmed_part(&glyphs, 0, glyphs.len())
}

/// The parts of a text that stand between its separators.
pub fn split_text(text: &str, sep: char) -> (parts: Vec<String>)
    ensures
        views_of(parts@) == split(text@, sep),
{
    let glyphs = chars_of(text);
    let n = glyphs.len();
    let mut parts: Vec<String> = Vec::new();
    let mut from: usize = 0;
    let mut i: usize = 0;
    assert(glyphs@.skip(0) =~= glyphs@);
    assert(views_of(parts@) =~= Seq::<Seq<char>>::empty());
    while i < n
        invariant
            n == glyphs@.len(),
            from <= i <= n,
            split(glyphs@, sep) == views_of(parts@) + split(glyphs@.skip(from as int), sep),
            forall|k: int| from <= k < i ==> glyphs@[k] != sep,
        decreases n - i,
    {
        if glyphs[i] == sep {
            let part = string_of(&glyphs, from, i);
            proof {
                let rest = glyphs@.skip(from as int);
                let done = views_of(parts@);
                lemma_first_index(rest, sep, i - from);
                assert(rest.take(i - from) =~= part@);
                assert(rest.skip(i - from + 1) =~= glyphs@.skip(i + 1));
                assert(done + (seq![part@] + split(glyphs@.skip(i + 1), sep)) =~= done.push(part@)
                    + split(glyphs@.skip(i + 1), sep));
                assert(views_of(parts@.push(part)) =~= done.push(part@));
            }
            parts.push(part);
            from = i + 1;
        }
        i = i + 1;
    }
    let part = string_of(&glyphs, from, n);
    proof {
        let rest = glyphs@.skip(from as int);
        let done = views_of(parts@);
        lemma_first_index(rest, sep, n - from);
        assert(rest =~= part@);
        assert(done + seq![part@] =~= done.push(part@));
        assert(views_of(parts@.push(part)) =~= done.push(part@));
    }
    parts.push(part);
    parts
}

} // verus!
