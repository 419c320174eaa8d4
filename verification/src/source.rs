//! The static text: the lines of the source files, drawn together into the
//! one line that scrolls.

use crate::text::{
    chars_of, join_filled, lemma_first_index, lemma_join_push, push_joined, split, trimmed,
    trimmed_part, views_of,
};
use vstd::prelude::*;

verus! {

/// The lines of a text: what stands between its line feeds.
pub open spec fn lines(s: Seq<char>) -> Seq<Seq<char>> {
    split(s, '\n')
}

/// Each line without the white space at its ends.
pub open spec fn trimmed_all(parts: Seq<Seq<char>>) -> Seq<Seq<char>> {
    Seq::new(parts.len(), |i: int| trimmed(parts[i]))
}

/// What stands between two lines of one file.
pub open spec fn line_separator() -> Seq<char> {
    "    "@
}

/// What stands between the texts of two files.
pub open spec fn file_separator() -> Seq<char> {
    "    ***    "@
}

/// What is shown where the files hold nothing.
pub open spec fn placeholder() -> Seq<char> {
    "No data found in source files."@
}

/// The text of one file: its lines, trimmed, those that are not empty.
pub open spec fn text_of_file(content: Seq<char>) -> Seq<char> {
    join_filled(trimmed_all(lines(content)), line_separator())
}

/// The text of each file.
pub open spec fn texts_of_files(contents: Seq<Seq<char>>) -> Seq<Seq<char>> {
    Seq::new(contents.len(), |i: int| text_of_file(contents[i]))
}

/// The static text: the texts of the files that hold any, or the
/// placeholder where none does.
pub open spec fn text_of_files(contents: Seq<Seq<char>>) -> Seq<char> {
    let text = join_filled(texts_of_files(contents), file_separator());
    if text.len() == 0 {
        placeholder()
    } else {
        text
    }
}

/// The text of one file: its lines, each without the white space at its
/// ends, those that are not empty, with four blanks between them.
pub fn file_text(content: &str) -> (text: String)
    ensures
        text@ == text_of_file(content@),
{
    let glyphs = chars_of(content);
    let n = glyphs.len();
    let mut text = String::new();
    let mut from: usize = 0;
    let mut i: usize = 0;
    let ghost mut done: Seq<Seq<char>> = Seq::empty();
    assert(glyphs@.skip(0) =~= glyphs@);
    while i < n
        invariant
            n == glyphs@.len(),
            from <= i <= n,
            lines(glyphs@) == done + lines(glyphs@.skip(from as int)),
            forall|k: int| from <= k < i ==> glyphs@[k] != '\n',
            text@ == join_filled(trimmed_all(done), line_separator()),
        decreases n - i,
    {
        if glyphs[i] == '\n' {
            let part = trimmed_part(&glyphs, from, i);
            push_joined(&mut text, part.as_str(), "    ");
            proof {
                let rest = glyphs@.skip(from as int);
                let line = glyphs@.subrange(from as int, i as int);
                lemma_first_index(rest, '\n', i - from);
                assert(rest.take(i - from) =~= line);
                assert(rest.skip(i - from + 1) =~= glyphs@.skip(i + 1));
                assert(done + (seq![line] + lines(glyphs@.skip(i + 1))) =~= done.push(line)
                    + lines(glyphs@.skip(i + 1)));
                assert(trimmed_all(done.push(line)) =~= trimmed_all(done).push(trimmed(line)));
                lemma_join_push(trimmed_all(done), trimmed(line), line_separator());
                done = done.push(line);
            }
            from = i + 1;
        }
        i = i + 1;
    }
    let part = trimmed_part(&glyphs, from, n);
    push_joined(&mut text, part.as_str(), "    ");
    proof {
        let rest = glyphs@.skip(from as int);
        lemma_first_index(rest, '\n', n - from);
        assert(rest =~= glyphs@.subrange(from as int, n as int));
        assert(done + seq![rest] =~= done.push(rest));
        assert(trimmed_all(done.push(rest)) =~= trimmed_all(done).push(trimmed(rest)));
        lemma_join_push(trimmed_all(done), trimmed(rest), line_separator());
    }
    text
}

/// The static text of the display, from what the source files hold: the
/// texts of the files that hold any, with a marked separator between them,
/// or the placeholder where none does.
pub fn static_text(contents: &Vec<String>) -> (text: String)
    ensures
        text@ == text_of_files(views_of(contents@)),
{
    let ghost all = views_of(contents@);
    let mut text = String::new();
    let mut i: usize = 0;
    while i < contents.len()
        invariant
            i <= contents@.len(),
            all == views_of(contents@),
            text@ == join_filled(texts_of_files(all.take(i as int)), file_separator()),
        decreases contents@.len() - i,
    {
        let part = file_text(contents[i].as_str());
        push_joined(&mut text, part.as_str(), "    ***    ");
        proof {
            let before = texts_of_files(all.take(i as int));
            assert(texts_of_files(all.take(i + 1)) =~= before.push(text_of_file(all[i as int])));
            lemma_join_push(before, text_of_file(all[i as int]), file_separator());
        }
        i = i + 1;
    }
    assert(all.take(i as int) =~= all);
    if text.as_str().is_empty() {
        "No data found in source files.".to_owned()
    } else {
        text
    }
}

} // verus!
