//! Splitting text into lines.
//!
//! A line ends at a line feed, or at a carriage return followed by a line
//! feed. The line ending is not part of the line. The last line needs no
//! line ending, and a text that ends in one has no empty line behind it.
//! Nothing else is removed: empty lines stay, and so do the spaces at either
//! end of a line.

use crate::chars::{chars_of, string_of};
use crate::scan::{lemma_run_end_is_first, run_end, skip_to};
use vstd::prelude::*;
use vstd::slice::slice_subrange;

verus! {

/// `line` without the carriage return at its end, if it has one.
pub open spec fn without_carriage_return(line: Seq<char>) -> Seq<char> {
    if line.len() > 0 && line.last() == '\r' {
        line.drop_last()
    } else {
        line
    }
}

/// The lines of `text` from position `from` on.
pub open spec fn lines_from(text: Seq<char>, from: int) -> Seq<Seq<char>>
    decreases text.len() - from,
    via lines_from_terminates
{
    if from < 0 || from >= text.len() {
        Seq::empty()
    } else {
        let feed = run_end(text, '\n', from);
        if feed >= text.len() {
            seq![text.subrange(from, text.len() as int)]
        } else {
            seq![without_carriage_return(text.subrange(from, feed))] + lines_from(text, feed + 1)
        }
    }
}

#[via_fn]
proof fn lines_from_terminates(text: Seq<char>, from: int) {
    if 0 <= from < text.len() {
        lemma_run_end_is_first(text, '\n', from);
    }
}

/// The lines of `text`.
pub open spec fn lines_of(text: Seq<char>) -> Seq<Seq<char>> {
    lines_from(text, 0)
}

/// What a sequence of strings holds, each as its characters.
pub open spec fn texts(lines: Seq<String>) -> Seq<Seq<char>> {
    lines.map_values(|line: String| line@)
}

/// No line holds a line feed.
pub proof fn lemma_lines_hold_no_feed(text: Seq<char>, from: int)
    requires
        0 <= from,
    ensures
        forall|i: int, j: int|
            0 <= i < lines_from(text, from).len() && 0 <= j < lines_from(text, from)[i].len()
                ==> lines_from(text, from)[i][j] != '\n',
    decreases text.len() - from,
{
    let lines = lines_from(text, from);
    if from < text.len() {
        lemma_run_end_is_first(text, '\n', from);
        let feed = run_end(text, '\n', from);
        if feed < text.len() {
            lemma_lines_hold_no_feed(text, feed + 1);
        }
        assert forall|i: int, j: int| 0 <= i < lines.len() && 0 <= j < lines[i].len() implies lines[i][j]
            != '\n' by {
            if i == 0 {
                assert(lines[0][j] == text[from + j]);
            } else {
                assert(lines[i] == lines_from(text, feed + 1)[i - 1]);
            }
        }
    }
}

/// A text without line feeds is its own single line, unless it is empty:
/// then it has no line.
pub proof fn lemma_single_line(text: Seq<char>)
    requires
        forall|j: int| 0 <= j < text.len() ==> text[j] != '\n',
    ensures
        lines_of(text) == if text.len() == 0 {
            Seq::<Seq<char>>::empty()
        } else {
            seq![text]
        },
{
    if text.len() > 0 {
        lemma_run_end_is_first(text, '\n', 0);
        assert(text.subrange(0, text.len() as int) =~= text);
    }
}

/// `lines` written one after the other with a line feed between each two.
pub open spec fn joined(lines: Seq<Seq<char>>) -> Seq<char>
    decreases lines.len(),
{
    if lines.len() == 0 {
        Seq::empty()
    } else if lines.len() == 1 {
        lines[0]
    } else {
        lines[0] + seq!['\n'] + joined(lines.drop_first())
    }
}

/// `text` without the line feed at its end, if it has one.
pub open spec fn without_final_feed(text: Seq<char>) -> Seq<char> {
    if text.len() > 0 && text.last() == '\n' {
        text.drop_last()
    } else {
        text
    }
}

/// Splitting loses nothing but line endings. The lines of a text without
/// carriage returns, joined by line feeds, are the text again, but for a
/// line feed at its very end: every space and every empty line is kept.
pub proof fn lemma_lines_keep_text(text: Seq<char>, from: int)
    requires
        0 <= from <= text.len(),
        forall|i: int| from <= i < text.len() ==> text[i] != '\r',
    ensures
        joined(lines_from(text, from)) == without_final_feed(
            text.subrange(from, text.len() as int),
        ),
    decreases text.len() - from,
{
    let rest = text.subrange(from, text.len() as int);
    if from < text.len() {
        lemma_run_end_is_first(text, '\n', from);
        let feed = run_end(text, '\n', from);
        if feed < text.len() {
            let first = text.subrange(from, feed);
            let behind = text.subrange(feed + 1, text.len() as int);
            let tail = lines_from(text, feed + 1);
            lemma_lines_keep_text(text, feed + 1);
            assert(without_carriage_return(first) == first);
            assert(rest =~= first + seq!['\n'] + behind);
            assert((seq![first] + tail).drop_first() =~= tail);
            if feed + 1 < text.len() {
                lemma_run_end_is_first(text, '\n', feed + 1);
                assert(tail.len() >= 1);
                assert(rest.last() == behind.last());
                assert(without_final_feed(rest) =~= first + seq!['\n'] + without_final_feed(
                    behind,
                ));
            } else {
                assert(tail =~= Seq::<Seq<char>>::empty());
                assert(without_final_feed(rest) =~= first);
            }
        } else {
            assert(rest.len() > 0 && rest.last() == text[text.len() - 1]);
        }
    } else {
        assert(rest =~= Seq::<char>::empty());
    }
}

/// The lines of `text`, in order.
pub fn split_lines(text: &str) -> (lines: Vec<String>)
    ensures
        texts(lines@) == lines_of(text@),
{
    let s = chars_of(text);
    let total: usize = s.len();
    let mut lines: Vec<String> = Vec::new();
    let mut from: usize = 0;
    while from < total
        invariant
            from <= total,
            total == s.len(),
            s@ == text@,
            texts(lines@) + lines_from(s@, from as int) == lines_of(s@),
        decreases total - from,
    {
        let ghost before = lines@;
        let feed: usize = skip_to(s.as_slice(), '\n', from);
        proof {
            lemma_run_end_is_first(s@, '\n', from as int);
        }
        if feed >= total {
            let line = string_of(slice_subrange(s.as_slice(), from, total));
            lines.push(line);
            assert(texts(lines@) =~= texts(before) + lines_from(s@, from as int));
            assert(lines_from(s@, total as int) =~= Seq::<Seq<char>>::empty());
            from = total;
        } else {
            let end: usize = if from < feed && s[feed - 1] == '\r' {
                feed - 1
            } else {
                feed
            };
            assert(s@.subrange(from as int, end as int) =~= without_carriage_return(
                s@.subrange(from as int, feed as int),
            ));
            let line = string_of(slice_subrange(s.as_slice(), from, end));
            lines.push(line);
            assert(texts(lines@) + lines_from(s@, feed + 1) =~= texts(before) + lines_from(
                s@,
                from as int,
            ));
            from = feed + 1;
        }
    }
    assert(texts(lines@) =~= texts(lines@) + lines_from(s@, from as int));
    lines
}

} // verus!
