//! Texts that are written down with escape notations, and what unescaping
//! makes of them.

use vstd::prelude::*;
use crate::escape::{
    lemma_no_notation_at,
    lemma_notation_at_is,
    lemma_notation_shape,
    notation_char,
    notation_len,
    notation_text,
    unescaped,
    NOTATION_COUNT,
};

verus! {

/// One thing that a writer puts down: a character as it is, or the notation
/// for one.
pub enum Mark {
    /// A character that stands for itself. A backslash does not: it is
    /// written with its notation.
    Plain(char),
    /// The notation with this number.
    Notation(int),
}

/// Whether `m` is a character other than the backslash, or one of the
/// notations.
pub open spec fn mark_ok(m: Mark) -> bool {
    match m {
        Mark::Plain(c) => c != '\\',
        Mark::Notation(k) => 0 <= k < NOTATION_COUNT,
    }
}

/// Whether every mark of `marks` is as `mark_ok` says.
pub open spec fn marks_ok(marks: Seq<Mark>) -> bool {
    forall|i: int| 0 <= i < marks.len() ==> mark_ok(#[trigger] marks[i])
}

/// `m` as it is written: the character, or the notation spelled out.
pub open spec fn written_mark(m: Mark) -> Seq<char> {
    match m {
        Mark::Plain(c) => seq![c],
        Mark::Notation(k) => notation_text(k),
    }
}

/// The character that `m` means.
pub open spec fn meant_mark(m: Mark) -> char {
    match m {
        Mark::Plain(c) => c,
        Mark::Notation(k) => notation_char(k),
    }
}

/// `marks` as they are written, one after another.
pub open spec fn written(marks: Seq<Mark>) -> Seq<char>
    decreases marks.len(),
{
    if marks.len() == 0 {
        Seq::empty()
    } else {
        written_mark(marks[0]) + written(marks.skip(1))
    }
}

/// What `marks` mean: one character for each.
pub open spec fn meant(marks: Seq<Mark>) -> Seq<char> {
    Seq::new(marks.len(), |i: int| meant_mark(marks[i]))
}

/// How a character is written so that it can be read back: with its
/// notation where it has one, else as it is.
pub open spec fn mark_of(c: char) -> Mark {
    if c == '\x1b' {
        Mark::Notation(0)
    } else if c == '\n' {
        Mark::Notation(1)
    } else if c == '\t' {
        Mark::Notation(2)
    } else if c == '\r' {
        Mark::Notation(3)
    } else if c == '"' {
        Mark::Notation(4)
    } else if c == '\'' {
        Mark::Notation(5)
    } else if c == '\\' {
        Mark::Notation(6)
    } else {
        Mark::Plain(c)
    }
}

/// `text` written out mark by mark.
pub open spec fn marks_of(text: Seq<char>) -> Seq<Mark> {
    Seq::new(text.len(), |i: int| mark_of(text[i]))
}

/// Unescaping gives back what was meant: a text written with any number of
/// notations among characters that stand for themselves becomes the text
/// with each notation's character in its place, and nothing else is
/// altered.
pub proof fn law_unescape_gives_what_was_meant(marks: Seq<Mark>)
    requires
        marks_ok(marks),
    ensures
        unescaped(written(marks)) == meant(marks),
    decreases marks.len(),
{
    if marks.len() == 0 {
        assert(meant(marks) =~= Seq::<char>::empty());
    } else {
        let m = marks[0];
        let rest = marks.skip(1);
        let s = written(marks);
        let tail = written(rest);
        assert(mark_ok(m));
        assert forall|i: int| 0 <= i < rest.len() implies mark_ok(#[trigger] rest[i]) by {
            assert(rest[i] == marks[i + 1]);
        }
        law_unescape_gives_what_was_meant(rest);
        assert(meant(marks) =~= seq![meant_mark(m)] + meant(rest));
        match m {
            Mark::Plain(c) => {
                assert(s[0] == c);
                lemma_no_notation_at(s);
                assert(s.skip(1) =~= tail);
            },
            Mark::Notation(k) => {
                lemma_notation_shape(k, k);
                assert(s.subrange(0, notation_text(k).len() as int) =~= notation_text(k));
                lemma_notation_at_is(s, k);
                assert(s.skip(notation_len(k) as int) =~= tail);
            },
        }
    }
}

/// The round trip: every text, written out with the notations for the
/// characters that have one, is read back as it was.
pub proof fn law_round_trip(text: Seq<char>)
    ensures
        unescaped(written(marks_of(text))) == text,
{
    let marks = marks_of(text);
    assert(marks_ok(marks));
    law_unescape_gives_what_was_meant(marks);
    assert(meant(marks) =~= text);
}

} // verus!
