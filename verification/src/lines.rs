//! Splitting text into lines.

use vstd::prelude::*;
use crate::text::views;

verus! {

/// The number of characters before the first newline of `s`, or the length
/// of `s` if it has none.
pub open spec fn line_end(s: Seq<char>) -> nat
    decreases s.len(),
{
    if s.len() == 0 || s[0] == '\n' {
        0
    } else {
        1 + line_end(s.skip(1))
    }
}

/// `line` without the carriage return at its end, if it has one.
pub open spec fn without_cr(line: Seq<char>) -> Seq<char> {
    if line.len() > 0 && line.last() == '\r' {
        line.drop_last()
    } else {
        line
    }
}

/// The lines of `s`. A line ends at a newline, which is not part of it; a
/// carriage return directly before that newline is not part of it either.
/// What follows the last newline is a line of its own unless it is empty, so
/// the empty text has no lines. A final line that no newline ends keeps a
/// carriage return at its end.
pub open spec fn lines_of(s: Seq<char>) -> Seq<Seq<char>>
    decreases s.len(),
{
    if s.len() == 0 {
        Seq::empty()
    } else {
        let k = line_end(s) as int;
        if k >= s.len() {
            seq![s]
        } else {
            seq![without_cr(s.take(k))] + lines_of(s.skip(k + 1))
        }
    }
}

/// `line_end` is a position in `s` with no newline before it, and a newline
/// at it unless it is the end of `s`.
pub proof fn lemma_line_end(s: Seq<char>)
    ensures
        line_end(s) <= s.len(),
        forall|j: int| 0 <= j < line_end(s) ==> s[j] != '\n',
        line_end(s) < s.len() ==> s[line_end(s) as int] == '\n',
    decreases s.len(),
{
    if s.len() == 0 || s[0] == '\n' {
    } else {
        lemma_line_end(s.skip(1));
        assert forall|j: int| 0 <= j < line_end(s) implies s[j] != '\n' by {
            if j > 0 {
                assert(s.skip(1)[j - 1] == s[j]);
            }
        }
    }
}

/// A position with no newline before it, and a newline at it or the end of
/// the text there, is `line_end`.
pub proof fn lemma_line_end_is(s: Seq<char>, k: int)
    requires
        0 <= k <= s.len(),
        forall|j: int| 0 <= j < k ==> s[j] != '\n',
        k < s.len() ==> s[k] == '\n',
    ensures
        line_end(s) == k,
    decreases s.len(),
{
    if s.len() == 0 || s[0] == '\n' {
    } else {
        assert forall|j: int| 0 <= j < k - 1 implies s.skip(1)[j] != '\n' by {
            assert(s.skip(1)[j] == s[j + 1]);
        }
        lemma_line_end_is(s.skip(1), k - 1);
    }
}

/// Computes `lines_of`.
pub fn split_lines(s: &Vec<char>) -> (out: Vec<Vec<char>>)
    ensures
        views(out@) == lines_of(s@),
{
    let mut out: Vec<Vec<char>> = Vec::new();
    let mut start: usize = 0;
    proof {
        assert(s@.skip(0) =~= s@);
        assert(views(out@) + lines_of(s@) =~= lines_of(s@));
    }
    while start < s.len()
        invariant
            start <= s.len(),
            views(out@) + lines_of(s@.skip(start as int)) == lines_of(s@),
        decreases s.len() - start,
    {
        let ghost rest = s@.skip(start as int);
        let ghost before = views(out@);
        let mut line: Vec<char> = Vec::new();
        let mut j: usize = start;
        while j < s.len() && s[j] != '\n'
            invariant
                start <= j <= s.len(),
                line@ == s@.subrange(start as int, j as int),
                forall|m: int| start <= m < j ==> s@[m] != '\n',
            decreases s.len() - j,
        {
            line.push(s[j]);
            proof {
                assert(s@.subrange(start as int, j as int).push(s@[j as int]) =~= s@.subrange(
                    start as int,
                    j + 1,
                ));
            }
            j += 1;
        }
        proof {
            assert forall|m: int| 0 <= m < j - start implies rest[m] != '\n' by {
                assert(rest[m] == s@[start + m]);
            }
            lemma_line_end_is(rest, j - start);
            assert(rest.take(j - start) =~= line@);
        }
        if j < s.len() {
            let n = line.len();
            if n > 0 && line[n - 1] == '\r' {
                line.pop();
            }
            proof {
                assert(line@ =~= without_cr(rest.take(j - start)));
                assert(rest.skip(j - start + 1) =~= s@.skip(j + 1));
            }
            out.push(line);
            proof {
                assert(views(out@) =~= before + seq![line@]);
                assert(views(out@) + lines_of(s@.skip(j + 1)) =~= before + (seq![line@]
                    + lines_of(s@.skip(j + 1))));
            }
            start = j + 1;
        } else {
            proof {
                assert(line@ =~= rest);
                assert(s@.skip(s.len() as int) =~= Seq::<char>::empty());
            }
            out.push(line);
            proof {
                assert(views(out@) =~= before + seq![line@]);
                assert(lines_of(s@.skip(s.len() as int)) =~= Seq::<Seq<char>>::empty());
                assert(views(out@) + lines_of(s@.skip(s.len() as int)) =~= before + seq![rest]);
            }
            start = s.len();
        }
    }
    proof {
        assert(s@.skip(s.len() as int) =~= Seq::<char>::empty());
        assert(views(out@) + Seq::<Seq<char>>::empty() =~= views(out@));
    }
    out
}

/// No line holds a newline.
pub proof fn law_lines_hold_no_newline(s: Seq<char>, k: int, j: int)
    requires
        0 <= k < lines_of(s).len(),
        0 <= j < lines_of(s)[k].len(),
    ensures
        lines_of(s)[k][j] != '\n',
    decreases s.len(),
{
    lemma_line_end(s);
    let e = line_end(s) as int;
    if e >= s.len() {
        assert(lines_of(s)[0] == s);
    } else if k == 0 {
        assert(lines_of(s)[0] == without_cr(s.take(e)));
        assert(without_cr(s.take(e))[j] == s[j]);
    } else {
        assert(lines_of(s)[k] == lines_of(s.skip(e + 1))[k - 1]);
        law_lines_hold_no_newline(s.skip(e + 1), k - 1, j);
    }
}

/// A newline put behind a text ends its last line and begins no new one:
/// the lines are as many as before, unless the text ended in a newline
/// already, where one empty line is added.
pub proof fn law_final_newline_ends_a_line(s: Seq<char>)
    requires
        s.len() > 0,
    ensures
        lines_of(s.push('\n')).len() == lines_of(s).len() + if s.last() == '\n' {
            1int
        } else {
            0int
        },
    decreases s.len(),
{
    let t = s.push('\n');
    lemma_line_end(s);
    let e = line_end(s) as int;
    if e >= s.len() {
        assert forall|m: int| 0 <= m < s.len() implies t[m] != '\n' by {
            assert(t[m] == s[m]);
        }
        lemma_line_end_is(t, s.len() as int);
        assert(t.skip(s.len() as int + 1) =~= Seq::<char>::empty());
        assert(lines_of(t.skip(s.len() as int + 1)) =~= Seq::<Seq<char>>::empty());
        assert(lines_of(t) =~= seq![without_cr(t.take(s.len() as int))]);
    } else {
        assert forall|m: int| 0 <= m < e implies t[m] != '\n' by {
            assert(t[m] == s[m]);
        }
        assert(t[e] == s[e]);
        lemma_line_end_is(t, e);
        assert(t.take(e) =~= s.take(e));
        if e + 1 == s.len() {
            assert(s.skip(e + 1) =~= Seq::<char>::empty());
            assert(t.skip(e + 1) =~= seq!['\n']);
            let nl = seq!['\n'];
            assert(line_end(nl) == 0);
            assert(nl.skip(1) =~= Seq::<char>::empty());
            assert(lines_of(nl.skip(1)) =~= Seq::<Seq<char>>::empty());
            assert(nl.take(0) =~= Seq::<char>::empty());
            assert(lines_of(nl) =~= seq![without_cr(nl.take(0))]);
            assert(lines_of(s.skip(e + 1)) =~= Seq::<Seq<char>>::empty());
        } else {
            assert(t.skip(e + 1) =~= s.skip(e + 1).push('\n'));
            law_final_newline_ends_a_line(s.skip(e + 1));
            assert(s.skip(e + 1).last() == s.last());
        }
    }
}

} // verus!
