//! Turning written-out escape notations into the characters they denote.

use vstd::prelude::*;
use crate::text::{chars_of, has_at, occurs_at, string_of};

verus! {

/// How many escape notations are recognized.
pub const NOTATION_COUNT: usize = 7;

/// The `k`-th notation as it is written: a backslash and what follows it.
pub open spec fn notation_text(k: int) -> Seq<char> {
    if k == 0 {
        seq!['\\', 'x', '1', 'b']
    } else if k == 1 {
        seq!['\\', 'n']
    } else if k == 2 {
        seq!['\\', 't']
    } else if k == 3 {
        seq!['\\', 'r']
    } else if k == 4 {
        seq!['\\', '"']
    } else if k == 5 {
        seq!['\\', '\'']
    } else {
        seq!['\\', '\\']
    }
}

/// The character that the `k`-th notation stands for.
pub open spec fn notation_char(k: int) -> char {
    if k == 0 {
        '\x1b'
    } else if k == 1 {
        '\n'
    } else if k == 2 {
        '\t'
    } else if k == 3 {
        '\r'
    } else if k == 4 {
        '"'
    } else if k == 5 {
        '\''
    } else {
        '\\'
    }
}

/// The number of the first notation from `k` on that `s` begins with, or
/// `NOTATION_COUNT` where it begins with none of them.
pub open spec fn notation_from(s: Seq<char>, k: int) -> int
    decreases NOTATION_COUNT - k,
{
    if k < 0 || k >= NOTATION_COUNT {
        NOTATION_COUNT as int
    } else if occurs_at(s, 0, notation_text(k)) {
        k
    } else {
        notation_from(s, k + 1)
    }
}

/// The number of the notation that `s` begins with, or `NOTATION_COUNT`
/// where it begins with none. No text begins with two of them.
pub open spec fn notation_at(s: Seq<char>) -> int {
    notation_from(s, 0)
}

/// How many characters notation `k` takes when written: four for the first,
/// two for the others.
pub open spec fn notation_len(k: int) -> nat {
    if k == 0 {
        4
    } else {
        2
    }
}

/// `s` with every notation replaced by its character, read once from the
/// left: where a notation begins, its character is put and the reading goes
/// on behind the notation; any other character is kept as it is.
pub open spec fn unescaped(s: Seq<char>) -> Seq<char>
    decreases s.len(),
{
    if s.len() == 0 {
        s
    } else {
        let k = notation_at(s);
        if 0 <= k < NOTATION_COUNT && notation_len(k) <= s.len() {
            seq![notation_char(k)] + unescaped(s.skip(notation_len(k) as int))
        } else {
            seq![s[0]] + unescaped(s.skip(1))
        }
    }
}

/// What `notation_from` gives is a notation that `s` begins with, or
/// `NOTATION_COUNT` where `s` begins with none from `k` on.
pub proof fn lemma_notation_from(s: Seq<char>, k: int)
    requires
        0 <= k <= NOTATION_COUNT,
    ensures
        k <= notation_from(s, k) <= NOTATION_COUNT,
        notation_from(s, k) < NOTATION_COUNT ==> occurs_at(
            s,
            0,
            notation_text(notation_from(s, k)),
        ),
        forall|j: int| k <= j < notation_from(s, k) ==> !occurs_at(s, 0, #[trigger] notation_text(j)),
    decreases NOTATION_COUNT - k,
{
    if k < NOTATION_COUNT && !occurs_at(s, 0, notation_text(k)) {
        lemma_notation_from(s, k + 1);
    }
}

/// Every notation begins with a backslash and is as long as `notation_len`
/// says; no two notations have the same character behind the backslash.
pub proof fn lemma_notation_shape(j: int, k: int)
    requires
        0 <= j < NOTATION_COUNT,
        0 <= k < NOTATION_COUNT,
    ensures
        notation_text(j).len() == notation_len(j),
        notation_text(j)[0] == '\\',
        j != k ==> notation_text(j)[1] != notation_text(k)[1],
{
}

/// A text that begins with notation `k` begins with no other: `notation_at`
/// is `k`.
pub proof fn lemma_notation_at_is(s: Seq<char>, k: int)
    requires
        0 <= k < NOTATION_COUNT,
        occurs_at(s, 0, notation_text(k)),
    ensures
        notation_at(s) == k,
        notation_len(k) <= s.len(),
{
    lemma_notation_shape(k, k);
    lemma_notation_from(s, 0);
    let found = notation_at(s);
    if found != k {
        assert(found < k) by {
            if found > k {
                assert(!occurs_at(s, 0, notation_text(k)));
            }
        }
        lemma_notation_shape(found, k);
        let a = notation_text(found);
        let b = notation_text(k);
        assert(s.subrange(0, a.len() as int)[1] == a[1]);
        assert(s.subrange(0, b.len() as int)[1] == b[1]);
    }
}

/// A text that does not begin with a backslash begins with no notation.
pub proof fn lemma_no_notation_at(s: Seq<char>)
    requires
        s.len() == 0 || s[0] != '\\',
    ensures
        notation_at(s) == NOTATION_COUNT,
{
    lemma_notation_from(s, 0);
    let found = notation_at(s);
    if found < NOTATION_COUNT {
        lemma_notation_shape(found, found);
        let a = notation_text(found);
        assert(s.subrange(0, a.len() as int)[0] == a[0]);
    }
}

/// The `k`-th notation as it is written, and the one-character text that
/// takes its place.
fn notation(k: usize) -> (r: (Vec<char>, Vec<char>))
    requires
        k < NOTATION_COUNT,
    ensures
        r.0@ == notation_text(k as int),
        r.1@ == seq![notation_char(k as int)],
{
    let mut text: Vec<char> = Vec::new();
    let mut to: Vec<char> = Vec::new();
    text.push('\\');
    if k == 0 {
        text.push('x');
        text.push('1');
        text.push('b');
        to.push('\x1b');
    } else if k == 1 {
        text.push('n');
        to.push('\n');
    } else if k == 2 {
        text.push('t');
        to.push('\t');
    } else if k == 3 {
        text.push('r');
        to.push('\r');
    } else if k == 4 {
        text.push('"');
        to.push('"');
    } else if k == 5 {
        text.push('\'');
        to.push('\'');
    } else {
        text.push('\\');
        to.push('\\');
    }
    proof {
        assert(text@ =~= notation_text(k as int));
        assert(to@ =~= seq![notation_char(k as int)]);
    }
    (text, to)
}

/// The number of the notation that begins at position `i` of `s`, or
/// `NOTATION_COUNT` where none does.
fn notation_starting(s: &Vec<char>, i: usize) -> (k: usize)
    requires
        i <= s.len(),
    ensures
        k == notation_at(s@.skip(i as int)),
{
    let ghost rest = s@.skip(i as int);
    let mut k: usize = 0;
    while k < NOTATION_COUNT
        invariant
            k <= NOTATION_COUNT,
            i <= s.len(),
            rest == s@.skip(i as int),
            notation_at(rest) == notation_from(rest, k as int),
        decreases NOTATION_COUNT - k,
    {
        let (text, _) = notation(k);
        let found = has_at(s, i, &text);
        proof {
            if i + text.len() <= s.len() {
                assert(rest.subrange(0, text@.len() as int) =~= s@.subrange(
                    i as int,
                    i + text@.len(),
                ));
            }
        }
        if found {
            return k;
        }
        k += 1;
    }
    k
}

/// Replaces the notations `\x1b`, `\n`, `\t`, `\r`, `\"`, `\'` and `\\` by
/// the escape character, newline, tab, carriage return, double quote, single
/// quote and backslash. The text is read once from the left, so what a
/// notation has given is never read again as part of another.
pub fn parse_escape_sequences(input: &str) -> (out: String)
    ensures
        out@ == unescaped(input@),
{
    let s = chars_of(input);
    let mut out: Vec<char> = Vec::new();
    let mut i: usize = 0;
    proof {
        assert(s@.skip(0) =~= s@);
        assert(out@ + unescaped(s@) =~= unescaped(s@));
    }
    while i < s.len()
        invariant
            i <= s.len(),
            s@ == input@,
            out@ + unescaped(s@.skip(i as int)) == unescaped(input@),
        decreases s.len() - i,
    {
        let ghost rest = s@.skip(i as int);
        let ghost before = out@;
        let k = notation_starting(&s, i);
        if k < NOTATION_COUNT {
            let (text, to) = notation(k);
            proof {
                lemma_notation_from(rest, 0);
                lemma_notation_shape(k as int, k as int);
                assert(rest.skip(notation_len(k as int) as int) =~= s@.skip(i + text@.len()));
            }
            out.push(to[0]);
            proof {
                assert(out@ + unescaped(s@.skip(i + text@.len())) =~= before + (seq![
                    notation_char(k as int),
                ] + unescaped(s@.skip(i + text@.len()))));
            }
            i += text.len();
        } else {
            proof {
                assert(rest.skip(1) =~= s@.skip(i + 1));
                assert(rest[0] == s@[i as int]);
            }
            out.push(s[i]);
            proof {
                assert(out@ + unescaped(s@.skip(i + 1)) =~= before + (seq![s@[i as int]]
                    + unescaped(s@.skip(i + 1))));
            }
            i += 1;
        }
    }
    proof {
        assert(s@.skip(s.len() as int) =~= Seq::<char>::empty());
        assert(out@ + Seq::<char>::empty() =~= out@);
    }
    string_of(&out)
}

/// Whether `s` holds no backslash.
pub open spec fn no_backslash(s: Seq<char>) -> bool {
    forall|i: int| 0 <= i < s.len() ==> #[trigger] s[i] != '\\'
}

/// A text without a backslash holds no notation and is not altered.
pub proof fn law_plain_text_unaltered(s: Seq<char>)
    requires
        no_backslash(s),
    ensures
        unescaped(s) == s,
    decreases s.len(),
{
    if s.len() > 0 {
        assert(s[0] != '\\');
        lemma_no_notation_at(s);
        assert forall|i: int| 0 <= i < s.skip(1).len() implies #[trigger] s.skip(1)[i] != '\\' by {
            assert(s.skip(1)[i] == s[i + 1]);
        }
        law_plain_text_unaltered(s.skip(1));
        assert(seq![s[0]] + s.skip(1) =~= s);
    }
}

/// A notation written behind a text without a backslash becomes the
/// character it stands for; the text before it is not altered, and what
/// follows is read on its own, whatever it is.
pub proof fn law_notation_replaced(a: Seq<char>, k: int, b: Seq<char>)
    requires
        0 <= k < NOTATION_COUNT,
        no_backslash(a),
    ensures
        unescaped(a + notation_text(k) + b) == a + seq![notation_char(k)] + unescaped(b),
    decreases a.len(),
{
    let t = a + notation_text(k) + b;
    lemma_notation_shape(k, k);
    if a.len() == 0 {
        assert(t.subrange(0, notation_text(k).len() as int) =~= notation_text(k));
        lemma_notation_at_is(t, k);
        assert(t.skip(notation_len(k) as int) =~= b);
        assert(a + seq![notation_char(k)] + unescaped(b) =~= seq![notation_char(k)] + unescaped(
            b,
        ));
    } else {
        assert(t[0] == a[0]);
        lemma_no_notation_at(t);
        assert(t.skip(1) =~= a.skip(1) + notation_text(k) + b);
        assert forall|i: int| 0 <= i < a.skip(1).len() implies #[trigger] a.skip(1)[i] != '\\' by {
            assert(a.skip(1)[i] == a[i + 1]);
        }
        law_notation_replaced(a.skip(1), k, b);
        assert(seq![a[0]] + (a.skip(1) + seq![notation_char(k)] + unescaped(b)) =~= a + seq![
            notation_char(k),
        ] + unescaped(b));
    }
}

} // verus!
