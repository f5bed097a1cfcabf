//! Laying a logo block and an info block side by side.

use vstd::prelude::*;
use crate::color::{is_painted, reopened, style_reset, tint_start, Tint};
use crate::lines::{lines_of, split_lines};
use crate::text::{chars_of, extend_chars, occurs_at, string_of, string_views, views};

verus! {

/// The characters that take up a column of the logo: the lower and upper
/// half blocks and the space. Everything else, the characters of a colour
/// sequence among it, takes up none.
pub open spec fn is_visible(c: char) -> bool {
    c == '\u{2584}' || c == '\u{2580}' || c == ' '
}

/// How many characters of `s` are visible.
pub open spec fn visible_width(s: Seq<char>) -> nat
    decreases s.len(),
{
    if s.len() == 0 {
        0
    } else {
        visible_width(s.drop_last()) + if is_visible(s.last()) {
            1nat
        } else {
            0nat
        }
    }
}

/// The largest visible width among `lines`, 0 if there are none.
pub open spec fn widest(lines: Seq<Seq<char>>) -> nat
    decreases lines.len(),
{
    if lines.len() == 0 {
        0
    } else {
        let rest = widest(lines.drop_last());
        let w = visible_width(lines.last());
        if w > rest {
            w
        } else {
            rest
        }
    }
}

/// `n` spaces.
pub open spec fn spaces(n: nat) -> Seq<char> {
    Seq::new(n, |i: int| ' ')
}

/// How many rows two blocks of `logo_n` and `info_n` lines take together.
pub open spec fn row_count(logo_n: nat, info_n: nat) -> nat {
    if logo_n >= info_n {
        logo_n
    } else {
        info_n
    }
}

/// How many empty rows stand above a logo of `logo_n` lines beside an info
/// block of `info_n` lines: half of what the logo is shorter by, rounded down.
pub open spec fn top_padding(logo_n: nat, info_n: nat) -> nat {
    if logo_n < info_n {
        ((info_n - logo_n) / 2) as nat
    } else {
        0
    }
}

/// What the logo shows in row `i`: its line `i - pad`, or nothing above and
/// below it.
pub open spec fn logo_cell(logo: Seq<Seq<char>>, pad: nat, i: int) -> Seq<char> {
    if pad <= i < pad + logo.len() {
        logo[i - pad]
    } else {
        Seq::empty()
    }
}

/// What the info block shows in row `i`: its line `i`, or nothing below it.
pub open spec fn info_cell(info: Seq<Seq<char>>, i: int) -> Seq<char> {
    if 0 <= i < info.len() {
        info[i]
    } else {
        Seq::empty()
    }
}

/// The spaces between a logo cell and the info cell: as many as the cell is
/// narrower than the widest logo line, none if it is not.
pub open spec fn gap(width: nat, cell: Seq<char>) -> nat {
    let w = visible_width(cell);
    if width >= w {
        (width - w) as nat
    } else {
        0
    }
}

/// Row `i` of the two blocks side by side.
pub open spec fn row(logo: Seq<Seq<char>>, info: Seq<Seq<char>>, i: int) -> Seq<char> {
    let cell = logo_cell(logo, top_padding(logo.len(), info.len()), i);
    cell + spaces(gap(widest(logo), cell)) + info_cell(info, i)
}

/// All rows of the two blocks of lines side by side.
pub open spec fn rows_of(logo: Seq<Seq<char>>, info: Seq<Seq<char>>) -> Seq<Seq<char>> {
    Seq::new(row_count(logo.len(), info.len()), |i: int| row(logo, info, i))
}

/// Counts the visible characters of a line.
pub fn visible_count(line: &Vec<char>) -> (n: usize)
    ensures
        n == visible_width(line@),
{
    let mut n: usize = 0;
    let mut i: usize = 0;
    while i < line.len()
        invariant
            i <= line.len(),
            n <= i,
            n == visible_width(line@.take(i as int)),
        decreases line.len() - i,
    {
        proof {
            assert(line@.take(i + 1).drop_last() =~= line@.take(i as int));
        }
        let c = line[i];
        if c == '\u{2584}' || c == '\u{2580}' || c == ' ' {
            n += 1;
        }
        i += 1;
    }
    proof {
        assert(line@.take(line.len() as int) =~= line@);
    }
    n
}

/// The number of visible characters in `s`: those of the logo's glyphs and
/// spaces, whatever colour sequences stand between them.
pub fn count_visible_chars(s: &str) -> (n: usize)
    ensures
        n == visible_width(s@),
{
    let chars = chars_of(s);
    visible_count(&chars)
}

/// The largest visible width among the lines.
pub fn widest_line(lines: &Vec<Vec<char>>) -> (w: usize)
    ensures
        w == widest(views(lines@)),
{
    let mut w: usize = 0;
    let mut i: usize = 0;
    while i < lines.len()
        invariant
            i <= lines.len(),
            w == widest(views(lines@).take(i as int)),
        decreases lines.len() - i,
    {
        proof {
            assert(views(lines@).take(i + 1).drop_last() =~= views(lines@).take(i as int));
            assert(views(lines@).take(i + 1).last() == lines@[i as int]@);
        }
        let n = visible_count(&lines[i]);
        if n > w {
            w = n;
        }
        i += 1;
    }
    proof {
        assert(views(lines@).take(lines.len() as int) =~= views(lines@));
    }
    w
}

/// Appends `n` spaces to `out`.
fn push_spaces(out: &mut Vec<char>, n: usize)
    ensures
        final(out)@ == old(out)@ + spaces(n as nat),
{
    let mut k: usize = 0;
    proof {
        assert(out@ =~= old(out)@ + spaces(0));
    }
    while k < n
        invariant
            k <= n,
            out@ == old(out)@ + spaces(k as nat),
        decreases n - k,
    {
        out.push(' ');
        proof {
            assert(out@ =~= old(out)@ + spaces((k + 1) as nat));
        }
        k += 1;
    }
}

/// Lays the lines of a logo and of an info block side by side, row by row.
/// There are as many rows as the longer block has lines. A shorter logo is
/// centred vertically; each logo cell is filled up with spaces to the visible
/// width of the widest logo line, so that the info cells start in one column.
pub fn lay_out(logo: &Vec<Vec<char>>, info: &Vec<Vec<char>>) -> (out: Vec<Vec<char>>)
    ensures
        views(out@) == rows_of(views(logo@), views(info@)),
        out@.len() == row_count(logo@.len() as nat, info@.len() as nat),
{
    let logo_n = logo.len();
    let info_n = info.len();
    let max_lines = if logo_n >= info_n {
        logo_n
    } else {
        info_n
    };
    let width = widest_line(logo);
    let pad = if logo_n < max_lines {
        (max_lines - logo_n) / 2
    } else {
        0
    };
    let ghost lv = views(logo@);
    let ghost iv = views(info@);
    let mut out: Vec<Vec<char>> = Vec::new();
    let mut i: usize = 0;
    while i < max_lines
        invariant
            i <= max_lines,
            logo_n == logo.len(),
            info_n == info.len(),
            lv == views(logo@),
            iv == views(info@),
            max_lines == row_count(lv.len(), iv.len()),
            pad == top_padding(lv.len(), iv.len()),
            pad + logo_n <= max_lines,
            width == widest(lv),
            out@.len() == i,
            forall|j: int| 0 <= j < i ==> (#[trigger] out@[j])@ == row(lv, iv, j),
        decreases max_lines - i,
    {
        let mut line: Vec<char> = Vec::new();
        let mut seen: usize = 0;
        if i >= pad && i < pad + logo_n {
            extend_chars(&mut line, &logo[i - pad]);
            seen = visible_count(&logo[i - pad]);
        }
        proof {
            assert(line@ =~= logo_cell(lv, pad as nat, i as int));
        }
        let fill = if width >= seen {
            width - seen
        } else {
            0
        };
        push_spaces(&mut line, fill);
        if i < info_n {
            extend_chars(&mut line, &info[i]);
        }
        proof {
            assert(line@ =~= row(lv, iv, i as int));
        }
        out.push(line);
        i += 1;
    }
    proof {
        assert(views(out@) =~= rows_of(lv, iv));
    }
    out
}

/// The rows that show `logo` and `info` side by side.
pub open spec fn rendered_rows(logo: Seq<char>, info: Seq<char>) -> Seq<Seq<char>> {
    rows_of(lines_of(logo), lines_of(info))
}

/// `rows` one after another, each followed by a newline.
pub open spec fn with_newlines(rows: Seq<Seq<char>>) -> Seq<char>
    decreases rows.len(),
{
    if rows.len() == 0 {
        Seq::empty()
    } else {
        with_newlines(rows.drop_last()) + rows.last() + seq!['\n']
    }
}

/// The rows that show `logo` beside `info`: as many as the block with more
/// lines has, the logo centred vertically, the info lines starting in the
/// column after the widest logo line.
pub fn render_rows(logo: &str, info: &str) -> (out: Vec<String>)
    ensures
        string_views(out@) == rendered_rows(logo@, info@),
        out@.len() == row_count(lines_of(logo@).len(), lines_of(info@).len()),
{
    let logo_lines = split_lines(&chars_of(logo));
    let info_lines = split_lines(&chars_of(info));
    let rows = lay_out(&logo_lines, &info_lines);
    let mut out: Vec<String> = Vec::new();
    let mut i: usize = 0;
    while i < rows.len()
        invariant
            i <= rows.len(),
            out@.len() == i,
            forall|j: int| 0 <= j < i ==> (#[trigger] out@[j])@ == rows@[j]@,
        decreases rows.len() - i,
    {
        out.push(string_of(&rows[i]));
        i += 1;
    }
    proof {
        assert(string_views(out@) =~= views(rows@));
    }
    out
}

/// The text that shows `logo` beside `info`: the rows of `render_rows`, each
/// followed by a newline.
pub fn render_fetch(logo: &str, info: &str) -> (out: String)
    ensures
        out@ == with_newlines(rendered_rows(logo@, info@)),
{
    let logo_lines = split_lines(&chars_of(logo));
    let info_lines = split_lines(&chars_of(info));
    let rows = lay_out(&logo_lines, &info_lines);
    let mut buf: Vec<char> = Vec::new();
    let mut i: usize = 0;
    proof {
        assert(views(rows@).take(0) =~= Seq::<Seq<char>>::empty());
    }
    while i < rows.len()
        invariant
            i <= rows.len(),
            buf@ == with_newlines(views(rows@).take(i as int)),
        decreases rows.len() - i,
    {
        proof {
            assert(views(rows@).take(i + 1).drop_last() =~= views(rows@).take(i as int));
            assert(views(rows@).take(i + 1).last() == rows@[i as int]@);
        }
        extend_chars(&mut buf, &rows[i]);
        buf.push('\n');
        i += 1;
    }
    proof {
        assert(views(rows@).take(rows.len() as int) =~= views(rows@));
    }
    string_of(&buf)
}

/// The visible width of two texts put together is the sum of their widths.
pub proof fn lemma_visible_width_concat(a: Seq<char>, b: Seq<char>)
    ensures
        visible_width(a + b) == visible_width(a) + visible_width(b),
    decreases b.len(),
{
    if b.len() == 0 {
        assert(a + b =~= a);
    } else {
        lemma_visible_width_concat(a, b.drop_last());
        assert((a + b).drop_last() =~= a + b.drop_last());
        assert((a + b).last() == b.last());
    }
}

/// A text without a visible character has no width.
pub proof fn lemma_invisible_text(s: Seq<char>)
    requires
        forall|i: int| 0 <= i < s.len() ==> !is_visible(#[trigger] s[i]),
    ensures
        visible_width(s) == 0,
    decreases s.len(),
{
    if s.len() > 0 {
        assert(!is_visible(s[s.len() - 1]));
        assert forall|i: int| 0 <= i < s.drop_last().len() implies !is_visible(
            #[trigger] s.drop_last()[i],
        ) by {
            assert(s.drop_last()[i] == s[i]);
        }
        lemma_invisible_text(s.drop_last());
    }
}

/// `n` spaces are `n` columns wide.
pub proof fn lemma_spaces_width(n: nat)
    ensures
        visible_width(spaces(n)) == n,
    decreases n,
{
    if n > 0 {
        lemma_spaces_width((n - 1) as nat);
        assert(spaces(n).drop_last() =~= spaces((n - 1) as nat));
        assert(spaces(n).last() == ' ');
    }
}

/// No line is wider than the widest.
pub proof fn lemma_widest_bounds(lines: Seq<Seq<char>>, k: int)
    requires
        0 <= k < lines.len(),
    ensures
        visible_width(lines[k]) <= widest(lines),
    decreases lines.len(),
{
    if k < lines.len() - 1 {
        lemma_widest_bounds(lines.drop_last(), k);
        assert(lines.drop_last()[k] == lines[k]);
    }
}

/// Whether `s` is a colour sequence: the escape character, `[`, any number
/// of digits and semicolons, and `m`.
pub open spec fn is_colour_sequence(s: Seq<char>) -> bool {
    &&& s.len() >= 3
    &&& s[0] == '\x1b'
    &&& s[1] == '['
    &&& s.last() == 'm'
    &&& forall|i: int| 2 <= i < s.len() - 1 ==> ('0' <= #[trigger] s[i] <= '9' || s[i] == ';')
}

/// Colour sequences take up no column: a text is as wide with a colour
/// sequence inside it as without.
pub proof fn law_colour_sequence_has_no_width(before: Seq<char>, sequence: Seq<char>, after: Seq<char>)
    requires
        is_colour_sequence(sequence),
    ensures
        visible_width(before + sequence + after) == visible_width(before + after),
{
    assert forall|i: int| 0 <= i < sequence.len() implies !is_visible(#[trigger] sequence[i]) by {
        if 2 <= i < sequence.len() - 1 {
        }
    }
    lemma_invisible_text(sequence);
    lemma_visible_width_concat(before, sequence);
    lemma_visible_width_concat(before + sequence, after);
    lemma_visible_width_concat(before, after);
}

/// The rows are as many as the block with more lines has, whatever the two
/// texts are; a text without a character has no lines.
pub proof fn law_row_count(logo: Seq<char>, info: Seq<char>)
    ensures
        rendered_rows(logo, info).len() == row_count(lines_of(logo).len(), lines_of(info).len()),
        rendered_rows(logo, info).len() >= lines_of(logo).len(),
        rendered_rows(logo, info).len() >= lines_of(info).len(),
        lines_of(Seq::empty()).len() == 0,
        rendered_rows(Seq::empty(), info).len() == lines_of(info).len(),
        rendered_rows(logo, Seq::empty()).len() == lines_of(logo).len(),
{
}

/// The logo is centred: its lines stand in consecutive rows, the rows above
/// them hold no logo, no more rows are left below than above plus one and
/// no fewer than above, and beside a block that is not longer the logo
/// starts in the first row.
pub proof fn law_logo_is_centred(logo: Seq<Seq<char>>, info: Seq<Seq<char>>)
    ensures
        ({
            let pad = top_padding(logo.len(), info.len());
            let below = row_count(logo.len(), info.len()) - pad - logo.len();
            &&& pad <= below <= pad + 1
            &&& info.len() <= logo.len() ==> pad == 0
            &&& forall|k: int| 0 <= k < logo.len() ==> #[trigger] logo_cell(logo, pad, pad + k) == logo[k]
            &&& forall|i: int| 0 <= i < pad ==> #[trigger] logo_cell(logo, pad, i) == Seq::<char>::empty()
            &&& forall|i: int|
                pad + logo.len() <= i ==> #[trigger] logo_cell(logo, pad, i) == Seq::<char>::empty()
        }),
{
}

/// The info cells start in one column: in every row the logo cell and the
/// spaces behind it are together as wide as the widest logo line.
pub proof fn law_info_column(logo: Seq<Seq<char>>, info: Seq<Seq<char>>, i: int)
    ensures
        ({
            let cell = logo_cell(logo, top_padding(logo.len(), info.len()), i);
            &&& visible_width(cell) <= widest(logo)
            &&& visible_width(cell + spaces(gap(widest(logo), cell))) == widest(logo)
        }),
{
    let pad = top_padding(logo.len(), info.len());
    let cell = logo_cell(logo, pad, i);
    if pad <= i < pad + logo.len() {
        lemma_widest_bounds(logo, i - pad);
    }
    lemma_spaces_width(gap(widest(logo), cell));
    lemma_visible_width_concat(cell, spaces(gap(widest(logo), cell)));
}

/// Switching a tint on again behind the resets of a text adds nothing to
/// its visible width, where the tint's start sequence has none.
pub proof fn lemma_reopened_width(text: Seq<char>, start: Seq<char>)
    requires
        visible_width(start) == 0,
    ensures
        visible_width(reopened(text, start)) == visible_width(text),
    decreases text.len(),
{
    let reset = style_reset();
    if text.len() < 4 {
    } else if occurs_at(text, 0, reset) {
        let rest = text.skip(4);
        assert(text =~= reset + rest);
        lemma_reopened_width(rest, start);
        lemma_visible_width_concat(reset, rest);
        lemma_visible_width_concat(reset, start);
        lemma_visible_width_concat(reset + start, reopened(rest, start));
    } else {
        assert(text =~= seq![text[0]] + text.skip(1));
        lemma_reopened_width(text.skip(1), start);
        lemma_visible_width_concat(seq![text[0]], text.skip(1));
        lemma_visible_width_concat(seq![text[0]], reopened(text.skip(1), start));
    }
}

/// Painting a text does not change its visible width, whether colours are
/// switched on or off.
pub proof fn law_painting_keeps_width(out: Seq<char>, text: Seq<char>, tint: Tint)
    requires
        is_painted(out, text, tint),
    ensures
        visible_width(out) == visible_width(text),
{
    let start = tint_start(tint);
    let reset = style_reset();
    assert forall|i: int| 0 <= i < start.len() implies !is_visible(#[trigger] start[i]) by {}
    assert forall|i: int| 0 <= i < reset.len() implies !is_visible(#[trigger] reset[i]) by {}
    lemma_invisible_text(start);
    lemma_invisible_text(reset);
    lemma_reopened_width(text, start);
    let inner = reopened(text, start);
    lemma_visible_width_concat(start, inner);
    lemma_visible_width_concat(start + inner, reset);
}

} // verus!
