use meowfetch::layout::{count_visible_chars, lay_out, render_fetch, render_rows, widest_line};
use meowfetch::lines::split_lines;

fn chars(s: &str) -> Vec<char> {
    s.chars().collect()
}

fn lines(s: &str) -> Vec<String> {
    split_lines(&chars(s)).into_iter().map(|l| l.into_iter().collect()).collect()
}

#[test]
fn split_lines_like_std() {
    let samples = vec![
        "",
        "\n",
        "a",
        "a\n",
        "a\nb",
        "a\n\nb\n",
        "\n\n",
        "a\r\nb\r\n",
        "a\rb\n",
        "a\r",
        "a\r\r\n",
        "\r\n",
        "x\n\r",
    ];
    for s in samples {
        let want: Vec<String> = s.lines().map(|l| l.to_string()).collect();
        assert_eq!(lines(s), want, "lines of {:?}", s);
    }
}

#[test]
fn split_lines_exact() {
    assert_eq!(lines(""), Vec::<String>::new());
    assert_eq!(lines("one\ntwo\r\nthree"), vec!["one", "two", "three"]);
    assert_eq!(lines("\n"), vec![""]);
    assert_eq!(lines("end\r"), vec!["end\r"]);
}

#[test]
fn one_glyph_between_colour_sequences_has_width_one() {
    assert_eq!(count_visible_chars("\x1b[38;2;0;0;0m▄\x1b[0m"), 1);
    assert_eq!(count_visible_chars("\x1b[48;2;0;0;0m\x1b[38;2;47;29;12m▀\x1b[0m"), 1);
}

#[test]
fn visible_chars_are_half_blocks_and_spaces() {
    assert_eq!(count_visible_chars(""), 0);
    assert_eq!(count_visible_chars("   "), 3);
    assert_eq!(count_visible_chars("▄▀ ▄"), 4);
    assert_eq!(count_visible_chars("abc█"), 0);
    assert_eq!(count_visible_chars("  \x1b[31m▄▄\x1b[0m  x"), 6);
}

#[test]
fn widest_line_is_the_maximum() {
    assert_eq!(widest_line(&vec![]), 0);
    assert_eq!(widest_line(&vec![chars("▄"), chars("▄▄▄"), chars("▄▄")]), 3);
    assert_eq!(widest_line(&vec![chars("abc")]), 0);
}

#[test]
fn row_count_is_the_larger_line_count() {
    assert_eq!(render_rows("", "").len(), 0);
    assert_eq!(render_rows("▄", "").len(), 1);
    assert_eq!(render_rows("", "a\nb\nc").len(), 3);
    assert_eq!(render_rows("▄\n▄\n▄\n▄", "a\nb").len(), 4);
    assert_eq!(render_rows("▄\n▄", "a\nb\n").len(), 2);
    assert_eq!(render_rows("\n", "\n\n").len(), 2);
}

#[test]
fn two_line_logo_beside_six_lines_starts_in_third_row() {
    let rows = render_rows("▄▄\n▀▀", "1\n2\n3\n4\n5\n6");
    assert_eq!(rows, vec!["  1", "  2", "▄▄3", "▀▀4", "  5", "  6"]);
}

#[test]
fn odd_difference_rounds_padding_down() {
    let rows = render_rows("▄", "1\n2\n3\n4");
    assert_eq!(rows, vec![" 1", "▄2", " 3", " 4"]);
}

#[test]
fn taller_logo_is_not_padded() {
    let rows = render_rows("▄▄▄\n▄\n\n▄▄", "a\nb");
    assert_eq!(rows, vec!["▄▄▄a", "▄  b", "   ", "▄▄ "]);
}

#[test]
fn padding_goes_by_visible_width() {
    let rows = render_rows("\x1b[31m▄\x1b[0m\n▄▄▄", "x\ny");
    assert_eq!(rows, vec!["\x1b[31m▄\x1b[0m  x", "▄▄▄y"]);
}

#[test]
fn empty_logo_leaves_info_alone() {
    assert_eq!(render_rows("", "a\nb"), vec!["a", "b"]);
    assert_eq!(render_fetch("", "a\nb"), "a\nb\n");
}

#[test]
fn empty_info_leaves_padded_logo() {
    assert_eq!(render_rows("▄\n▄▄", ""), vec!["▄ ", "▄▄"]);
    assert_eq!(render_fetch("▄\n▄▄", ""), "▄ \n▄▄\n");
    assert_eq!(render_fetch("", ""), "");
}

#[test]
fn render_fetch_ends_each_row_with_a_newline() {
    assert_eq!(
        render_fetch("▄▄\n▀▀", "1\n2\n3\n4\n5\n6"),
        "  1\n  2\n▄▄3\n▀▀4\n  5\n  6\n"
    );
}

#[test]
fn lay_out_works_on_lines() {
    let logo = vec![chars("▄")];
    let info = vec![chars("a"), chars("b"), chars("c")];
    assert_eq!(lay_out(&logo, &info), vec![chars(" a"), chars("▄b"), chars(" c")]);
}
