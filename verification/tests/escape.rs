use meowfetch::escape::parse_escape_sequences;

#[test]
fn unescape_each_notation() {
    assert_eq!(parse_escape_sequences("\\x1b"), "\x1b");
    assert_eq!(parse_escape_sequences("\\n"), "\n");
    assert_eq!(parse_escape_sequences("\\t"), "\t");
    assert_eq!(parse_escape_sequences("\\r"), "\r");
    assert_eq!(parse_escape_sequences("\\\""), "\"");
    assert_eq!(parse_escape_sequences("\\'"), "'");
    assert_eq!(parse_escape_sequences("\\\\"), "\\");
}

#[test]
fn unescape_leaves_other_text() {
    assert_eq!(parse_escape_sequences(""), "");
    assert_eq!(parse_escape_sequences("plain ▄▀ text"), "plain ▄▀ text");
    assert_eq!(parse_escape_sequences("a\\x1b[31m▄\\x1b[0mb\\nc"), "a\x1b[31m▄\x1b[0mb\nc");
    assert_eq!(parse_escape_sequences("\\q\\x1"), "\\q\\x1");
    assert_eq!(parse_escape_sequences("a\\"), "a\\");
    assert_eq!(parse_escape_sequences("\\xx1b"), "\\xx1b");
    assert_eq!(parse_escape_sequences("\\x1\\x1b"), "\\x1\x1b");
}

#[test]
fn unescape_reads_once_from_the_left() {
    // An escaped backslash is read first; the letter behind it stays a letter.
    assert_eq!(parse_escape_sequences("\\\\n"), "\\n");
    assert_eq!(parse_escape_sequences("\\\\t"), "\\t");
    assert_eq!(parse_escape_sequences("\\\\x1b"), "\\x1b");
    assert_eq!(parse_escape_sequences("\\\\\\n"), "\\\n");
    assert_eq!(parse_escape_sequences("\\\\\\\\"), "\\\\");
    assert_eq!(parse_escape_sequences("\\\\\\\\n"), "\\\\n");
    assert_eq!(parse_escape_sequences("\\\\\\"), "\\\\");
    assert_eq!(parse_escape_sequences("\\\\ n"), "\\ n");
}

#[test]
fn unescape_many_notations_among_plain_text() {
    assert_eq!(
        parse_escape_sequences("a\\tb\\nc\\\\ d\\\"e\\'f\\rg\\x1b[0m\\\\"),
        "a\tb\nc\\ d\"e'f\rg\x1b[0m\\"
    );
    assert_eq!(parse_escape_sequences("\\\\\\\"\\\\\\\\\\n"), "\\\"\\\\\n");
    assert_eq!(parse_escape_sequences("\\n\\n\\n"), "\n\n\n");
}

fn write_out(text: &str) -> String {
    let mut out = String::new();
    for c in text.chars() {
        match c {
            '\x1b' => out.push_str("\\x1b"),
            '\n' => out.push_str("\\n"),
            '\t' => out.push_str("\\t"),
            '\r' => out.push_str("\\r"),
            '"' => out.push_str("\\\""),
            '\'' => out.push_str("\\'"),
            '\\' => out.push_str("\\\\"),
            other => out.push(other),
        }
    }
    out
}

#[test]
fn unescape_reads_back_what_was_written_out() {
    let samples = vec![
        "",
        "plain",
        "\\n",
        "\\\\n",
        "\\x1b",
        "a\\\\\\tb",
        "\x1b[38;2;0;0;0m▄\x1b[0m\n\x1b[31m▀\x1b[0m",
        "tab\there, quote \" and ' and \\ and \r\n",
        "\\\"\\'\\\\",
        "x1b\\x1bn\\nt",
    ];
    for text in samples {
        assert_eq!(parse_escape_sequences(&write_out(text)), text, "reading back {:?}", text);
    }
}
