use meowfetch::art::{CAT_ART_1, CAT_ART_2, CAT_ART_3};
use meowfetch::decimal::parse_usize;
use meowfetch::layout::{count_visible_chars, render_rows};
use meowfetch::logo::{builtin_logo, choose_logo, load_logo_from_config, logo_type};

fn args(list: &[&str]) -> Vec<String> {
    list.iter().map(|s| s.to_string()).collect()
}

fn chars(s: &str) -> Vec<char> {
    s.chars().collect()
}

#[test]
fn builtin_logo_by_type() {
    assert_eq!(builtin_logo(1), CAT_ART_3);
    assert_eq!(builtin_logo(2), CAT_ART_2);
    assert_eq!(builtin_logo(3), CAT_ART_1);
    assert_eq!(builtin_logo(0), CAT_ART_3);
    assert_eq!(builtin_logo(4), CAT_ART_3);
    assert_eq!(builtin_logo(usize::MAX), CAT_ART_3);
}

#[test]
fn builtin_logos_have_even_rows() {
    for (art, rows, width) in vec![(CAT_ART_1, 9, 21), (CAT_ART_2, 9, 18), (CAT_ART_3, 13, 30)] {
        let lines: Vec<&str> = art.lines().collect();
        assert_eq!(lines.len(), rows);
        for line in lines {
            assert_eq!(count_visible_chars(line), width);
        }
        assert_eq!(render_rows(art, "").len(), rows);
    }
}

#[test]
fn empty_or_missing_config_asks_for_nothing() {
    assert_eq!(load_logo_from_config(Some("")), None);
    assert_eq!(load_logo_from_config(None), None);
}

#[test]
fn config_of_white_space_is_a_logo() {
    assert_eq!(load_logo_from_config(Some(" \n")), Some(" \n".to_string()));
    assert_eq!(load_logo_from_config(Some(" ")), Some(" ".to_string()));
    assert_eq!(load_logo_from_config(Some("\n")), Some("\n".to_string()));
    assert_eq!(load_logo_from_config(Some("  \n\t \r\n")), Some("  \n\t \r\n".to_string()));
}

#[test]
fn config_is_unescaped() {
    assert_eq!(
        load_logo_from_config(Some("\\x1b[31m▄▄\\x1b[0m\\n▀▀\n")),
        Some("\x1b[31m▄▄\x1b[0m\n▀▀\n".to_string())
    );
    assert_eq!(load_logo_from_config(Some(" x ")), Some(" x ".to_string()));
}

#[test]
fn choose_logo_prefers_the_config() {
    assert_eq!(choose_logo(Some("my\\tcat"), 2), "my\tcat");
    assert_eq!(choose_logo(Some("   "), 2), "   ");
    assert_eq!(choose_logo(Some(""), 2), CAT_ART_2);
    assert_eq!(choose_logo(Some(""), 3), CAT_ART_1);
    assert_eq!(choose_logo(None, 1), CAT_ART_3);
    assert_eq!(choose_logo(None, 99), CAT_ART_3);
}

#[test]
fn parse_usize_like_std() {
    let samples = vec![
        "", "+", "-", "0", "1", "2", "007", "+3", "++3", "-3", "12a", " 1", "1 ", "٣", "1_000",
        "18446744073709551615", "18446744073709551616", "99999999999999999999999", "4294967295",
        "4294967296", "+0", "00000000000000000000000000000000001",
    ];
    for s in samples {
        assert_eq!(parse_usize(&chars(s)), s.parse::<usize>().ok(), "parsing {:?}", s);
    }
}

#[test]
fn logo_type_from_arguments() {
    assert_eq!(logo_type(&args(&["meow"])), 1);
    assert_eq!(logo_type(&args(&[])), 1);
    assert_eq!(logo_type(&args(&["meow", "-t"])), 1);
    assert_eq!(logo_type(&args(&["meow", "-t", "2"])), 2);
    assert_eq!(logo_type(&args(&["meow", "--type", "3"])), 3);
    assert_eq!(logo_type(&args(&["meow", "--type", "42", "more"])), 42);
    assert_eq!(logo_type(&args(&["meow", "-t", "two"])), 1);
    assert_eq!(logo_type(&args(&["meow", "-t", "-2"])), 1);
    assert_eq!(logo_type(&args(&["meow", "-T", "2"])), 1);
    assert_eq!(logo_type(&args(&["meow", "--typ", "2"])), 1);
    assert_eq!(logo_type(&args(&["meow", "x", "-t", "2"])), 1);
    assert_eq!(logo_type(&args(&["meow", "-t", "99999999999999999999999"])), 1);
}
