use meowfetch::usage::{colorize_percentage, usage_status, GIB};

#[test]
fn colorize_percentage_low_is_green() {
    colored::control::set_override(true);
    assert_eq!(colorize_percentage(499, 1000), "\x1b[32m49.9%\x1b[0m");
    assert_eq!(colorize_percentage(0, 0), "\x1b[32m0.0%\x1b[0m");
}

#[test]
fn colorize_percentage_medium_is_yellow() {
    colored::control::set_override(true);
    assert_eq!(colorize_percentage(500, 1000), "\x1b[33m50.0%\x1b[0m");
    assert_eq!(colorize_percentage(899, 1000), "\x1b[33m89.9%\x1b[0m");
}

#[test]
fn colorize_percentage_high_is_red() {
    colored::control::set_override(true);
    assert_eq!(colorize_percentage(900, 1000), "\x1b[31m90.0%\x1b[0m");
    assert_eq!(colorize_percentage(1, 1), "\x1b[31m100.0%\x1b[0m");
}

#[test]
fn memory_half_used_is_medium() {
    colored::control::set_override(true);
    assert_eq!(
        usage_status(8 * GIB, 16 * GIB),
        "8.00 >> 16.00 GB (\x1b[33m50.0%\x1b[0m)"
    );
}
