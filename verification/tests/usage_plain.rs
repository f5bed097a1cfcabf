use meowfetch::usage::{
    colorize_percentage, emphasis, format_usage, push_gib, push_percent, usage_status, Emphasis,
    GIB,
};

fn gib(bytes: u64) -> String {
    let mut out: Vec<char> = Vec::new();
    push_gib(&mut out, bytes);
    out.into_iter().collect()
}

fn percent(part: u64, whole: u64) -> String {
    let mut out: Vec<char> = Vec::new();
    push_percent(&mut out, part, whole);
    out.into_iter().collect()
}

#[test]
fn emphasis_boundaries() {
    assert_eq!(emphasis(499, 1000), Emphasis::Low);
    assert_eq!(emphasis(500, 1000), Emphasis::Medium);
    assert_eq!(emphasis(899, 1000), Emphasis::Medium);
    assert_eq!(emphasis(900, 1000), Emphasis::High);
    assert_eq!(emphasis(0, 1000), Emphasis::Low);
    assert_eq!(emphasis(1000, 1000), Emphasis::High);
    assert_eq!(emphasis(2000, 1000), Emphasis::High);
}

#[test]
fn emphasis_goes_by_the_exact_share() {
    // 49.96 percent is displayed as 50.0% but is still below one half.
    assert_eq!(emphasis(4996, 10000), Emphasis::Low);
    assert_eq!(percent(4996, 10000), "50.0%");
    assert_eq!(emphasis(u64::MAX / 2, u64::MAX), Emphasis::Low);
    assert_eq!(emphasis(u64::MAX, u64::MAX), Emphasis::High);
}

#[test]
fn emphasis_of_nothing_is_low() {
    assert_eq!(emphasis(0, 0), Emphasis::Low);
    assert_eq!(emphasis(5, 0), Emphasis::Low);
    assert_eq!(percent(0, 0), "0.0%");
    assert_eq!(percent(5, 0), "0.0%");
}

#[test]
fn gib_exact_values() {
    assert_eq!(gib(0), "0.00");
    assert_eq!(gib(GIB), "1.00");
    assert_eq!(gib(8 * GIB), "8.00");
    assert_eq!(gib(16 * GIB), "16.00");
    assert_eq!(gib(GIB / 2), "0.50");
    assert_eq!(gib(GIB + GIB / 4), "1.25");
    assert_eq!(gib(u64::MAX), "17179869184.00");
}

#[test]
fn gib_ties_go_to_even() {
    // 1/8 GiB is 0.125, 3/8 GiB is 0.375.
    assert_eq!(gib(GIB / 8), "0.12");
    assert_eq!(gib(3 * (GIB / 8)), "0.38");
}

#[test]
fn gib_agrees_with_float_formatting() {
    let samples: Vec<u64> = vec![
        0,
        1,
        5368709,
        5368710,
        123456789,
        GIB / 8,
        3 * (GIB / 8),
        5 * (GIB / 8),
        GIB - 1,
        GIB,
        GIB + 1,
        17_000_000_000,
        549_755_813_888,
        1_000_000_000_000,
        8_796_093_022_208,
    ];
    for bytes in samples {
        let want = format!("{:.2}", bytes as f64 / (1024.0 * 1024.0 * 1024.0));
        assert_eq!(gib(bytes), want);
    }
}

#[test]
fn percent_exact_values() {
    assert_eq!(percent(8 * GIB, 16 * GIB), "50.0%");
    assert_eq!(percent(1, 3), "33.3%");
    assert_eq!(percent(2, 3), "66.7%");
    assert_eq!(percent(1, 1), "100.0%");
    assert_eq!(percent(3, 2), "150.0%");
    assert_eq!(percent(0, 7), "0.0%");
    assert_eq!(percent(1, 8), "12.5%");
}

#[test]
fn percent_ties_go_to_even() {
    assert_eq!(percent(1225, 10000), "12.2%");
    assert_eq!(percent(1235, 10000), "12.4%");
}

#[test]
fn percent_agrees_with_float_formatting() {
    let samples: Vec<(u64, u64)> = vec![
        (1, 3),
        (2, 3),
        (1, 7),
        (499, 1000),
        (500, 1000),
        (899, 1000),
        (900, 1000),
        (7_340_032_000, 16_777_216_000),
        (123_456_789, 987_654_321),
    ];
    for (part, whole) in samples {
        let want = format!("{:.1}%", (part as f64 / whole as f64) * 100.0);
        assert_eq!(percent(part, whole), want);
    }
}

#[test]
fn colorize_percentage_without_colours() {
    colored::control::set_override(false);
    assert_eq!(colorize_percentage(1, 4), "25.0%");
    assert_eq!(colorize_percentage(3, 4), "75.0%");
    assert_eq!(colorize_percentage(19, 20), "95.0%");
}

#[test]
fn format_usage_puts_the_percentage_in_brackets() {
    assert_eq!(format_usage(8 * GIB, 16 * GIB, "half"), "8.00 >> 16.00 GB (half)");
    assert_eq!(format_usage(0, 0, ""), "0.00 >> 0.00 GB ()");
}

#[test]
fn usage_status_without_colours() {
    colored::control::set_override(false);
    assert_eq!(usage_status(8 * GIB, 16 * GIB), "8.00 >> 16.00 GB (50.0%)");
    assert_eq!(usage_status(0, 0), "0.00 >> 0.00 GB (0.0%)");
}
