use meowfetch::color::{paint, Hue, Tint};
use meowfetch::disk::{disk_line, Disk};
use meowfetch::info::{address_line, collect_info, labelled, palette_row, usage_line, SystemFacts};
use meowfetch::layout::render_fetch;
use meowfetch::network::{get_local_ip, Interface, IpAddress, IpNetwork};
use meowfetch::usage::GIB;

fn text(chars: Vec<char>) -> String {
    chars.into_iter().collect()
}

fn chars(s: &str) -> Vec<char> {
    s.chars().collect()
}

#[test]
fn paint_wraps_text_in_the_tint() {
    colored::control::set_override(true);
    assert_eq!(paint("x", Tint { hue: Hue::Black, bright: false }), "\x1b[30mx\x1b[0m");
    assert_eq!(paint("x", Tint { hue: Hue::Red, bright: false }), "\x1b[31mx\x1b[0m");
    assert_eq!(paint("x", Tint { hue: Hue::Green, bright: false }), "\x1b[32mx\x1b[0m");
    assert_eq!(paint("x", Tint { hue: Hue::Yellow, bright: false }), "\x1b[33mx\x1b[0m");
    assert_eq!(paint("x", Tint { hue: Hue::Blue, bright: false }), "\x1b[34mx\x1b[0m");
    assert_eq!(paint("x", Tint { hue: Hue::Magenta, bright: false }), "\x1b[35mx\x1b[0m");
    assert_eq!(paint("x", Tint { hue: Hue::Cyan, bright: false }), "\x1b[36mx\x1b[0m");
    assert_eq!(paint("x", Tint { hue: Hue::White, bright: false }), "\x1b[37mx\x1b[0m");
    assert_eq!(paint("x", Tint { hue: Hue::Black, bright: true }), "\x1b[90mx\x1b[0m");
    assert_eq!(paint("x", Tint { hue: Hue::Red, bright: true }), "\x1b[91mx\x1b[0m");
    assert_eq!(paint("x", Tint { hue: Hue::Green, bright: true }), "\x1b[92mx\x1b[0m");
    assert_eq!(paint("x", Tint { hue: Hue::Yellow, bright: true }), "\x1b[93mx\x1b[0m");
    assert_eq!(paint("x", Tint { hue: Hue::Blue, bright: true }), "\x1b[94mx\x1b[0m");
    assert_eq!(paint("x", Tint { hue: Hue::Magenta, bright: true }), "\x1b[95mx\x1b[0m");
    assert_eq!(paint("x", Tint { hue: Hue::Cyan, bright: true }), "\x1b[96mx\x1b[0m");
    assert_eq!(paint("x", Tint { hue: Hue::White, bright: true }), "\x1b[97mx\x1b[0m");
}

#[test]
fn paint_of_empty_text() {
    colored::control::set_override(true);
    assert_eq!(paint("", Tint { hue: Hue::Red, bright: false }), "\x1b[31m\x1b[0m");
}

#[test]
fn paint_switches_the_tint_on_again_after_a_reset() {
    colored::control::set_override(true);
    let red = Tint { hue: Hue::Red, bright: false };
    assert_eq!(paint("a\x1b[0mb", red), "\x1b[31ma\x1b[0m\x1b[31mb\x1b[0m");
    assert_eq!(
        paint("\x1b[0m\x1b[0m", red),
        "\x1b[31m\x1b[0m\x1b[31m\x1b[0m\x1b[31m\x1b[0m"
    );
    assert_eq!(paint("a\x1b[0", red), "\x1b[31ma\x1b[0\x1b[0m");
    let inner = paint("in", Tint { hue: Hue::Blue, bright: true });
    assert_eq!(
        paint(&format!("out {} out", inner), red),
        "\x1b[31mout \x1b[94min\x1b[0m\x1b[31m out\x1b[0m"
    );
}

#[test]
fn labels_are_bright_blue() {
    colored::control::set_override(true);
    assert_eq!(text(labelled("cpu ", &chars("Fast"))), "\x1b[94mcpu \x1b[0m: Fast");
}

#[test]
fn memory_line_half_used_is_yellow() {
    colored::control::set_override(true);
    assert_eq!(
        text(usage_line("mem ", 8 * GIB, 16 * GIB)),
        "\x1b[94mmem \x1b[0m: 8.00 >> 16.00 GB (\x1b[33m50.0%\x1b[0m)"
    );
}

#[test]
fn only_virtual_interface_reports_unknown() {
    colored::control::set_override(true);
    let only_virtual = vec![Interface {
        name: "VMware Network Adapter".to_string(),
        networks: vec![IpNetwork { addr: IpAddress::V4(192, 168, 56, 1), prefix: 24 }],
    }];
    assert_eq!(text(address_line(&only_virtual)), "\x1b[94mipv4\x1b[0m: unknown");
}

#[test]
fn palette_rows_in_both_shades() {
    colored::control::set_override(true);
    assert_eq!(
        text(palette_row(true)),
        "\x1b[91m███\x1b[0m\x1b[93m███\x1b[0m\x1b[92m███\x1b[0m\x1b[96m███\x1b[0m\x1b[94m███\x1b[0m\x1b[95m███\x1b[0m\x1b[90m███\x1b[0m\x1b[97m███\x1b[0m"
    );
    assert_eq!(
        text(palette_row(false)),
        "\x1b[31m███\x1b[0m\x1b[33m███\x1b[0m\x1b[32m███\x1b[0m\x1b[36m███\x1b[0m\x1b[34m███\x1b[0m\x1b[35m███\x1b[0m\x1b[30m███\x1b[0m\x1b[37m███\x1b[0m"
    );
}

#[test]
fn info_block_with_colours_beside_a_logo() {
    colored::control::set_override(true);
    let facts = SystemFacts {
        user: "ann".to_string(),
        host: Some("box".to_string()),
        os_name: Some("Linux".to_string()),
        os_version: None,
        cpu: None,
        memory_used: 15 * GIB,
        memory_total: 16 * GIB,
        swap_used: 0,
        swap_total: 0,
        interfaces: vec![],
        disks: vec![Disk {
            mount_point: "/".to_string(),
            total_space: 10 * GIB,
            available_space: 9 * GIB,
            file_system: "ext4".to_string(),
        }],
    };
    let info = collect_info(&facts);
    let lines: Vec<&str> = info.split('\n').collect();
    assert_eq!(lines.len(), 10);
    assert_eq!(lines[0], "\x1b[92mann@box\x1b[0m");
    assert_eq!(lines[1], "━━━━━━━");
    assert_eq!(lines[2], "\x1b[94msys \x1b[0m: Linux Unknown");
    assert_eq!(lines[3], "\x1b[94mcpu \x1b[0m: Unknown");
    assert_eq!(lines[4], "\x1b[94mmem \x1b[0m: 15.00 >> 16.00 GB (\x1b[31m93.8%\x1b[0m)");
    assert_eq!(lines[5], "\x1b[94mswap\x1b[0m: 0.00 >> 0.00 GB (\x1b[32m0.0%\x1b[0m)");
    assert_eq!(lines[6], "\x1b[94mipv4\x1b[0m: unknown");
    assert_eq!(
        lines[7],
        "\x1b[94mdisk (/)\x1b[0m: 1.00 GiB >> 10.00 GiB (\x1b[32m10.0%\x1b[0m) - ext4"
    );
    let shown = render_fetch("\x1b[31m▄▄\x1b[0m\n▀", &info);
    let rows: Vec<&str> = shown.lines().collect();
    assert_eq!(rows.len(), 10);
    assert_eq!(rows[0], "  \x1b[92mann@box\x1b[0m");
    assert_eq!(rows[4], "\x1b[31m▄▄\x1b[0m\x1b[94mmem \x1b[0m: 15.00 >> 16.00 GB (\x1b[31m93.8%\x1b[0m)");
    assert_eq!(rows[5], "▀ \x1b[94mswap\x1b[0m: 0.00 >> 0.00 GB (\x1b[32m0.0%\x1b[0m)");
    assert_eq!(rows[6], "  \x1b[94mipv4\x1b[0m: unknown");
}

#[test]
fn disk_line_with_colours() {
    colored::control::set_override(true);
    let d = Disk {
        mount_point: "C:\\".to_string(),
        total_space: 200 * GIB,
        available_space: 10 * GIB,
        file_system: "NTFS".to_string(),
    };
    assert_eq!(
        text(disk_line(&d)),
        "\x1b[94mdisk (C:\\)\x1b[0m: 190.00 GiB >> 200.00 GiB (\x1b[31m95.0%\x1b[0m) - NTFS"
    );
}

#[test]
fn interface_names_are_cyan() {
    colored::control::set_override(true);
    let list = vec![
        Interface {
            name: "eth0".to_string(),
            networks: vec![IpNetwork { addr: IpAddress::V4(10, 0, 0, 2), prefix: 8 }],
        },
        Interface {
            name: "lo".to_string(),
            networks: vec![IpNetwork { addr: IpAddress::V4(127, 0, 0, 1), prefix: 8 }],
        },
    ];
    assert_eq!(
        get_local_ip(&list),
        Some("10.0.0.2/8 (\x1b[36meth0\x1b[0m), 127.0.0.1/8 (\x1b[36mlo\x1b[0m)".to_string())
    );
}
