use meowfetch::color::{paint, Hue, Tint};
use meowfetch::disk::Disk;
use meowfetch::info::{
    address_line, collect_info, format_labelled, identity, labelled, palette_row, rule_line,
    usage_line, SystemFacts,
};
use meowfetch::network::{Interface, IpAddress, IpNetwork};
use meowfetch::usage::GIB;

fn text(chars: Vec<char>) -> String {
    chars.into_iter().collect()
}

fn chars(s: &str) -> Vec<char> {
    s.chars().collect()
}

fn facts() -> SystemFacts {
    SystemFacts {
        user: "ann".to_string(),
        host: Some("box".to_string()),
        os_name: Some("Debian GNU/Linux".to_string()),
        os_version: Some("12".to_string()),
        cpu: Some("Fast CPU 9000".to_string()),
        memory_used: 8 * GIB,
        memory_total: 16 * GIB,
        swap_used: 0,
        swap_total: 2 * GIB,
        interfaces: vec![Interface {
            name: "eth0".to_string(),
            networks: vec![IpNetwork { addr: IpAddress::V4(192, 168, 1, 5), prefix: 24 }],
        }],
        disks: vec![Disk {
            mount_point: "/".to_string(),
            total_space: 100 * GIB,
            available_space: 5 * GIB,
            file_system: "ext4".to_string(),
        }],
    }
}

#[test]
fn identity_is_user_at_host() {
    assert_eq!(identity("ann", &Some("box".to_string())), "ann@box");
    assert_eq!(identity("ann", &None), "ann@Unknown");
    assert_eq!(identity("", &Some("".to_string())), "@");
}

#[test]
fn rule_has_one_stroke_per_byte() {
    assert_eq!(text(rule_line("ann@box")), "━━━━━━━");
    assert_eq!(text(rule_line("")), "");
    assert_eq!(text(rule_line("é@ü")), "━━━━━");
    assert_eq!(text(rule_line("猫")), "━━━");
}

#[test]
fn labelled_puts_colon_and_space() {
    colored::control::set_override(false);
    assert_eq!(text(format_labelled("cpu ", &chars("x"))), "cpu : x");
    assert_eq!(text(labelled("swap", &chars(""))), "swap: ");
    assert_eq!(text(labelled("sys ", &chars("Linux 6"))), "sys : Linux 6");
}

#[test]
fn memory_line_half_used() {
    colored::control::set_override(false);
    assert_eq!(text(usage_line("mem ", 8 * GIB, 16 * GIB)), "mem : 8.00 >> 16.00 GB (50.0%)");
}

#[test]
fn address_line_without_addresses_is_unknown() {
    colored::control::set_override(false);
    assert_eq!(text(address_line(&vec![])), "ipv4: unknown");
    let only_virtual = vec![Interface {
        name: "VMware Network Adapter".to_string(),
        networks: vec![IpNetwork { addr: IpAddress::V4(192, 168, 56, 1), prefix: 24 }],
    }];
    assert_eq!(text(address_line(&only_virtual)), "ipv4: unknown");
}

#[test]
fn address_line_lists_addresses() {
    colored::control::set_override(false);
    assert_eq!(text(address_line(&facts().interfaces)), "ipv4: 192.168.1.5/24 (eth0)");
}

#[test]
fn palette_row_is_eight_blocks() {
    colored::control::set_override(false);
    assert_eq!(text(palette_row(true)), "████████████████████████");
    assert_eq!(text(palette_row(false)), "████████████████████████");
}

#[test]
fn info_block_without_colours() {
    colored::control::set_override(false);
    let want = vec![
        "ann@box",
        "━━━━━━━",
        "sys : Debian GNU/Linux 12",
        "cpu : Fast CPU 9000",
        "mem : 8.00 >> 16.00 GB (50.0%)",
        "swap: 0.00 >> 2.00 GB (0.0%)",
        "ipv4: 192.168.1.5/24 (eth0)",
        "disk (/): 95.00 GiB >> 100.00 GiB (95.0%) - ext4",
        "████████████████████████",
        "████████████████████████",
    ];
    assert_eq!(collect_info(&facts()), want.join("\n"));
}

#[test]
fn info_block_of_unknown_facts() {
    colored::control::set_override(false);
    let nothing = SystemFacts {
        user: "ann".to_string(),
        host: None,
        os_name: None,
        os_version: None,
        cpu: None,
        memory_used: 0,
        memory_total: 0,
        swap_used: 0,
        swap_total: 0,
        interfaces: vec![],
        disks: vec![],
    };
    let want = vec![
        "ann@Unknown",
        "━━━━━━━━━━━",
        "sys : Unknown Unknown",
        "cpu : Unknown",
        "mem : 0.00 >> 0.00 GB (0.0%)",
        "swap: 0.00 >> 0.00 GB (0.0%)",
        "ipv4: unknown",
        "",
        "████████████████████████",
        "████████████████████████",
    ];
    assert_eq!(collect_info(&nothing), want.join("\n"));
}

#[test]
fn paint_without_colours_changes_nothing() {
    colored::control::set_override(false);
    assert_eq!(paint("x", Tint { hue: Hue::Red, bright: false }), "x");
    assert_eq!(paint("a\x1b[0mb", Tint { hue: Hue::Red, bright: true }), "a\x1b[0mb");
}
