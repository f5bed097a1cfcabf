use meowfetch::network::{format_entry, get_local_ip, Interface, IpAddress, IpNetwork};

fn v4(a: u8, b: u8, c: u8, d: u8, prefix: u8) -> IpNetwork {
    IpNetwork { addr: IpAddress::V4(a, b, c, d), prefix }
}

fn v6(bits: u128, prefix: u8) -> IpNetwork {
    IpNetwork { addr: IpAddress::V6(bits), prefix }
}

fn iface(name: &str, networks: Vec<IpNetwork>) -> Interface {
    Interface { name: name.to_string(), networks }
}

fn text(chars: Vec<char>) -> String {
    chars.into_iter().collect()
}

#[test]
fn entry_is_address_prefix_and_name() {
    assert_eq!(text(format_entry((192, 168, 1, 5), 24, "eth0")), "192.168.1.5/24 (eth0)");
    assert_eq!(text(format_entry((0, 0, 0, 0), 0, "")), "0.0.0.0/0 ()");
    assert_eq!(
        text(format_entry((255, 255, 255, 255), 32, "\x1b[36mlo\x1b[0m")),
        "255.255.255.255/32 (\x1b[36mlo\x1b[0m)"
    );
}

#[test]
fn no_interfaces_give_no_list() {
    colored::control::set_override(false);
    assert_eq!(get_local_ip(&vec![]), None);
    assert_eq!(get_local_ip(&vec![iface("eth0", vec![])]), None);
}

#[test]
fn virtual_machine_interface_is_left_out() {
    colored::control::set_override(false);
    let only = vec![iface("VMware Network Adapter", vec![v4(192, 168, 56, 1, 24)])];
    assert_eq!(get_local_ip(&only), None);
    let both = vec![
        iface("VMware Network Adapter VMnet8", vec![v4(192, 168, 56, 1, 24)]),
        iface("eth0", vec![v4(10, 0, 0, 2, 8)]),
        iface("my VMware", vec![v4(10, 0, 0, 3, 8)]),
    ];
    assert_eq!(get_local_ip(&both), Some("10.0.0.2/8 (eth0)".to_string()));
}

#[test]
fn marker_is_case_sensitive() {
    colored::control::set_override(false);
    let list = vec![iface("vmware0", vec![v4(10, 0, 0, 2, 8)]), iface("VMwar", vec![v4(10, 0, 0, 3, 8)])];
    assert_eq!(get_local_ip(&list), Some("10.0.0.2/8 (vmware0), 10.0.0.3/8 (VMwar)".to_string()));
}

#[test]
fn addresses_other_than_ipv4_are_left_out() {
    colored::control::set_override(false);
    let list = vec![
        iface("lo", vec![v6(1, 128)]),
        iface("eth0", vec![v6(0xfe80 << 112, 64), v4(192, 168, 1, 5, 24), v6(7, 64), v4(10, 1, 2, 3, 16)]),
    ];
    assert_eq!(
        get_local_ip(&list),
        Some("192.168.1.5/24 (eth0), 10.1.2.3/16 (eth0)".to_string())
    );
    assert_eq!(get_local_ip(&vec![iface("lo", vec![v6(1, 128)])]), None);
}

#[test]
fn entries_keep_the_order_of_the_interfaces() {
    colored::control::set_override(false);
    let list = vec![
        iface("wlan0", vec![v4(192, 168, 0, 9, 24)]),
        iface("eth0", vec![v4(10, 0, 0, 2, 8)]),
        iface("lo", vec![v4(127, 0, 0, 1, 8)]),
    ];
    assert_eq!(
        get_local_ip(&list),
        Some("192.168.0.9/24 (wlan0), 10.0.0.2/8 (eth0), 127.0.0.1/8 (lo)".to_string())
    );
}
