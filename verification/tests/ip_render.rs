use lldp_tlv::ip::IpAddress;

#[test]
fn v4_renders_dotted_decimal() {
    assert_eq!(IpAddress::V4([192, 0, 2, 100]).render(), "192.0.2.100");
    assert_eq!(IpAddress::V4([0, 0, 0, 0]).render(), "0.0.0.0");
    assert_eq!(IpAddress::V4([255, 255, 255, 255]).render(), "255.255.255.255");
}

#[test]
fn v6_compresses_the_longest_zero_run() {
    let a = IpAddress::V6([0x20, 0x01, 0x00, 0xdb, 0, 0, 0, 0, 0, 0, 0, 0, 0, 0, 0, 4]);
    assert_eq!(a.render(), "2001:db::4");
    let loopback = IpAddress::V6([0, 0, 0, 0, 0, 0, 0, 0, 0, 0, 0, 0, 0, 0, 0, 1]);
    assert_eq!(loopback.render(), "::1");
    let unspecified = IpAddress::V6([0; 16]);
    assert_eq!(unspecified.render(), "::");
}

#[test]
fn v6_leaves_single_zero_groups_alone() {
    let a = IpAddress::V6([0, 1, 0, 0, 0, 1, 0, 1, 0, 1, 0, 1, 0, 1, 0, 1]);
    assert_eq!(a.render(), "1:0:1:1:1:1:1:1");
}

#[test]
fn v6_compresses_the_leftmost_of_equal_runs() {
    let a = IpAddress::V6([0, 1, 0, 0, 0, 0, 0, 1, 0, 1, 0, 0, 0, 0, 0, 1]);
    assert_eq!(a.render(), "1::1:1:0:0:1");
}

#[test]
fn family_queries() {
    assert!(IpAddress::V4([1, 2, 3, 4]).is_ipv4());
    assert!(!IpAddress::V4([1, 2, 3, 4]).is_ipv6());
    assert!(IpAddress::V6([0; 16]).is_ipv6());
    assert!(!IpAddress::V6([0; 16]).is_ipv4());
}
