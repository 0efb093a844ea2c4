use linkerd_app::addr::{Addr, IpAddr, Ipv4Addr, Ipv6Addr, NameAddr, SocketAddr};
use linkerd_app::dns::{InvalidName, Name};

fn v6(segments: [u16; 8]) -> String {
    SocketAddr::new(IpAddr::V6(Ipv6Addr::new(segments)), 443).to_string()
}

#[test]
fn ipv4_socket_addr_is_dotted_quad_and_port() {
    let addr = SocketAddr::new(IpAddr::V4(Ipv4Addr::new(10, 0, 0, 1)), 8080);
    assert_eq!(addr.to_string(), "10.0.0.1:8080");
}

#[test]
fn ipv4_extremes_render_without_padding() {
    let lo = SocketAddr::new(IpAddr::V4(Ipv4Addr::new(0, 0, 0, 0)), 0);
    assert_eq!(lo.to_string(), "0.0.0.0:0");
    let hi = SocketAddr::new(IpAddr::V4(Ipv4Addr::new(255, 255, 255, 255)), 65535);
    assert_eq!(hi.to_string(), "255.255.255.255:65535");
    let mid = SocketAddr::new(IpAddr::V4(Ipv4Addr::new(192, 168, 100, 9)), 10);
    assert_eq!(mid.to_string(), "192.168.100.9:10");
}

#[test]
fn ipv6_loopback_and_unspecified_are_compressed() {
    assert_eq!(v6([0, 0, 0, 0, 0, 0, 0, 1]), "[::1]:443");
    assert_eq!(v6([0, 0, 0, 0, 0, 0, 0, 0]), "[::]:443");
}

#[test]
fn ipv6_longest_zero_run_is_compressed() {
    assert_eq!(v6([0x2001, 0xdb8, 0, 0, 0, 0, 0, 1]), "[2001:db8::1]:443");
    assert_eq!(v6([0x2001, 0xdb8, 0, 1, 0, 0, 0, 1]), "[2001:db8:0:1::1]:443");
    assert_eq!(v6([1, 0, 0, 0, 0, 0, 0, 0]), "[1::]:443");
    assert_eq!(v6([0, 0, 0, 0, 0, 0, 2, 3]), "[::2:3]:443");
}

#[test]
fn ipv6_first_of_equal_zero_runs_is_compressed() {
    assert_eq!(v6([1, 0, 0, 2, 0, 0, 3, 4]), "[1::2:0:0:3:4]:443");
}

#[test]
fn ipv6_single_zero_is_not_compressed() {
    assert_eq!(v6([1, 0, 2, 3, 4, 5, 6, 7]), "[1:0:2:3:4:5:6:7]:443");
    assert_eq!(
        v6([0xfe80, 0xffff, 0xabcd, 0x10, 0x100, 0x1000, 0xf, 0xa0b]),
        "[fe80:ffff:abcd:10:100:1000:f:a0b]:443"
    );
}

#[test]
fn ipv6_mapped_ipv4_is_mixed_notation() {
    assert_eq!(v6([0, 0, 0, 0, 0, 0xffff, 0xc000, 0x0280]), "[::ffff:192.0.2.128]:443");
}

#[test]
fn name_addr_is_name_and_port() {
    let name = Name::try_from_str("web.default.svc.cluster.local").unwrap();
    let addr = Addr::Name(NameAddr::new(name, 80));
    assert_eq!(addr.to_string(), "web.default.svc.cluster.local:80");
    assert_eq!(addr.port(), 80);
}

#[test]
fn socket_addr_as_addr_keeps_its_text() {
    let sa = SocketAddr::new(IpAddr::V4(Ipv4Addr::new(127, 0, 0, 1)), 4140);
    let addr = Addr::Socket(sa);
    assert_eq!(addr.to_string(), sa.to_string());
    assert_eq!(addr.clone(), addr);
    assert_eq!(addr.port(), 4140);
    assert_eq!(sa.port(), 4140);
}

#[test]
fn names_keep_their_text() {
    let name = Name::try_from_str("Foo-1_bar.example.").unwrap();
    assert_eq!(name.as_str(), "Foo-1_bar.example.");
    assert_eq!(name.clone(), name);
}

#[test]
fn malformed_names_are_refused() {
    assert_eq!(Name::try_from_str("").unwrap_err(), InvalidName);
    assert_eq!(Name::try_from_str(".example").unwrap_err(), InvalidName);
    assert_eq!(Name::try_from_str("a..b").unwrap_err(), InvalidName);
    assert_eq!(Name::try_from_str("a b").unwrap_err(), InvalidName);
    assert_eq!(Name::try_from_str("a:80").unwrap_err(), InvalidName);
    assert_eq!(Name::try_from_str("caf\u{e9}.example").unwrap_err(), InvalidName);
    assert_eq!(Name::try_from_str("a\n").unwrap_err(), InvalidName);
}

#[test]
fn names_are_bounded_in_length() {
    let longest = "a".repeat(253);
    assert!(Name::try_from_str(&longest).is_ok());
    let too_long = "a".repeat(254);
    assert_eq!(Name::try_from_str(&too_long).unwrap_err(), InvalidName);
}
