use dks3_login::addr::{check_host, format_bind_addr, parse_bind_addr, parse_port, port_to_string};

#[test]
fn port_to_string_zero() {
    assert_eq!(port_to_string(0), "0");
}

#[test]
fn port_to_string_single_digit() {
    assert_eq!(port_to_string(9), "9");
}

#[test]
fn port_to_string_common_port() {
    assert_eq!(port_to_string(50000), "50000");
}

#[test]
fn port_to_string_max_port() {
    assert_eq!(port_to_string(65535), "65535");
}

#[test]
fn parse_port_plain() {
    assert_eq!(parse_port("80"), Some(80));
}

#[test]
fn parse_port_max() {
    assert_eq!(parse_port("65535"), Some(65535));
}

#[test]
fn parse_port_leading_zeros() {
    assert_eq!(parse_port("007"), Some(7));
}

#[test]
fn parse_port_empty() {
    assert_eq!(parse_port(""), None);
}

#[test]
fn parse_port_non_numeric() {
    assert_eq!(parse_port("abc"), None);
    assert_eq!(parse_port("80a"), None);
    assert_eq!(parse_port("-1"), None);
}

#[test]
fn parse_port_out_of_range() {
    assert_eq!(parse_port("65536"), None);
    assert_eq!(parse_port("99999"), None);
    assert_eq!(parse_port("123456789999"), None);
}

#[test]
fn format_bind_addr_ipv4() {
    assert_eq!(format_bind_addr("127.0.0.1", 50000), "127.0.0.1:50000");
}

#[test]
fn format_bind_addr_hostname() {
    assert_eq!(format_bind_addr("localhost", 0), "localhost:0");
}

#[test]
fn check_host_accepts_plain_and_bracketed_hosts() {
    assert!(check_host("127.0.0.1"));
    assert!(check_host("localhost"));
    assert!(check_host("[::1]"));
}

#[test]
fn check_host_rejects_only_the_empty_host() {
    assert!(!check_host(""));
}

#[test]
fn format_bind_addr_bracketed_ipv6() {
    assert_eq!(format_bind_addr("[::1]", 50000), "[::1]:50000");
}

#[test]
fn parse_bind_addr_bracketed_ipv6_round_trip() {
    let addr = format_bind_addr("[::1]", 50000);
    let (host, port) = parse_bind_addr(addr.as_str()).expect("bracketed host parses back");
    assert_eq!(host, "[::1]");
    assert_eq!(port, 50000);
}

#[test]
fn parse_bind_addr_well_formed() {
    let (host, port) = parse_bind_addr("127.0.0.1:50000").expect("well-formed address");
    assert_eq!(host, "127.0.0.1");
    assert_eq!(port, 50000);
}

#[test]
fn parse_bind_addr_splits_at_last_colon() {
    let (host, port) = parse_bind_addr("a:b:8080").expect("last colon separates the port");
    assert_eq!(host, "a:b");
    assert_eq!(port, 8080);
}

#[test]
fn parse_bind_addr_empty_host() {
    assert_eq!(parse_bind_addr(":80"), None);
}

#[test]
fn parse_bind_addr_no_separator() {
    assert_eq!(parse_bind_addr("localhost"), None);
}

#[test]
fn parse_bind_addr_bad_port() {
    assert_eq!(parse_bind_addr("host:ab"), None);
    assert_eq!(parse_bind_addr("host:"), None);
    assert_eq!(parse_bind_addr("host:65536"), None);
}

#[test]
fn parse_bind_addr_round_trip() {
    let addr = format_bind_addr("login.example", 19000);
    let (host, port) = parse_bind_addr(addr.as_str()).expect("formatted address parses back");
    assert_eq!(host, "login.example");
    assert_eq!(port, 19000);
}
