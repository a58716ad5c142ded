use libnetctl::config::{
    default_config_dir, default_dns_cache_size, default_lease_time, default_log_dir, default_mtu,
    default_state_dir, NetctlConfig,
};
use libnetctl::dns::DnsConfig;
use libnetctl::error::NetctlError;
use libnetctl::paths::join_path;
use libnetctl::strmap::StrMap;
use libnetctl::text::{
    contains_str, decimal_string, ends_with, eq_str, parse_i32, parse_unsigned, push_int_decimal,
    remove_char, split_char, starts_with, str_lt, trim, utf8_len_at_most,
};

#[test]
fn default_configuration() {
    let c = NetctlConfig::default();
    assert_eq!(c.paths.config_dir, default_config_dir());
    assert_eq!(c.paths.state_dir, "/run/crrouter/netctl");
    assert_eq!(default_log_dir(), "/var/log/crrouter/netctl");
    assert_eq!(default_state_dir(), "/run/crrouter/netctl");
    assert_eq!(c.defaults.mtu, 1500);
    assert_eq!(default_mtu(), 1500);
    assert_eq!(default_lease_time(), 3600);
    assert_eq!(default_dns_cache_size(), 100);
    assert_eq!(c.directories(), vec![
        "/etc/crrouter/netctl", "/run/crrouter/netctl", "/var/log/crrouter/netctl",
    ]);
    let d = DnsConfig::default();
    assert_eq!(d.forwarders, vec!["1.1.1.1", "8.8.8.8"]);
    assert!(d.dnssec);
    assert!(d.interface.is_none());
}

#[test]
fn error_messages() {
    assert_eq!(NetctlError::InvalidParameter("x".to_string()).message(), "Invalid parameter: x");
    assert_eq!(NetctlError::NotFound("y".to_string()).message(), "Not found: y");
    assert_eq!(
        NetctlError::CommandFailed { cmd: "ip link".to_string(), code: Some(-2), stderr: "e".to_string() }
            .message(),
        "Command 'ip link' failed with code -2: e"
    );
    assert_eq!(
        NetctlError::CommandFailed { cmd: "ip".to_string(), code: None, stderr: "e".to_string() }.message(),
        "Command 'ip' failed: e"
    );
    assert_eq!(
        NetctlError::ConnectionFailed { reason: "timeout".to_string() }.message(),
        "Connection failed: timeout"
    );
    let io: NetctlError = std::io::Error::new(std::io::ErrorKind::Other, "disk gone").into();
    assert_eq!(io.message(), "IO error: disk gone");
}

#[test]
fn paths() {
    assert_eq!(join_path("/etc", "a.conf"), "/etc/a.conf");
    assert_eq!(join_path("/etc/", "a.conf"), "/etc/a.conf");
    assert_eq!(join_path("", "a.conf"), "a.conf");
    assert_eq!(join_path("/etc/netctl", "/tmp/x.nctl"), "/tmp/x.nctl");
    assert_eq!(join_path("/etc/netctl", "sub/x.nctl"), "/etc/netctl/sub/x.nctl");
}

#[test]
fn string_map() {
    let mut m: StrMap<u32> = StrMap::new();
    assert_eq!(m.len(), 0);
    m.insert("a", 1);
    m.insert("b", 2);
    m.insert("a", 3);
    assert_eq!(m.len(), 2);
    assert_eq!(m.get("a"), Some(3));
    assert!(m.contains_key("b"));
    assert_eq!(m.remove("b"), Some(2));
    assert_eq!(m.remove("b"), None);
    assert!(!m.contains_key("b"));
    assert_eq!(m.keys(), vec!["a"]);
    assert_eq!(m.to_vec(), vec![("a".to_string(), 3)]);
    let (k, v) = m.entry(0);
    assert_eq!((k, *v), ("a", 3));
}

#[test]
fn text_helpers() {
    assert!(eq_str("abc", "abc"));
    assert!(!eq_str("abc", "abd"));
    assert!(starts_with("wlan0", "wl"));
    assert!(ends_with("x.nctl", ".nctl"));
    assert!(contains_str("private-key", "key"));
    assert!(!contains_str("ke", "key"));
    assert_eq!(remove_char("aa:bb:cc", ':'), "aabbcc");
    assert_eq!(split_char("a,,b", ','), vec!["a", "", "b"]);
    assert_eq!(split_char("", ','), vec![""]);
    assert_eq!(trim("  \t x y \n"), "x y");
    assert_eq!(decimal_string(0), "0");
    assert_eq!(decimal_string(18446744073709551615), "18446744073709551615");
    let mut s = String::new();
    push_int_decimal(&mut s, i64::MIN);
    assert_eq!(s, "-9223372036854775808");
    assert_eq!(utf8_len_at_most("héllo", 10), Some(6));
    assert_eq!(utf8_len_at_most("héllo", 5), None);
}

#[test]
fn number_parsing() {
    assert_eq!(parse_unsigned("255", 255), Some(255));
    assert_eq!(parse_unsigned("256", 255), None);
    assert_eq!(parse_unsigned("+7", 255), Some(7));
    assert_eq!(parse_unsigned("", 255), None);
    assert_eq!(parse_unsigned("-1", 255), None);
    assert_eq!(parse_unsigned("0042", 255), Some(42));
    assert_eq!(parse_i32("-2147483648"), Some(i32::MIN));
    assert_eq!(parse_i32("2147483648"), None);
    assert_eq!(parse_i32("-"), None);
    assert_eq!(parse_i32("12a"), None);
}

#[test]
fn string_order() {
    assert!(str_lt("a", "b"));
    assert!(str_lt("", "a"));
    assert!(str_lt("ab", "abc"));
    assert!(!str_lt("abc", "ab"));
    assert!(!str_lt("a", "a"));
    assert!(str_lt("Z", "a"));
    assert_eq!(str_lt("é", "z"), "é" < "z");
}
