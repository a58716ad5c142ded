use libnetctl::error::NetctlError;
use libnetctl::validation::{
    sanitize_config_value, validate_hostname, validate_interface_name, validate_ip_address,
};

fn invalid_message<T: std::fmt::Debug>(r: Result<T, NetctlError>) -> String {
    match r {
        Err(NetctlError::InvalidParameter(m)) => m,
        other => panic!("expected InvalidParameter, got {:?}", other),
    }
}

#[test]
fn interface_names() {
    assert!(validate_interface_name("eth0").is_ok());
    assert!(validate_interface_name("br-lan.10").is_ok());
    assert!(validate_interface_name("abcdefghijklmno").is_ok());
    assert_eq!(invalid_message(validate_interface_name("")), "Interface name cannot be empty");
    assert_eq!(
        invalid_message(validate_interface_name("abcdefghijklmnop")),
        "Interface name too long (max 15 characters)"
    );
    assert_eq!(invalid_message(validate_interface_name("..")), "Invalid interface name");
    assert_eq!(invalid_message(validate_interface_name(".")), "Invalid interface name");
    assert_eq!(
        invalid_message(validate_interface_name("eth0;rm")),
        "Interface name contains invalid characters"
    );
    assert!(validate_interface_name("../../etc/passwd").is_err());
}

#[test]
fn ip_addresses() {
    assert!(validate_ip_address("192.168.1.1").is_ok());
    assert!(validate_ip_address("0.0.0.0").is_ok());
    assert!(validate_ip_address("::1").is_ok());
    assert!(validate_ip_address("fe80::1").is_ok());
    assert!(validate_ip_address("2001:db8::8a2e:370:7334").is_ok());
    assert_eq!(invalid_message(validate_ip_address("256.1.1.1")), "Invalid IP address: 256.1.1.1");
    assert!(validate_ip_address("1.2.3").is_err());
    assert!(validate_ip_address("01.2.3.4").is_err());
    assert!(validate_ip_address("1:2:3:4:5:6:7:8:9").is_err());
    assert!(validate_ip_address("").is_err());
}

#[test]
fn config_values() {
    assert_eq!(sanitize_config_value("home network").unwrap(), "home network");
    assert_eq!(
        invalid_message(sanitize_config_value("a\nb")),
        "Configuration value contains control characters"
    );
}

#[test]
fn hostnames() {
    assert!(validate_hostname("router").is_ok());
    assert!(validate_hostname("my-host.example.com").is_ok());
    assert_eq!(invalid_message(validate_hostname("-bad")), "Invalid hostname: -bad");
    assert!(validate_hostname("bad-").is_err());
    assert!(validate_hostname("a..b").is_err());
    assert!(validate_hostname("").is_err());
    assert!(validate_hostname(&"a".repeat(64)).is_err());
    assert!(validate_hostname(&"a".repeat(63)).is_ok());
}
