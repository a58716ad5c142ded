use libnetctl::error::NetctlError;
use libnetctl::nccli::checks::{validate_connection_name, validate_ssid, validate_wifi_password};
use libnetctl::nccli::privilege::{check_privileged_op, PrivilegedOp};

fn invalid_message(r: Result<(), NetctlError>) -> String {
    match r {
        Err(NetctlError::InvalidParameter(m)) => m,
        other => panic!("expected InvalidParameter, got {:?}", other),
    }
}

#[test]
fn connection_names() {
    assert!(validate_connection_name("home-wifi_2.4").is_ok());
    assert_eq!(invalid_message(validate_connection_name("")), "Connection name cannot be empty");
    assert_eq!(
        invalid_message(validate_connection_name(&"a".repeat(65))),
        "Connection name too long (max 64 chars)"
    );
    assert!(validate_connection_name(&"a".repeat(64)).is_ok());
    assert_eq!(
        invalid_message(validate_connection_name("../etc")),
        "Connection name contains invalid path characters"
    );
    assert_eq!(
        invalid_message(validate_connection_name("a\\b")),
        "Connection name contains invalid path characters"
    );
    assert_eq!(
        invalid_message(validate_connection_name("my conn")),
        "Connection name can only contain alphanumeric, dash, underscore, or dot"
    );
    assert!(validate_connection_name("café").is_ok());
}

#[test]
fn ssids() {
    assert!(validate_ssid("MyNetwork").is_ok());
    assert_eq!(invalid_message(validate_ssid("")), "SSID cannot be empty");
    assert_eq!(invalid_message(validate_ssid(&"x".repeat(33))), "SSID too long (max 32 bytes)");
    assert!(validate_ssid(&"x".repeat(32)).is_ok());
    assert_eq!(invalid_message(validate_ssid(&"é".repeat(17))), "SSID too long (max 32 bytes)");
    assert_eq!(
        invalid_message(validate_ssid("bad\tssid")),
        "SSID contains invalid control characters"
    );
}

#[test]
fn wifi_passwords() {
    assert!(validate_wifi_password("password123").is_ok());
    assert_eq!(
        invalid_message(validate_wifi_password("short")),
        "WiFi password must be at least 8 characters"
    );
    assert_eq!(
        invalid_message(validate_wifi_password(&"p".repeat(64))),
        "WiFi password too long (max 63 characters)"
    );
    assert_eq!(
        invalid_message(validate_wifi_password("pässwörd")),
        "WiFi password must contain only ASCII characters"
    );
}

#[test]
fn root_runs_everything() {
    assert!(check_privileged_op(PrivilegedOp::NetworkingOff, false, true).is_ok());
    assert!(check_privileged_op(PrivilegedOp::ApStart, true, true).is_ok());
}

#[test]
fn non_root_is_refused() {
    match check_privileged_op(PrivilegedOp::NetworkingOff, false, false) {
        Err(NetctlError::PermissionDenied(m)) => {
            assert!(m.starts_with("Operation '"));
            assert!(m.contains(PrivilegedOp::NetworkingOff.description()));
            assert!(m.contains("requires root privileges"));
        },
        other => panic!("unexpected {:?}", other),
    }
    match check_privileged_op(PrivilegedOp::NetworkingOff, true, false) {
        Err(NetctlError::PermissionDenied(m)) => {
            assert_eq!(m, "--allow-root-ops flag requires root privileges");
        },
        other => panic!("unexpected {:?}", other),
    }
}
