use libnetctl::dhcpm::{DhcpMessageType, DhcpTestConfig, DhcpmController};
use libnetctl::error::NetctlError;
use libnetctl::web::{discover_config, http_error_of, run_dhcp_test};

#[test]
fn http_answers_of_errors() {
    assert_eq!(http_error_of(&NetctlError::InvalidParameter("bad".to_string())), (400, "bad".to_string()));
    assert_eq!(http_error_of(&NetctlError::NotFound("x".to_string())), (404, "x".to_string()));
    assert_eq!(http_error_of(&NetctlError::InterfaceNotFound("eth9".to_string())), (404, "eth9".to_string()));
    assert_eq!(http_error_of(&NetctlError::DeviceNotFound("d".to_string())), (404, "d".to_string()));
    assert_eq!(http_error_of(&NetctlError::PermissionDenied("p".to_string())), (403, "p".to_string()));
    assert_eq!(
        http_error_of(&NetctlError::CommandFailed { cmd: "ip".to_string(), code: Some(2), stderr: "oops".to_string() }),
        (500, "Command 'ip' failed with code 2: oops".to_string())
    );
    assert_eq!(
        http_error_of(&NetctlError::CommandFailed { cmd: "ip".to_string(), code: None, stderr: "gone".to_string() }),
        (500, "Command 'ip' failed: gone".to_string())
    );
    let io = std::io::Error::new(std::io::ErrorKind::Other, "disk on fire");
    assert_eq!(http_error_of(&NetctlError::Io(io)), (500, "disk on fire".to_string()));
    assert_eq!(http_error_of(&NetctlError::ParseError("p".to_string())).0, 400);
    assert_eq!(http_error_of(&NetctlError::Timeout("t".to_string())).0, 408);
    assert_eq!(http_error_of(&NetctlError::AlreadyExists("a".to_string())).0, 409);
    assert_eq!(http_error_of(&NetctlError::ConfigError("c".to_string())).0, 400);
    assert_eq!(http_error_of(&NetctlError::ServiceError("s".to_string())).0, 503);
    assert_eq!(http_error_of(&NetctlError::NotSupported("n".to_string())), (501, "n".to_string()));
    assert_eq!(http_error_of(&NetctlError::InvalidState("i".to_string())), (500, "i".to_string()));
    assert_eq!(
        http_error_of(&NetctlError::ConnectionFailed { reason: "r".to_string() }),
        (500, "r".to_string())
    );
}

#[test]
fn dhcp_tests_by_message_type() {
    let ctrl = DhcpmController::new("eth0".to_string()).unwrap();
    let mut c = DhcpTestConfig::default();
    c.message_type = DhcpMessageType::Decline;
    match run_dhcp_test(&ctrl, &c) {
        Err(NetctlError::NotSupported(m)) => assert_eq!(m, "DECLINE message type not yet supported"),
        other => panic!("unexpected {:?}", other),
    }
    c.message_type = DhcpMessageType::Request;
    match run_dhcp_test(&ctrl, &c) {
        Err(NetctlError::InvalidParameter(m)) => assert_eq!(m, "Requested IP is required for REQUEST messages"),
        other => panic!("unexpected {:?}", other),
    }
    c.message_type = DhcpMessageType::Release;
    match run_dhcp_test(&ctrl, &c) {
        Err(NetctlError::InvalidParameter(m)) => assert_eq!(m, "Client IP is required for RELEASE messages"),
        other => panic!("unexpected {:?}", other),
    }
    c.message_type = DhcpMessageType::Discover;
    let r = run_dhcp_test(&ctrl, &c).unwrap();
    assert!(!r.success);
    c.message_type = DhcpMessageType::Inform;
    assert!(run_dhcp_test(&ctrl, &c).is_ok());
}

#[test]
fn discover_request_configs() {
    let c = discover_config("wlan0".to_string(), None);
    assert_eq!(c.interface, "wlan0");
    assert_eq!(c.message_type, DhcpMessageType::Discover);
    assert_eq!(c.server_port, Some(67));
    assert!(c.broadcast);
    let mut given = DhcpTestConfig::default();
    given.message_type = DhcpMessageType::Release;
    given.client_ip = Some("10.0.0.5".to_string());
    given.broadcast = false;
    let c = discover_config("eth1".to_string(), Some(given));
    assert_eq!(c.interface, "eth1");
    assert_eq!(c.message_type, DhcpMessageType::Discover);
    assert_eq!(c.client_ip.as_deref(), Some("10.0.0.5"));
    assert!(!c.broadcast);
}
