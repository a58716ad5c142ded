use libnetctl::dhcpm::{DhcpMessageType, DhcpTestConfig, DhcpmController};
use libnetctl::error::NetctlError;

#[test]
fn test_validate_mac_address() {
    assert!(DhcpmController::validate_mac_address("00:11:22:33:44:55").is_ok());
    assert!(DhcpmController::validate_mac_address("aa:bb:cc:dd:ee:ff").is_ok());
    assert!(DhcpmController::validate_mac_address("invalid").is_err());
    assert!(DhcpmController::validate_mac_address("00:11:22:33:44").is_err());
    assert!(DhcpmController::validate_mac_address("00:11:22:33:44:gg").is_err());
}

#[test]
fn test_config_validation() {
    let controller = DhcpmController::new("eth0".to_string()).unwrap();

    let valid_config = DhcpTestConfig {
        interface: "eth0".to_string(),
        message_type: DhcpMessageType::Discover,
        client_mac: Some("00:11:22:33:44:55".to_string()),
        server_ip: Some("192.168.1.1".to_string()),
        ..Default::default()
    };
    assert!(controller.validate_config(&valid_config).is_ok());

    let invalid_config = DhcpTestConfig {
        interface: "../../etc/passwd".to_string(),
        ..Default::default()
    };
    assert!(controller.validate_config(&invalid_config).is_err());
}

#[test]
fn bad_default_interface_is_refused() {
    assert!(DhcpmController::new("".to_string()).is_err());
    assert!(DhcpmController::new("eth0/x".to_string()).is_err());
    assert_eq!(DhcpmController::new("eth1".to_string()).unwrap().get_default_interface(), "eth1");
}

#[test]
fn bad_server_ip_is_invalid_parameter() {
    let controller = DhcpmController::new("eth0".to_string()).unwrap();
    let config = DhcpTestConfig {
        interface: "eth0".to_string(),
        server_ip: Some("999.1.1.1".to_string()),
        ..Default::default()
    };
    assert!(matches!(controller.validate_config(&config), Err(NetctlError::InvalidParameter(_))));
}

#[test]
fn sending_is_not_wired_in() {
    let controller = DhcpmController::new("eth0".to_string()).unwrap();
    let config = DhcpTestConfig { interface: "eth0".to_string(), ..Default::default() };
    let result = controller.send_discover(&config).unwrap();
    assert!(!result.success);
    assert!(result.response.is_none());
    assert!(result.error.unwrap().contains("not yet implemented"));
}
