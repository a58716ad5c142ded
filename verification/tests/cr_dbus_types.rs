use libnetctl::cr_dbus::{
    CRConnectivity, CRDeviceInfo, CRDeviceState, CRDeviceType, CRNetworkState, CRVpnInfo,
    CRVpnState, CRVpnType, CR_DBUS_PATH, CR_DBUS_SERVICE, CR_WIFI_PATH,
};
use libnetctl::cr_dbus::VERSION;

#[test]
fn test_version() {
    assert!(!VERSION.is_empty());
}

#[test]
fn test_constants() {
    assert_eq!(CR_DBUS_SERVICE, "org.crrouter.NetworkControl");
    assert_eq!(CR_DBUS_PATH, "/org/crrouter/NetworkControl");
    assert_eq!(CR_WIFI_PATH, "/org/crrouter/NetworkControl/WiFi");
}

#[test]
fn test_device_type_conversion() {
    let dt = CRDeviceType::WiFi;
    let val: u32 = dt.into();
    assert_eq!(val, 2);
}

#[test]
fn test_device_state_conversion() {
    let ds = CRDeviceState::Activated;
    let val: u32 = ds.into();
    assert_eq!(val, 100);
}

#[test]
fn test_network_state_conversion() {
    let ns = CRNetworkState::ConnectedGlobal;
    let val: u32 = ns.into();
    assert_eq!(val, 60);
}

#[test]
fn test_connectivity_conversion() {
    let c = CRConnectivity::Full;
    let val: u32 = c.into();
    assert_eq!(val, 4);
}

#[test]
fn test_device_info_creation() {
    let info = CRDeviceInfo::new("eth0".to_string(), CRDeviceType::Ethernet);
    assert_eq!(info.interface, "eth0");
    assert_eq!(info.device_type, CRDeviceType::Ethernet);
    assert_eq!(info.state, CRDeviceState::Disconnected);
    assert!(info.path.contains("eth0"));
}

#[test]
fn test_vpn_info_creation() {
    let info = CRVpnInfo::new("my_vpn".to_string(), CRVpnType::WireGuard);
    assert_eq!(info.name, "my_vpn");
    assert_eq!(info.vpn_type, CRVpnType::WireGuard);
    assert_eq!(info.state, CRVpnState::Disconnected);
    assert!(info.path.contains("my_vpn"));
}

#[test]
fn device_info_path_and_defaults() {
    let info = CRDeviceInfo::new("wlan0".to_string(), CRDeviceType::WiFi);
    assert_eq!(info.path, "/org/crrouter/NetworkControl/Devices/wlan0");
    assert_eq!(info.mtu, 1500);
    assert!(info.ipv4_address.is_none());
    assert!(info.hw_address.is_none());
}

#[test]
fn vpn_info_path() {
    let info = CRVpnInfo::new("office".to_string(), CRVpnType::OpenVpn);
    assert_eq!(info.path, "/org/crrouter/NetworkControl/VPN/office");
    assert!(info.local_ip.is_none());
}

#[test]
fn state_numbers() {
    assert_eq!(CRNetworkState::Unknown.code(), 0);
    assert_eq!(CRNetworkState::Disconnected.code(), 20);
    assert_eq!(CRDeviceState::Disconnected.code(), 30);
    assert_eq!(CRDeviceState::Failed.code(), 120);
    assert_eq!(CRConnectivity::Unknown.code(), 0);
    assert_eq!(CRDeviceType::Ethernet.code(), 1);
}
