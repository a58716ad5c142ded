use libnetctl::cr_dbus::device::CRDevice as BusDevice;
use libnetctl::cr_dbus::dhcp::CRDhcp;
use libnetctl::cr_dbus::integration::{device_info_for, device_path, map_device_type};
use libnetctl::cr_dbus::network_control::CRNetworkControl;
use libnetctl::cr_dbus::privilege::CRPrivilege;
use libnetctl::cr_dbus::props::{DbusError, PropValue};
use libnetctl::cr_dbus::vpn::CRVPN;
use libnetctl::cr_dbus::wifi::CRWiFi;
use libnetctl::cr_dbus::{
    CRAccessPointInfo, CRConnectivity, CRDeviceInfo, CRDeviceState, CRDeviceType, CRDhcpLease,
    CRNetworkState, CRVpnInfo, CRVpnState, CRVpnType, CRWiFiMode, CRWiFiSecurity,
};
use libnetctl::device::{Device, DeviceState, DeviceType};
use libnetctl::error::NetctlError;

fn prop<'a>(props: &'a [(String, PropValue)], name: &str) -> Option<&'a PropValue> {
    props.iter().find(|(k, _)| k == name).map(|(_, v)| v)
}

fn device(name: &str, addresses: &[&str], flags: &[&str]) -> Device {
    Device {
        name: name.to_string(),
        device_type: DeviceType::Unknown,
        state: DeviceState::Unknown,
        driver: None,
        mac_address: Some("00:11:22:33:44:55".to_string()),
        mtu: Some(9000),
        addresses: addresses.iter().map(|s| s.to_string()).collect(),
        flags: flags.iter().map(|s| s.to_string()).collect(),
        stats: None,
    }
}

#[test]
fn network_control_registry() {
    let mut nc = CRNetworkControl::new();
    assert_eq!(nc.get_state(), 20);
    assert_eq!(nc.get_connectivity(), 0);
    assert_eq!(nc.get_version(), "0.1.0");
    let info = CRDeviceInfo::new("eth0".to_string(), CRDeviceType::Ethernet);
    let path = info.path.clone();
    nc.add_device(info);
    assert_eq!(nc.get_devices(), vec![path.clone()]);
    assert_eq!(nc.get_device_by_interface("eth0").unwrap(), path);
    assert!(matches!(nc.get_device_by_interface("wlan0"), Err(DbusError::Failed(_))));
    nc.update_device_state(&path, CRDeviceState::Activated).unwrap();
    assert_eq!(nc.get_device_info_internal(&path).unwrap().state, CRDeviceState::Activated);
    let props = nc.get_device_info(&path).unwrap();
    assert!(matches!(prop(&props, "State"), Some(PropValue::U32(100))));
    assert!(matches!(prop(&props, "Mtu"), Some(PropValue::U32(1500))));
    assert!(prop(&props, "IPv4Address").is_none());
    assert!(nc.check_device(&path).is_ok());
    nc.remove_device(&path).unwrap();
    match nc.remove_device(&path) {
        Err(NetctlError::NotFound(m)) => assert_eq!(m, format!("Device {} not found", path)),
        other => panic!("unexpected {:?}", other),
    }
    assert!(matches!(nc.check_device(&path), Err(DbusError::Failed(_))));
    nc.set_network_state(CRNetworkState::ConnectedGlobal);
    nc.set_connectivity(CRConnectivity::Full);
    assert_eq!(nc.get_state(), 60);
    assert_eq!(nc.get_connectivity(), 4);
    nc.set_wireless_enabled(false);
    assert!(!nc.get_wireless_enabled());
    assert!(nc.get_networking_enabled());
}

#[test]
fn vpn_registry() {
    let mut vpn = CRVPN::new();
    vpn.add_connection(CRVpnInfo::new("work".to_string(), CRVpnType::WireGuard));
    assert_eq!(vpn.get_connections(), vec!["work"]);
    assert_eq!(vpn.get_state("work").unwrap(), CRVpnState::Disconnected.code());
    vpn.update_state("work", CRVpnState::Connected).unwrap();
    assert_eq!(vpn.get_connection("work").unwrap().state, CRVpnState::Connected);
    let info = vpn.get_connection_info("work").unwrap();
    assert!(matches!(prop(&info, "Name"), Some(PropValue::Str(n)) if n == "work"));
    let stats = vpn.get_statistics("work").unwrap();
    assert_eq!(stats.len(), 3);
    assert_eq!(vpn.export_config("work").unwrap(), "# VPN Configuration for work\n# Type: WireGuard\n");
    match vpn.get_state("home") {
        Err(DbusError::Failed(m)) => assert_eq!(m, "VPN connection home not found"),
        other => panic!("unexpected {:?}", other),
    }
    assert!(matches!(vpn.update_state("home", CRVpnState::Failed), Err(NetctlError::NotFound(_))));
    vpn.remove_connection("work").unwrap();
    assert!(vpn.get_connection("work").is_none());
}

#[test]
fn vpn_import() {
    let mut vpn = CRVPN::new();
    assert_eq!(vpn.import_config("OpenVPN", "/etc/office.ovpn", "office").unwrap(), "office");
    assert_eq!(vpn.get_connection("office").unwrap().vpn_type, CRVpnType::OpenVpn);
    assert_eq!(vpn.import_config("tor", "/x", "anon").unwrap(), "anon");
    assert_eq!(vpn.get_connection("anon").unwrap().vpn_type, CRVpnType::Arti);
    match vpn.import_config("pptp", "/x", "y") {
        Err(DbusError::InvalidArgs(m)) => assert_eq!(m, "Unknown VPN type: pptp"),
        other => panic!("unexpected {:?}", other),
    }
    assert!(matches!(vpn.import_config("ipsec", "", "y"), Err(DbusError::InvalidArgs(_))));
    assert!(matches!(vpn.import_config("ipsec", "/x", ""), Err(DbusError::InvalidArgs(_))));
    assert!(vpn.get_connection("y").is_none());
    assert_eq!(vpn.create_from_config("[vpn]").unwrap(), "imported_vpn");
    assert!(vpn.create_from_config("").is_err());
}

#[test]
fn wifi_state() {
    let mut w = CRWiFi::new();
    assert!(w.get_enabled());
    assert_eq!(w.get_current_ssid(), "");
    w.update_access_points(vec![CRAccessPointInfo {
        ssid: "Cafe".to_string(),
        bssid: "aa:bb:cc:dd:ee:ff".to_string(),
        strength: 70,
        security: CRWiFiSecurity::Wpa2,
        frequency: 2437,
        mode: CRWiFiMode::Infrastructure,
    }]);
    let aps = w.get_access_points();
    assert_eq!(aps.len(), 1);
    assert!(matches!(prop(&aps[0], "Security"), Some(PropValue::U32(3))));
    assert!(matches!(prop(&aps[0], "Strength"), Some(PropValue::U32(70))));
    w.set_current_ssid(Some("Cafe".to_string()));
    assert_eq!(w.get_current_ssid(), "Cafe");
    assert!(w.connect("Cafe", "password", 3).is_ok());
    match w.connect("Cafe", "password", 9) {
        Err(DbusError::InvalidArgs(m)) => assert_eq!(m, "Invalid security type: 9"),
        other => panic!("unexpected {:?}", other),
    }
}

#[test]
fn dhcp_server() {
    let mut d = CRDhcp::new();
    assert!(!d.is_running());
    assert!(matches!(d.stop_server(), Err(DbusError::Failed(_))));
    match d.start_server("", "a", "b", "c", vec![]) {
        Err(DbusError::InvalidArgs(m)) => assert_eq!(m, "Interface cannot be empty"),
        other => panic!("unexpected {:?}", other),
    }
    d.start_server("wlan0", "10.0.0.10", "10.0.0.50", "10.0.0.1", vec!["10.0.0.1".to_string()]).unwrap();
    assert!(d.is_running());
    match d.start_server("wlan0", "10.0.0.10", "10.0.0.50", "10.0.0.1", vec![]) {
        Err(DbusError::Failed(m)) => assert_eq!(m, "DHCP server already running"),
        other => panic!("unexpected {:?}", other),
    }
    let status = d.get_status();
    assert!(matches!(prop(&status, "Running"), Some(PropValue::Bool(true))));
    assert!(matches!(prop(&status, "Interface"), Some(PropValue::Str(s)) if s == "wlan0"));
    d.add_lease(CRDhcpLease {
        mac_address: "m1".to_string(),
        ip_address: "10.0.0.11".to_string(),
        hostname: None,
        expiry: 100,
        start_time: 0,
    });
    d.add_lease(CRDhcpLease {
        mac_address: "m2".to_string(),
        ip_address: "10.0.0.12".to_string(),
        hostname: Some("laptop".to_string()),
        expiry: 300,
        start_time: 0,
    });
    assert_eq!(d.get_leases().len(), 2);
    d.remove_leases_expired_at(200);
    let leases = d.get_leases();
    assert_eq!(leases.len(), 1);
    assert!(matches!(prop(&leases[0], "Hostname"), Some(PropValue::Str(h)) if h == "laptop"));
    d.remove_leases_expired_at(200);
    assert_eq!(d.get_leases().len(), 1);
    d.stop_server().unwrap();
    assert!(!d.is_running());
    assert!(matches!(prop(&d.get_status(), "LeaseCount"), Some(PropValue::U32(1))));
}

#[test]
fn privilege_checks() {
    let p = CRPrivilege::new();
    assert_eq!(p.check_grant(60, 0).unwrap(), None);
    assert_eq!(p.check_grant(1440, 1000).unwrap(), Some(1000));
    match p.check_grant(0, 0) {
        Err(DbusError::InvalidArgs(m)) => assert_eq!(m, "Duration must be greater than 0"),
        other => panic!("unexpected {:?}", other),
    }
    assert!(matches!(p.check_grant(1441, 0), Err(DbusError::InvalidArgs(_))));
    assert_eq!(p.revoke_reply(Ok(true)).unwrap(), true);
    assert_eq!(p.revoke_reply(Ok(false)).unwrap(), false);
    match p.revoke_reply(Err(NetctlError::PermissionDenied("no".to_string()))) {
        Err(DbusError::AccessDenied(m)) => assert_eq!(m, "no"),
        other => panic!("unexpected {:?}", other),
    }
    match p.revoke_reply(Err(NetctlError::NotFound("tok".to_string()))) {
        Err(DbusError::Failed(m)) => assert_eq!(m, "Failed to revoke privileges: Not found: tok"),
        other => panic!("unexpected {:?}", other),
    }
}

#[test]
fn discovered_devices() {
    assert_eq!(map_device_type(&device("wlp2s0", &[], &[])), CRDeviceType::WiFi);
    assert_eq!(map_device_type(&device("enp0s3", &[], &[])), CRDeviceType::Ethernet);
    assert_eq!(map_device_type(&device("lo", &[], &[])), CRDeviceType::Loopback);
    assert_eq!(map_device_type(&device("eth0.vlan5", &[], &[])), CRDeviceType::Ethernet);
    assert_eq!(map_device_type(&device("myvlan", &[], &[])), CRDeviceType::Vlan);
    assert_eq!(map_device_type(&device("wg0", &[], &[])), CRDeviceType::Vpn);
    assert_eq!(map_device_type(&device("bnep0", &[], &[])), CRDeviceType::Bluetooth);
    assert_eq!(map_device_type(&device("xyz", &[], &[])), CRDeviceType::Unknown);
    let info = device_info_for(&device("eth0", &["fe80::1/64", "10.0.0.2/24", "10.0.0.3/24"], &["UP"]));
    assert_eq!(info.path, device_path("eth0"));
    assert_eq!(info.path, "/org/crrouter/NetworkControl/Devices/eth0");
    assert_eq!(info.mtu, 9000);
    assert_eq!(info.hw_address.as_deref(), Some("00:11:22:33:44:55"));
    assert_eq!(info.ipv6_address.as_deref(), Some("fe80::1/64"));
    assert_eq!(info.ipv4_address.as_deref(), Some("10.0.0.2/24"));
    assert_eq!(info.state, CRDeviceState::Activated);
    let down = device_info_for(&device("eth1", &[], &["BROADCAST"]));
    assert_eq!(down.state, CRDeviceState::Disconnected);
    assert!(down.ipv4_address.is_none());
}

#[test]
fn bus_device_properties() {
    let mut d = BusDevice::new(CRDeviceInfo::new("eth0".to_string(), CRDeviceType::Ethernet));
    assert_eq!(d.get_interface(), "eth0");
    assert_eq!(d.get_device_type(), 1);
    assert_eq!(d.get_state(), 30);
    assert_eq!(d.get_ipv4_address(), "");
    d.set_state(CRDeviceState::Activated);
    d.set_ipv4_address(Some("10.0.0.2".to_string()));
    assert_eq!(d.get_state(), 100);
    assert_eq!(d.get_ipv4_address(), "10.0.0.2");
    assert!(d.set_mtu(1400).is_ok());
    assert_eq!(d.get_mtu(), 1400);
    let props = d.get_all_properties();
    assert!(matches!(prop(&props, "Mtu"), Some(PropValue::U32(1400))));
    assert!(d.set_autoconnect(false).is_ok());
    assert!(!d.get_autoconnect());
    assert!(d.set_managed(false).is_ok());
    assert!(!d.get_managed());
}

#[test]
fn expired_leases_are_dropped_by_the_clock() {
    let mut d = CRDhcp::new();
    for (mac, expiry) in [("old", 1u64), ("new", u64::MAX)] {
        d.add_lease(CRDhcpLease {
            mac_address: mac.to_string(),
            ip_address: "10.0.0.9".to_string(),
            hostname: None,
            expiry,
            start_time: 0,
        });
    }
    d.remove_expired_leases();
    let leases = d.get_leases();
    assert_eq!(leases.len(), 1);
    assert!(matches!(prop(&leases[0], "MACAddress"), Some(PropValue::Str(m)) if m == "new"));
}

#[test]
fn privilege_token_replies() {
    let p = CRPrivilege::new();
    assert_eq!(p.verify_reply(Ok(Some(Ok(true)))).unwrap(), true);
    assert_eq!(p.verify_reply(Ok(Some(Ok(false)))).unwrap(), false);
    assert_eq!(p.verify_reply(Ok(None)).unwrap(), false);
    match p.verify_reply(Ok(Some(Err(NetctlError::ParseError("bad signature".to_string()))))) {
        Err(DbusError::Failed(m)) => assert_eq!(m, "Token verification failed: Parse error: bad signature"),
        other => panic!("unexpected {:?}", other),
    }
    match p.verify_reply(Err(NetctlError::PermissionDenied("root only".to_string()))) {
        Err(DbusError::Failed(m)) => assert_eq!(m, "Failed to load token: Permission denied: root only"),
        other => panic!("unexpected {:?}", other),
    }
    assert_eq!(p.remaining_time_reply(Ok(Some((Ok(true), 600)))), 600);
    assert_eq!(p.remaining_time_reply(Ok(Some((Ok(false), 600)))), 0);
    assert_eq!(p.remaining_time_reply(Ok(Some((Err(NetctlError::Timeout("t".to_string())), 600)))), 0);
    assert_eq!(p.remaining_time_reply(Ok(None)), 0);
    assert_eq!(p.remaining_time_reply(Err(NetctlError::NotFound("x".to_string()))), 0);
    assert_eq!(p.status_validity(Ok(Some(Ok(true)))), (true, None));
    assert_eq!(p.status_validity(Ok(Some(Err(NetctlError::Timeout("t".to_string()))))), (false, None));
    assert_eq!(p.status_validity(Ok(None)), (false, None));
    assert_eq!(
        p.status_validity(Err(NetctlError::ConfigError("corrupt".to_string()))),
        (false, Some("Configuration error: corrupt".to_string()))
    );
}
