use libnetctl::device::{Device, DeviceState, DeviceType};
use libnetctl::error::NetctlError;
use libnetctl::libnm_compat::access_point::{CRAccessPoint, CRAccessPointMode};
use libnetctl::libnm_compat::active_connection::{CRActiveConnection, CRDhcpConfig};
use libnetctl::libnm_compat::client::CRClient;
use libnetctl::libnm_compat::connection::{uuid_from_random, CRConnection, CRRemoteConnection};
use libnetctl::libnm_compat::device::{CRDevice, CRDeviceState, CRDeviceType};
use libnetctl::libnm_compat::enums::{CRActiveConnectionState, CRConnectivityState, CRState};
use libnetctl::libnm_compat::ip_config::{CRIPAddress, CRIPConfig, CRIPRoute};
use libnetctl::libnm_compat::settings::CRSetting;
use libnetctl::strmap::StrMap;

fn is_uuid_v4(s: &str) -> bool {
    let b: Vec<char> = s.chars().collect();
    b.len() == 36
        && b.iter().enumerate().all(|(i, c)| {
            if [8, 13, 18, 23].contains(&i) { *c == '-' } else { c.is_ascii_hexdigit() && !c.is_ascii_uppercase() }
        })
        && b[14] == '4'
        && "89ab".contains(b[19])
}

fn dev(name: &str, t: DeviceType, s: DeviceState) -> CRDevice {
    CRDevice::from_device(Device {
        name: name.to_string(),
        device_type: t,
        state: s,
        driver: Some("e1000e".to_string()),
        mac_address: Some("00:11:22:33:44:55".to_string()),
        mtu: None,
        addresses: vec![],
        flags: vec![],
        stats: None,
    })
}

#[test]
fn nm_ip_addresses() {
    let a = CRIPAddress::new("192.168.1.10".to_string(), 24);
    assert!(a.is_ipv4());
    assert!(!a.is_ipv6());
    assert_eq!(a.get_netmask(), Some(0xffff_ff00));
    assert_eq!(a.to_cidr(), "192.168.1.10/24");
    assert_eq!(CRIPAddress::new("10.0.0.1".to_string(), 0).get_netmask(), Some(0));
    assert_eq!(CRIPAddress::new("10.0.0.1".to_string(), 32).get_netmask(), Some(0xffff_ffff));
    assert_eq!(CRIPAddress::new("10.0.0.1".to_string(), 33).get_netmask(), None);
    let v6 = CRIPAddress::new("fe80::1".to_string(), 64);
    assert!(v6.is_ipv6());
    assert_eq!(v6.get_netmask(), None);
    let bad = CRIPAddress::new("not-an-ip".to_string(), 8);
    assert!(!bad.is_ipv4() && !bad.is_ipv6());
}

#[test]
fn ip_routes() {
    let mut r = CRIPRoute::new("0.0.0.0".to_string(), 0);
    assert!(r.is_default());
    assert_eq!(r.get_metric(), -1);
    assert_eq!(r.to_string_format(), "0.0.0.0/0");
    r.set_next_hop("192.168.1.1".to_string());
    r.set_metric(100);
    assert_eq!(r.to_string_format(), "0.0.0.0/0 via 192.168.1.1 metric 100");
    assert!(CRIPRoute::new("::".to_string(), 0).is_default());
    assert!(!CRIPRoute::new("10.0.0.0".to_string(), 8).is_default());
}

#[test]
fn ip_configs() {
    let mut c = CRIPConfig::new(false, "eth0");
    assert_eq!(c.get_iface(), "eth0");
    assert!(c.get_addresses().is_empty());
    assert!(c.get_gateway().is_none());
    c.add_address(CRIPAddress::new("10.0.0.2".to_string(), 24));
    c.add_route(CRIPRoute::new("10.1.0.0".to_string(), 16));
    c.add_nameserver("1.1.1.1".to_string());
    c.set_gateway("10.0.0.1".to_string());
    assert_eq!(c.get_addresses().len(), 1);
    assert_eq!(c.get_routes().len(), 1);
    assert_eq!(c.get_nameservers(), &["1.1.1.1".to_string()]);
    assert_eq!(c.get_gateway(), Some("10.0.0.1"));
    assert_eq!(c.get_dns_priority(), 0);
}

#[test]
fn access_points_from_scans() {
    let caps = vec!["ESS".to_string(), "RSN".to_string()];
    let ap = CRAccessPoint::from_scan_data(
        Some("Cafe".to_string()),
        "aa:bb:cc:dd:ee:ff".to_string(),
        Some(2437),
        &caps,
        80,
        1_700_000_000,
    );
    assert_eq!(ap.get_ssid_string(), "Cafe");
    assert_eq!(ap.get_ssid(), b"Cafe");
    assert_eq!(ap.get_channel(), 6);
    assert_eq!(ap.get_strength(), 80);
    assert_eq!(ap.get_rsn_flags(), 0x344);
    assert_eq!(ap.get_wpa_flags(), 0);
    assert_eq!(ap.get_flags(), 0);
    assert!(ap.is_secured());
    assert_eq!(ap.get_security_type(), "WPA2");
    assert_eq!(ap.get_mode(), CRAccessPointMode::Infra);
    assert_eq!(ap.get_max_bitrate(), 54000);
    assert_eq!(ap.get_last_seen(), 1_700_000_000);
    assert_eq!(ap.get_path(), "/org/freedesktop/NetworkManager/AccessPoint/aabbccddeeff");

    let wpa = CRAccessPoint::from_scan_data(None, "b".to_string(), Some(5180), &vec!["WPA-PSK".to_string()], 10, 0);
    assert_eq!(wpa.get_ssid_string(), "");
    assert_eq!(wpa.get_channel(), 36);
    assert_eq!(wpa.get_security_type(), "WPA");
    assert_eq!(wpa.get_flags(), 1);

    let open = CRAccessPoint::from_scan_data(None, "c".to_string(), None, &vec![], 0, 0);
    assert!(!open.is_secured());
    assert_eq!(open.get_security_type(), "Open");
    assert_eq!(open.get_frequency(), 0);
    assert_eq!(open.get_channel(), 0);

    let wep = CRAccessPoint::from_scan_data(None, "d".to_string(), Some(2484), &vec!["Privacy".to_string()], 0, 0);
    assert_eq!(wep.get_security_type(), "WEP");
    assert_eq!(wep.get_channel(), 14);

    let now = CRAccessPoint::from_scan_result(Some("x".to_string()), "e".to_string(), Some(2412), &vec![], 50);
    assert_eq!(now.get_channel(), 1);
    assert!(now.get_last_seen() > 0);
}

#[test]
fn devices() {
    let d = dev("eth0", DeviceType::Ethernet, DeviceState::Up);
    assert_eq!(d.get_iface(), "eth0");
    assert_eq!(d.get_device_type(), CRDeviceType::Ethernet);
    assert_eq!(d.get_state(), CRDeviceState::Activated);
    assert_eq!(d.get_state().code(), 100);
    assert_eq!(d.get_driver().as_deref(), Some("e1000e"));
    assert_eq!(d.get_hw_address().as_deref(), Some("00:11:22:33:44:55"));
    assert_eq!(d.get_mtu(), 1500);
    assert!(d.get_ip4_config().is_some());
    assert!(d.get_ip6_config().unwrap().is_ipv6());
    match d.delete() {
        Err(NetctlError::NotSupported(m)) => {
            assert_eq!(m, "Device deletion not supported for physical devices")
        },
        other => panic!("unexpected {:?}", other),
    }
    let down = dev("wlan0", DeviceType::Wifi, DeviceState::Down);
    assert_eq!(down.get_state(), CRDeviceState::Disconnected);
    assert!(down.get_ip4_config().is_none());
    assert!(down.get_active_connection().is_none());
    let br = dev("br0", DeviceType::Bridge, DeviceState::Up);
    assert!(br.get_capabilities().is_software);
}

#[test]
fn connections() {
    let c = CRConnection::new();
    assert_eq!(c.get_id(), "New Connection");
    assert!(is_uuid_v4(c.get_uuid()));
    assert!(c.is_type_ethernet());
    assert!(c.verify().is_ok());
    assert_eq!(
        c.get_path(),
        format!("/org/freedesktop/NetworkManager/Settings/{}", c.get_uuid().replace('-', ""))
    );
    let other = CRConnection::new();
    assert_ne!(c.get_uuid(), other.get_uuid());
    assert!(!c.compare(&other));
    assert!(c.compare(&c));
    let copy = c.duplicate();
    assert_eq!(copy.get_id(), "New Connection copy");
    assert!(is_uuid_v4(copy.get_uuid()));

    let wifi = CRConnection::new_for_device(&dev("wlan0", DeviceType::Wifi, DeviceState::Down)).unwrap();
    assert_eq!(wifi.get_id(), "wlan0 connection");
    assert_eq!(wifi.get_interface_name(), Some("wlan0"));
    assert!(wifi.is_type_wifi());
    assert!(wifi.get_setting_wireless().is_some());
    assert!(wifi.get_setting_wired().is_none());
}

#[test]
fn connection_checks_and_settings() {
    let mut c = CRConnection::new();
    c.connection.id = String::new();
    match c.verify() {
        Err(NetctlError::InvalidParameter(m)) => assert_eq!(m, "Connection ID cannot be empty"),
        other => panic!("unexpected {:?}", other),
    }
    c.connection.uuid = String::new();
    c.normalize().unwrap();
    assert_eq!(c.get_id(), "Connection");
    assert!(is_uuid_v4(c.get_uuid()));
    c.connection.uuid = String::new();
    match c.verify() {
        Err(NetctlError::InvalidParameter(m)) => assert_eq!(m, "Connection UUID cannot be empty"),
        other => panic!("unexpected {:?}", other),
    }
    let mut props = StrMap::new();
    props.insert("mtu", "1400".to_string());
    c.add_setting("802-3-ethernet".to_string(), CRSetting { name: "802-3-ethernet".to_string(), properties: props });
    assert_eq!(c.get_setting_by_name("802-3-ethernet").unwrap().name, "802-3-ethernet");
    assert!(c.remove_setting("802-3-ethernet").is_some());
    assert!(c.get_setting_by_name("802-3-ethernet").is_none());
    assert!(c.remove_setting("802-3-ethernet").is_none());
}

#[test]
fn device_compatibility() {
    let eth = dev("eth0", DeviceType::Ethernet, DeviceState::Up);
    let mut c = CRConnection::new();
    assert!(eth.connection_compatible(&c));
    c.connection.interface_name = Some("eth1".to_string());
    assert!(eth.connection_compatible(&c));
    c.connection.connection_type = "vpn".to_string();
    assert!(!eth.connection_compatible(&c));
    let wifi = CRConnection::new_for_device(&dev("wlan0", DeviceType::Wifi, DeviceState::Up)).unwrap();
    assert!(!eth.connection_compatible(&wifi));
}

#[test]
fn active_connections() {
    let eth = dev("eth0", DeviceType::Ethernet, DeviceState::Up);
    let active = eth.get_active_connection().unwrap();
    assert_eq!(active.get_id(), "eth0 active");
    assert_eq!(active.get_state(), CRActiveConnectionState::Activated);
    assert!(active.get_device().is_some());
    assert!(!active.get_vpn());
    assert!(!active.get_default());
    assert!(active.get_path().starts_with("/org/freedesktop/NetworkManager/ActiveConnection/"));
    assert!(!active.get_path().contains('-'));

    let conn = CRConnection::new();
    let uuid = conn.get_uuid().to_string();
    let a = CRActiveConnection::new(conn, None).unwrap();
    assert_eq!(a.get_uuid(), uuid);
    assert_eq!(a.get_connection_type(), "802-3-ethernet");
    assert!(a.get_device().is_none());
    assert!(a.get_devices().is_empty());
    assert!(a.get_specific_object().is_none());

    let d = CRDhcpConfig::new();
    assert!(d.get_one_option("subnet_mask").is_none());
}

#[test]
fn remote_connections() {
    let mut r = CRRemoteConnection::new(CRConnection::new());
    assert!(r.get_visible());
    assert!(!r.get_unsaved());
    r.update(CRConnection::new());
    assert!(r.get_unsaved());
    assert!(r.commit_changes().is_ok());
    assert!(!r.get_unsaved());
    assert!(r.save().is_ok());
}

#[test]
fn enum_numbers() {
    assert_eq!(CRState::ConnectedGlobal.code(), 70);
    assert_eq!(CRState::Asleep.code(), 10);
    assert_eq!(CRConnectivityState::NoConnectivity.code(), 1);
    assert_eq!(CRConnectivityState::Full.code(), 4);
    assert_eq!(CRActiveConnectionState::Deactivated.code(), 4);
    assert_eq!(CRDeviceType::Wifi.code(), 2);
    let t: CRDeviceType = DeviceType::TunTap.into();
    assert_eq!(t, CRDeviceType::Tun);
    let s: CRDeviceState = DeviceState::Error.into();
    assert_eq!(s, CRDeviceState::Failed);
}

#[test]
fn client_queries() {
    let mut client = CRClient::new();
    assert_eq!(client.get_state(), CRState::ConnectedGlobal);
    assert_eq!(client.get_connectivity(), CRConnectivityState::Full);
    assert_eq!(client.check_connectivity().unwrap(), CRConnectivityState::Full);
    assert!(client.networking_get_enabled() && client.wireless_get_enabled() && client.get_nm_running());
    assert_eq!(client.get_version(), "0.1.0");
    client.networking_set_enabled(false).unwrap();
    assert_eq!(client.get_state(), CRState::Asleep);
    client.networking_set_enabled(true).unwrap();
    assert_eq!(client.get_state(), CRState::ConnectedGlobal);

    let devices = || {
        vec![
            dev("lo", DeviceType::Loopback, DeviceState::Down),
            dev("eth0", DeviceType::Ethernet, DeviceState::Up),
            dev("wlan0", DeviceType::Wifi, DeviceState::Up),
        ]
    };
    assert_eq!(client.get_device_by_iface(devices(), "wlan0").unwrap().get_iface(), "wlan0");
    assert!(client.get_device_by_iface(devices(), "eth9").is_none());
    assert_eq!(
        client.get_device_by_path(devices(), "/org/freedesktop/NetworkManager/Devices/eth0").unwrap().get_iface(),
        "eth0"
    );
    let list = devices();
    let active = client.get_active_connections(&list);
    assert_eq!(active.len(), 2);
    assert_eq!(active[0].get_id(), "eth0 active");
    assert_eq!(active[1].get_id(), "wlan0 active");
    assert_eq!(client.get_primary_connection(&list).unwrap().get_id(), "eth0 active");
    assert!(client.get_primary_connection(&vec![dev("lo", DeviceType::Loopback, DeviceState::Down)]).is_none());
}

#[test]
fn client_activation() {
    let client = CRClient::default();
    let eth = dev("eth0", DeviceType::Ethernet, DeviceState::Up);
    let conn = CRConnection::new();
    match client.activate_connection(&conn, None) {
        Err(NetctlError::InvalidParameter(m)) => assert_eq!(m, "Device required for activation"),
        other => panic!("unexpected {:?}", other),
    }
    let a = client.activate_connection(&conn, Some(&eth)).unwrap();
    assert_eq!(a.get_uuid(), conn.get_uuid());
    assert_eq!(client.deactivate_connection(&a).as_deref(), Some("eth0"));
    let fresh = client.add_and_activate_connection(None, &eth).unwrap();
    assert_eq!(fresh.get_id(), "eth0 connection");
    let given = client.add_and_activate_connection(Some(&conn), &eth).unwrap();
    assert_eq!(given.get_id(), "New Connection");
    let detached = CRActiveConnection::new(CRConnection::new(), None).unwrap();
    assert!(client.deactivate_connection(&detached).is_none());
}

#[test]
fn access_point_from_scan_now_keeps_scan_data() {
    let caps = vec!["WPA-PSK".to_string()];
    let ap = CRAccessPoint::from_scan_result(Some("Home".to_string()), "aa".to_string(), Some(5180), &caps, 70);
    assert_eq!(ap.get_frequency(), 5180);
    assert_eq!(ap.get_channel(), 36);
    assert_eq!(ap.get_flags(), 1);
    assert_eq!(ap.get_wpa_flags(), 0x344);
    assert_eq!(ap.get_rsn_flags(), 0);
    assert_eq!(ap.get_max_bitrate(), 54000);
    let hidden = CRAccessPoint::from_scan_result(None, "bb".to_string(), None, &vec![], 0);
    assert_eq!(hidden.get_frequency(), 0);
    assert_eq!(hidden.get_channel(), 0);
    assert!(!hidden.is_secured());
}

#[test]
fn ip_config_changes_keep_family_interface_and_dns_details() {
    for ipv6 in [false, true] {
        let mut c = CRIPConfig::new(ipv6, "wlan0");
        c.add_address(CRIPAddress::new("10.0.0.2".to_string(), 24));
        c.add_address(CRIPAddress::new("10.0.0.2".to_string(), 24));
        c.add_route(CRIPRoute::new("0.0.0.0".to_string(), 0));
        c.add_nameserver("9.9.9.9".to_string());
        c.add_nameserver("9.9.9.9".to_string());
        c.set_gateway("10.0.0.1".to_string());
        c.set_gateway("10.0.0.254".to_string());
        assert_eq!(c.is_ipv6(), ipv6);
        assert_eq!(c.get_iface(), "wlan0");
        assert_eq!(c.get_addresses().len(), 2);
        assert_eq!(c.get_nameservers(), &["9.9.9.9".to_string(), "9.9.9.9".to_string()]);
        assert_eq!(c.get_gateway(), Some("10.0.0.254"));
        assert!(c.get_domains().is_empty());
        assert!(c.get_searches().is_empty());
        assert!(c.get_dns_options().is_empty());
        assert!(c.get_wins_servers().is_empty());
        assert_eq!(c.get_dns_priority(), 0);
    }
}

#[test]
fn settings_leave_the_setting_groups_alone() {
    let mut c = CRConnection::new();
    let before_id = c.get_id().to_string();
    let had_wired = c.get_setting_wired().is_some();
    let had_ip4 = c.get_setting_ip4_config().is_some();
    let setting = CRSetting { name: "vpn".to_string(), properties: StrMap::new() };
    c.add_setting("vpn".to_string(), setting);
    assert_eq!(c.get_id(), before_id);
    assert_eq!(c.get_setting_wired().is_some(), had_wired);
    assert_eq!(c.get_setting_ip4_config().is_some(), had_ip4);
    let removed = c.remove_setting("vpn").unwrap();
    assert_eq!(removed.name, "vpn");
    assert_eq!(c.get_setting_wired().is_some(), had_wired);
    assert_eq!(c.get_setting_ip4_config().is_some(), had_ip4);
}

#[test]
fn access_point_security_and_channels_as_networkmanager_reads_them() {
    let wpa2 = CRAccessPoint::from_scan_data(None, "a".to_string(), Some(2412), &vec!["WPA2-PSK-CCMP".to_string()], 0, 0);
    assert_eq!(wpa2.get_rsn_flags(), 0x344);
    assert_eq!(wpa2.get_security_type(), "WPA2");
    let wpa3 = CRAccessPoint::from_scan_data(None, "b".to_string(), Some(5180), &vec!["WPA3-SAE".to_string()], 0, 0);
    assert_eq!(wpa3.get_rsn_flags(), 0x744);
    assert_eq!(wpa3.get_security_type(), "WPA3");
    let ch = |f: u32| CRAccessPoint::from_scan_data(None, "c".to_string(), Some(f), &vec![], 0, 0).get_channel();
    assert_eq!(ch(2412), 1);
    assert_eq!(ch(2437), 6);
    assert_eq!(ch(2472), 13);
    assert_eq!(ch(2484), 14);
    assert_eq!(ch(5180), 36);
    assert_eq!(ch(5825), 165);
    assert_eq!(ch(2400), 0);
    assert_eq!(ch(6000), 0);
}

#[test]
fn uuids_from_random_bytes() {
    assert_eq!(uuid_from_random(None), None);
    assert_eq!(uuid_from_random(Some([0u8; 16])).unwrap(), "00000000-0000-4000-8000-000000000000");
    assert_eq!(uuid_from_random(Some([0xffu8; 16])).unwrap(), "ffffffff-ffff-4fff-bfff-ffffffffffff");
    let bytes = [0x12, 0x34, 0x56, 0x78, 0x9a, 0xbc, 0xde, 0xf0, 0x12, 0x34, 0x56, 0x78, 0x9a, 0xbc, 0xde, 0xf0];
    assert_eq!(uuid_from_random(Some(bytes)).unwrap(), "12345678-9abc-4ef0-9234-56789abcdef0");
    let fresh = CRConnection::new();
    assert!(is_uuid_v4(fresh.get_uuid()));
}
