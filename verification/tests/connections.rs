use libnetctl::connection_config::{
    config_name_of_file, default_wifi_mode, stem_with_extension, ConnectionConfigManager, ConnectionSection,
    IpConfigSection, NetctlConnectionConfig, VpnSection, WifiSection, WifiSecuritySection,
};
use libnetctl::connection_manager::{
    deactivation_plan, ipv4_plan, vpn_section_check, wifi_credentials, ActiveConnection,
    ActiveConnections, IpPlan,
};
use libnetctl::error::NetctlError;
use libnetctl::nm_converter::{nm_to_netctl, parse_ip_section, parse_nmconnection};
use libnetctl::plugin::SettingValue;
use libnetctl::strmap::StrMap;

fn base(conn_type: &str, iface: Option<&str>) -> NetctlConnectionConfig {
    NetctlConnectionConfig {
        connection: ConnectionSection {
            name: "home".to_string(),
            uuid: "1234".to_string(),
            conn_type: conn_type.to_string(),
            autoconnect: true,
            interface_name: iface.map(|s| s.to_string()),
            plugin: None,
        },
        wifi: None,
        wifi_security: None,
        vpn: None,
        ethernet: None,
        ipv4: None,
        ipv6: None,
    }
}

fn ip(method: &str, address: Option<&str>) -> Option<IpConfigSection> {
    Some(IpConfigSection {
        method: method.to_string(),
        address: address.map(|s| s.to_string()),
        gateway: None,
        dns: Some(vec!["1.1.1.1".to_string()]),
        routes: None,
    })
}

#[test]
fn plugin_configuration() {
    let mut c = base("wifi", Some("wlan0"));
    c.wifi = Some(WifiSection { ssid: "MyNet".to_string(), mode: default_wifi_mode(), bssid: None, channel: Some(6) });
    c.wifi_security = Some(WifiSecuritySection {
        key_mgmt: "wpa-psk".to_string(),
        psk: Some("secret123".to_string()),
        password: None,
    });
    c.ipv4 = ip("manual", Some("10.0.0.2/24"));
    let p = c.to_plugin_config();
    assert_eq!(p.uuid, "1234");
    assert_eq!(p.name, "home");
    assert!(p.autoconnect);
    let names: Vec<&str> = p.settings.iter().map(|(k, _)| k.as_str()).collect();
    assert_eq!(names, vec!["ssid", "mode", "channel", "key-mgmt", "psk", "ipv4_address", "ipv4_dns"]);
    assert!(matches!(&p.settings[1].1, SettingValue::Str(s) if s == "infrastructure"));
    assert!(matches!(&p.settings[2].1, SettingValue::UInt(6)));
    assert!(matches!(&p.settings[6].1, SettingValue::StrList(l) if l == &vec!["1.1.1.1".to_string()]));
}

#[test]
fn config_files() {
    let m = ConnectionConfigManager::new("/etc/netctl/connections");
    assert_eq!(m.config_dir(), "/etc/netctl/connections");
    assert_eq!(m.config_path("home"), "/etc/netctl/connections/home.nctl");
    assert_eq!(m.config_path("/tmp/x"), "/tmp/x.nctl");
    assert_eq!(ConnectionConfigManager::default().config_dir(), "/etc/netctl/connections");
    assert_eq!(config_name_of_file("home.nctl").unwrap(), "home");
    assert_eq!(config_name_of_file("a.b.nctl").unwrap(), "a.b");
    assert!(config_name_of_file("home.toml").is_none());
    assert!(config_name_of_file(".nctl").is_none());
    assert!(config_name_of_file("nctl").is_none());
    assert_eq!(stem_with_extension("home.nmconnection", "nmconnection").unwrap(), "home");
    assert!(stem_with_extension("home.nmconnection.bak", "nmconnection").is_none());
}

#[test]
fn ip_plans() {
    let mut c = base("ethernet", Some("eth0"));
    assert!(matches!(ipv4_plan(&c), Ok(IpPlan::StartDhcp)));
    c.ipv4 = ip("auto", None);
    assert!(matches!(ipv4_plan(&c), Ok(IpPlan::StartDhcp)));
    c.ipv4 = ip("manual", Some("192.168.1.10/24"));
    match ipv4_plan(&c) {
        Ok(IpPlan::Static { address, prefix }) => {
            assert_eq!(address, "192.168.1.10");
            assert_eq!(prefix, 24);
        },
        other => panic!("unexpected {:?}", other),
    }
    c.ipv4 = ip("manual", None);
    assert!(matches!(ipv4_plan(&c), Ok(IpPlan::NoAction)));
    c.ipv4 = ip("manual", Some("192.168.1.10"));
    match ipv4_plan(&c) {
        Err(NetctlError::ConfigError(m)) => assert_eq!(m, "Invalid IP address format: 192.168.1.10"),
        other => panic!("unexpected {:?}", other),
    }
    c.ipv4 = ip("manual", Some("192.168.1.10/abc"));
    match ipv4_plan(&c) {
        Err(NetctlError::ConfigError(m)) => assert_eq!(m, "Invalid prefix length: abc"),
        other => panic!("unexpected {:?}", other),
    }
    c.ipv4 = ip("link-local", None);
    assert!(matches!(ipv4_plan(&c), Ok(IpPlan::NoAction)));
}

#[test]
fn wifi_and_vpn_requirements() {
    let mut c = base("wifi", Some("wlan0"));
    match wifi_credentials(&c) {
        Err(NetctlError::ConfigError(m)) => assert_eq!(m, "WiFi connection must have [wifi] section"),
        other => panic!("unexpected {:?}", other),
    }
    c.wifi = Some(WifiSection { ssid: "Net".to_string(), mode: default_wifi_mode(), bssid: None, channel: None });
    assert_eq!(wifi_credentials(&c).unwrap(), ("Net".to_string(), None));
    c.wifi_security = Some(WifiSecuritySection {
        key_mgmt: "wpa-eap".to_string(),
        psk: None,
        password: Some("pw".to_string()),
    });
    assert_eq!(wifi_credentials(&c).unwrap(), ("Net".to_string(), Some("pw".to_string())));
    let mut v = base("vpn", None);
    assert!(matches!(vpn_section_check(&v), Err(NetctlError::ConfigError(_))));
    v.vpn = Some(VpnSection {
        connection_type: "wireguard".to_string(),
        wireguard: None,
        openvpn: None,
        remote: None,
        port: None,
        proto: None,
        ca: None,
        cert: None,
        key: None,
        config_file: None,
    });
    assert!(vpn_section_check(&v).is_ok());
}

#[test]
fn one_connection_per_interface() {
    let mut active = ActiveConnections::new();
    let c = base("ethernet", Some("eth0"));
    assert_eq!(active.activation_interface(&c).unwrap(), "eth0");
    active.record(ActiveConnection {
        name: "home".to_string(),
        uuid: "1234".to_string(),
        interface: "eth0".to_string(),
        conn_type: "ethernet".to_string(),
        dhcp_active: true,
        config: c.clone(),
    });
    match active.activation_interface(&c) {
        Err(NetctlError::AlreadyExists(m)) => assert_eq!(m, "Connection already active on eth0"),
        other => panic!("unexpected {:?}", other),
    }
    match active.activation_interface(&base("ethernet", None)) {
        Err(NetctlError::ConfigError(m)) => assert_eq!(m, "Connection must specify interface-name"),
        other => panic!("unexpected {:?}", other),
    }
    assert_eq!(active.interfaces(), vec!["eth0"]);
    let conn = active.take("eth0").unwrap();
    let plan = deactivation_plan(&conn);
    assert!(plan.stop_dhcp);
    assert!(!plan.disconnect_wifi);
    assert!(plan.disconnect_vpn.is_none());
    assert!(active.get("eth0").is_none());
    assert!(active.activation_interface(&c).is_ok());
}

#[test]
fn vpn_deactivation() {
    let conn = ActiveConnection {
        name: "work".to_string(),
        uuid: "u-1".to_string(),
        interface: "wg0".to_string(),
        conn_type: "vpn".to_string(),
        dhcp_active: false,
        config: base("vpn", Some("wg0")),
    };
    let plan = deactivation_plan(&conn);
    assert!(!plan.stop_dhcp);
    assert_eq!(plan.disconnect_vpn.as_deref(), Some("u-1"));
}

const WIFI_KEYFILE: &str = "[connection]\nid=Home WiFi\nuuid=abcd-1234\ntype=wifi\ninterface-name=wlan0\nautoconnect=true\n\n[wifi]\nssid=HomeNet\nmode=infrastructure\n\n[wifi-security]\nkey-mgmt=wpa-psk\npsk=supersecret\n\n# a comment\n[ipv4]\nmethod=manual\naddress1=192.168.1.50/24,192.168.1.1\ndns=8.8.8.8;8.8.4.4;\n\n[ipv6]\nmethod=auto\n";

#[test]
fn keyfile_sections() {
    let m = parse_nmconnection(WIFI_KEYFILE);
    assert_eq!(m.len(), 5);
    assert_eq!(m.get_ref("connection").unwrap().get_ref("id").unwrap(), "Home WiFi");
    assert_eq!(m.get_ref("ipv4").unwrap().get_ref("dns").unwrap(), "8.8.8.8;8.8.4.4;");
    let spaced = parse_nmconnection("key=before\n[a]\n  k = v  \n; note\nnovalue\n[a]\nx=y\n");
    assert_eq!(spaced.len(), 1);
    let a = spaced.get_ref("a").unwrap();
    assert!(a.get_ref("k").is_none());
    assert_eq!(a.get_ref("x").unwrap(), "y");
    let b = parse_nmconnection("[b]\n  k = v  \n");
    assert_eq!(b.get_ref("b").unwrap().get_ref("k").unwrap(), "v");
}

#[test]
fn keyfile_conversion() {
    let m = parse_nmconnection(WIFI_KEYFILE);
    let c = nm_to_netctl(&m).unwrap();
    assert_eq!(c.connection.name, "Home WiFi");
    assert_eq!(c.connection.uuid, "abcd-1234");
    assert_eq!(c.connection.conn_type, "wifi");
    assert!(c.connection.autoconnect);
    assert_eq!(c.connection.interface_name.as_deref(), Some("wlan0"));
    let w = c.wifi.unwrap();
    assert_eq!(w.ssid, "HomeNet");
    assert_eq!(w.mode, "infrastructure");
    let s = c.wifi_security.unwrap();
    assert_eq!(s.key_mgmt, "wpa-psk");
    assert_eq!(s.psk.as_deref(), Some("supersecret"));
    let v4 = c.ipv4.unwrap();
    assert_eq!(v4.method, "manual");
    assert_eq!(v4.address.as_deref(), Some("192.168.1.50/24,192.168.1.1"));
    assert_eq!(v4.gateway.as_deref(), Some("192.168.1.1"));
    assert_eq!(v4.dns.unwrap(), vec!["8.8.8.8", "8.8.4.4"]);
    assert_eq!(c.ipv6.unwrap().method, "auto");
    assert!(c.vpn.is_none());
    assert!(c.ethernet.is_none());
}

#[test]
fn keyfile_errors() {
    let missing = |text: &str| nm_to_netctl(&parse_nmconnection(text)).unwrap_err();
    assert_eq!(missing("[wifi]\nssid=x\n"), "Missing [connection] section");
    assert_eq!(missing("[connection]\nid=a\nuuid=b\n"), "Missing connection type");
    assert_eq!(missing("[connection]\nid=a\ntype=ethernet\n"), "Missing UUID");
    assert_eq!(missing("[connection]\nuuid=b\ntype=ethernet\n"), "Missing connection ID");
    assert_eq!(missing("[connection]\nid=a\nuuid=b\ntype=wifi\n"), "Missing wifi section");
    assert_eq!(missing("[connection]\nid=a\nuuid=b\ntype=wifi\n[wifi]\nmode=ap\n"), "Missing SSID");
    assert_eq!(
        missing("[connection]\nid=a\nuuid=b\ntype=ethernet\n[wifi-security]\npsk=x\n"),
        "Missing key-mgmt"
    );
    assert_eq!(missing("[connection]\nid=a\nuuid=b\ntype=vpn\n"), "Missing vpn section");
    assert_eq!(missing("[connection]\nid=a\nuuid=b\ntype=ethernet\n[ipv4]\naddress=1.2.3.4/8\n"), "Missing IP method");
}

#[test]
fn ethernet_and_vpn_keyfiles() {
    let eth = nm_to_netctl(&parse_nmconnection(
        "[connection]\nid=wired\nuuid=u\ntype=802-3-ethernet\n[802-3-ethernet]\nmac-address=00:11:22:33:44:55\nmtu=1400\n",
    ))
    .unwrap();
    assert!(!eth.connection.autoconnect);
    let e = eth.ethernet.unwrap();
    assert_eq!(e.mac_address.as_deref(), Some("00:11:22:33:44:55"));
    assert_eq!(e.mtu, Some(1400));
    assert!(eth.ipv4.is_none());

    let vpn = nm_to_netctl(&parse_nmconnection(
        "[connection]\nid=work\nuuid=v\ntype=vpn\n[vpn]\nremote=vpn.example.com\nport=1194\nproto=udp\nconfig=/etc/work.ovpn\n",
    ))
    .unwrap();
    let v = vpn.vpn.unwrap();
    assert_eq!(v.connection_type, "openvpn");
    assert_eq!(v.remote.as_deref(), Some("vpn.example.com"));
    assert_eq!(v.port, Some(1194));
    assert_eq!(v.config_file.as_deref(), Some("/etc/work.ovpn"));
}

#[test]
fn ip_sections() {
    let mut sec = StrMap::new();
    sec.insert("method", "manual".to_string());
    sec.insert("address", "10.0.0.2/8".to_string());
    sec.insert("gateway", "10.0.0.1".to_string());
    let ip = parse_ip_section(&sec).unwrap();
    assert_eq!(ip.gateway.as_deref(), Some("10.0.0.1"));
    assert!(ip.dns.is_none());
    assert!(ip.routes.is_none());
    let empty: StrMap<String> = StrMap::new();
    assert_eq!(parse_ip_section(&empty).unwrap_err(), "Missing IP method");
}
