use libnetctl::error::NetctlError;
use libnetctl::nccli::actions::{
    connection_add_config, connection_add_name, connection_config_path, connection_name_of_file,
    display_setting_value, find_vpn_by_name, find_wifi_interface, get_device_type, hotspot_ssid,
    is_wifi_interface, nm_device_path, parse_ap_address, parse_radio_state, ping_args,
    scan_signal_dbm, signal_bars, tcpdump_args, vpn_not_found, wifi_channel,
};

#[test]
fn device_types_by_name() {
    assert_eq!(get_device_type("wlan0"), "wifi");
    assert_eq!(get_device_type("wlp3s0"), "wifi");
    assert_eq!(get_device_type("eth0"), "ethernet");
    assert_eq!(get_device_type("enp0s3"), "ethernet");
    assert_eq!(get_device_type("lo"), "loopback");
    assert_eq!(get_device_type("br-lan"), "bridge");
    assert_eq!(get_device_type("tun0"), "tun");
    assert_eq!(get_device_type("vlan10"), "vlan");
    assert_eq!(get_device_type("wg0"), "wireguard");
    assert_eq!(get_device_type("veth12"), "veth");
    assert_eq!(get_device_type("lo0"), "generic");
    assert!(is_wifi_interface("wlan1"));
    assert!(!is_wifi_interface("eth1"));
}

#[test]
fn first_wifi_interface() {
    let names = vec!["lo".to_string(), "eth0".to_string(), "wlan0".to_string(), "wlp2s0".to_string()];
    assert_eq!(find_wifi_interface(&names).unwrap(), "wlan0");
    let none = vec!["eth0".to_string()];
    match find_wifi_interface(&none) {
        Err(NetctlError::NotFound(m)) => assert_eq!(m, "No WiFi interface found"),
        other => panic!("unexpected {:?}", other),
    }
}

#[test]
fn connection_files() {
    assert_eq!(connection_config_path("home"), "/etc/crrouter/netctl/home.nctl");
    assert_eq!(connection_config_path("/tmp/x"), "/tmp/x.nctl");
    assert_eq!(connection_name_of_file("home.nctl").unwrap(), "home");
    assert!(connection_name_of_file("home.conf").is_none());
}

#[test]
fn connection_add_names() {
    assert_eq!(connection_add_name(Some("office"), Some("eth0")).unwrap(), "office");
    assert_eq!(connection_add_name(None, Some("eth0")).unwrap(), "eth0");
    assert!(connection_add_name(Some("../x"), None).is_err());
    match connection_add_name(None, None) {
        Err(NetctlError::InvalidParameter(m)) => {
            assert_eq!(m, "Connection name or interface required")
        },
        other => panic!("unexpected {:?}", other),
    }
}

#[test]
fn ethernet_connection_file() {
    let text = connection_add_config(
        "ethernet",
        "office",
        Some("eth0"),
        Some("yes"),
        None,
        None,
        Some("192.168.1.10/24"),
        Some("192.168.1.1"),
    )
    .unwrap();
    assert_eq!(
        text,
        "[connection]\nname = \"office\"\ntype = \"ethernet\"\ninterface-name = \"eth0\"\nautoconnect = true\n\n[ipv4]\nmethod = \"manual\"\naddress = \"192.168.1.10/24\"\ngateway = \"192.168.1.1\"\n\n"
    );
}

#[test]
fn wifi_connection_file() {
    let text = connection_add_config(
        "wifi",
        "home",
        None,
        None,
        Some("MyNet"),
        Some("password123"),
        Some("auto"),
        None,
    )
    .unwrap();
    assert_eq!(
        text,
        "[connection]\nname = \"home\"\ntype = \"wifi\"\n\n[wifi]\nssid = \"MyNet\"\nmode = \"infrastructure\"\n\n[wifi-security]\nkey-mgmt = \"wpa-psk\"\npsk = \"password123\"\n\n[ipv4]\nmethod = \"auto\"\n\n"
    );
    assert!(connection_add_config("wifi", "home", None, None, Some("x"), Some("short"), None, None)
        .is_err());
    assert!(connection_add_config("wifi", "home", None, None, Some(""), None, None, None).is_err());
}

#[test]
fn channels_and_bars() {
    assert_eq!(wifi_channel(2412), 1);
    assert_eq!(wifi_channel(2437), 6);
    assert_eq!(wifi_channel(5180), 36);
    assert_eq!(wifi_channel(900), 0);
    assert_eq!(signal_bars(-40), "▂▄▆█");
    assert_eq!(signal_bars(-55), "▂▄▆_");
    assert_eq!(signal_bars(-65), "▂▄__");
    assert_eq!(signal_bars(-75), "▂___");
    assert_eq!(signal_bars(-90), "____");
    assert_eq!(scan_signal_dbm("-52 dBm"), -52);
    assert_eq!(scan_signal_dbm("-52"), -52);
    assert_eq!(scan_signal_dbm("weak"), -100);
}

#[test]
fn hotspot_and_ap_address() {
    assert_eq!(hotspot_ssid(Some("Cafe"), "wlan0"), "Cafe");
    assert_eq!(hotspot_ssid(None, "wlan0"), "Hotspot-wlan0");
    let (addr, prefix) = parse_ap_address("10.255.24.1/24").unwrap();
    assert_eq!(addr, "10.255.24.1");
    assert_eq!(prefix, 24);
    match parse_ap_address("10.255.24.1") {
        Err(NetctlError::InvalidParameter(m)) => {
            assert_eq!(m, "IP must be in format: address/prefix (e.g., 10.255.24.1/24)")
        },
        other => panic!("unexpected {:?}", other),
    }
    match parse_ap_address("10.0.0.1/300") {
        Err(NetctlError::InvalidParameter(m)) => assert_eq!(m, "Invalid prefix length"),
        other => panic!("unexpected {:?}", other),
    }
}

#[test]
fn vpn_lookup() {
    let conns = vec![
        ("u1".to_string(), "work".to_string()),
        ("u2".to_string(), "home".to_string()),
        ("u3".to_string(), "work".to_string()),
    ];
    assert_eq!(find_vpn_by_name(&conns, "work").unwrap(), "u1");
    assert!(find_vpn_by_name(&conns, "other").is_none());
    match vpn_not_found("other") {
        NetctlError::NotFound(m) => assert_eq!(m, "VPN connection 'other' not found"),
        other => panic!("unexpected {:?}", other),
    }
}

#[test]
fn secrets_are_masked() {
    assert_eq!(display_setting_value("psk", "secret"), "********");
    assert_eq!(display_setting_value("private-key", "secret"), "********");
    assert_eq!(display_setting_value("ssid", "MyNet"), "MyNet");
}

#[test]
fn program_arguments() {
    assert_eq!(tcpdump_args("eth0", Some("port 53"), Some("/tmp/x.pcap")), vec![
        "-i", "eth0", "port 53", "-w", "/tmp/x.pcap",
    ]);
    assert_eq!(tcpdump_args("eth0", None, None), vec!["-i", "eth0"]);
    assert_eq!(ping_args("8.8.8.8", 4), vec!["-c", "4", "8.8.8.8"]);
    assert_eq!(nm_device_path(7), "/org/freedesktop/NetworkManager/Devices/7");
}

#[test]
fn radio_states() {
    assert_eq!(parse_radio_state("on").unwrap(), true);
    assert_eq!(parse_radio_state("off").unwrap(), false);
    assert!(parse_radio_state("maybe").is_err());
}
