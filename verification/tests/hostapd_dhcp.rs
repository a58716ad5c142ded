use libnetctl::dhcp::{DhcpConfig, DhcpController};
use libnetctl::error::NetctlError;
use libnetctl::hostapd::{
    kill_args, parse_pid, pid_for_stop, proc_path, start_failure, AccessPointConfig,
    HostapdController,
};

#[test]
fn default_access_point_config() {
    let c = HostapdController::new("/run/netctl".to_string());
    let conf = c.generate_config(&AccessPointConfig::default()).unwrap();
    assert_eq!(
        conf,
        "interface=wlan0\ndriver=nl80211\nssid=CRRouter-AP\ncountry_code=US\nhw_mode=g\nchannel=6\nwpa=2\nwpa_passphrase=crrouter123\nwpa_key_mgmt=WPA-PSK\nwpa_pairwise=CCMP\nrsn_pairwise=CCMP\nwmm_enabled=1\nieee80211n=1\nmax_num_sta=32\nauth_algs=1\nmacaddr_acl=0\n"
    );
}

#[test]
fn open_hidden_5ghz_access_point() {
    let c = HostapdController::new("/run/netctl".to_string());
    let config = AccessPointConfig {
        password: None,
        band: "5GHz".to_string(),
        channel: 36,
        hidden: true,
        ieee80211ac: true,
        channel_width: 80,
        ap_isolate: true,
        max_clients: None,
        ..AccessPointConfig::default()
    };
    let conf = c.generate_config(&config).unwrap();
    assert_eq!(
        conf,
        "interface=wlan0\ndriver=nl80211\nssid=CRRouter-AP\ncountry_code=US\nhw_mode=a\nchannel=36\nignore_broadcast_ssid=1\nwmm_enabled=1\nieee80211n=1\nht_capab=[HT40+][SHORT-GI-40]\nieee80211ac=1\nap_isolate=1\nauth_algs=1\nmacaddr_acl=0\n"
    );
}

#[test]
fn short_password_is_refused() {
    let c = HostapdController::new("/run/netctl".to_string());
    let config = AccessPointConfig { password: Some("short".to_string()), ..AccessPointConfig::default() };
    match c.generate_config(&config) {
        Err(NetctlError::InvalidParameter(m)) => {
            assert_eq!(m, "Password must be at least 8 characters")
        },
        other => panic!("unexpected {:?}", other),
    }
}

#[test]
fn hostapd_paths_and_arguments() {
    let c = HostapdController::new("/run/netctl".to_string());
    assert_eq!(c.pid_file(), "/run/netctl/hostapd.pid");
    assert_eq!(c.config_file(), "/run/netctl/hostapd.conf");
    assert_eq!(c.start_args("/run/netctl/hostapd.conf"), vec![
        "-B", "-P", "/run/netctl/hostapd.pid", "/run/netctl/hostapd.conf",
    ]);
    assert_eq!(kill_args(1234), vec!["-TERM", "1234"]);
    assert_eq!(proc_path(42), "/proc/42");
}

#[test]
fn pid_files() {
    assert_eq!(parse_pid("1234\n"), Some(1234));
    assert_eq!(parse_pid("  77  "), Some(77));
    assert_eq!(parse_pid("abc"), None);
    assert_eq!(pid_for_stop("99\n").unwrap(), 99);
    match pid_for_stop("") {
        Err(NetctlError::ServiceError(m)) => assert_eq!(m, "Invalid PID"),
        other => panic!("unexpected {:?}", other),
    }
    match start_failure("bad", "") {
        NetctlError::ServiceError(m) => assert_eq!(m, "hostapd failed\nStderr: bad\nStdout: "),
        other => panic!("unexpected {:?}", other),
    }
}

#[test]
fn default_dora_config() {
    let c = DhcpController::new("/etc/dora/config.yaml".to_string());
    assert_eq!(c.config_path(), "/etc/dora/config.yaml");
    let yaml = c.generate_config(&DhcpConfig::default()).unwrap();
    assert_eq!(
        yaml,
        "wlan0:\n  interfaces:\n    - wlan0\n  ranges:\n    - start: 10.255.24.10\n      end: 10.255.24.250\n  options:\n    - opt: 1\n      val: !ip 255.255.255.0\n    - opt: 3\n      val: !ip 10.255.24.1\n    - opt: 6\n      val: !ips [10.255.24.1]\n    - opt: 51\n      val: !u32 3600\n  ping_check: false\n  probe_check: false\n"
    );
}

#[test]
fn dora_config_without_dns_and_bad_values() {
    let c = DhcpController::new("/etc/dora/config.yaml".to_string());
    let config = DhcpConfig { dns_servers: vec![], lease_time: 60, ..DhcpConfig::default() };
    let yaml = c.generate_config(&config).unwrap();
    assert!(!yaml.contains("opt: 6"));
    assert!(yaml.contains("val: !u32 60\n"));
    let two = DhcpConfig {
        dns_servers: vec!["1.1.1.1".to_string(), "8.8.8.8".to_string()],
        ..DhcpConfig::default()
    };
    assert!(c.generate_config(&two).unwrap().contains("val: !ips [1.1.1.1, 8.8.8.8]\n"));
    let bad_ip = DhcpConfig { gateway: "10.0.0".to_string(), ..DhcpConfig::default() };
    assert!(matches!(c.generate_config(&bad_ip), Err(NetctlError::InvalidParameter(_))));
    let bad_iface = DhcpConfig { interface: "wlan0\n".to_string(), ..DhcpConfig::default() };
    assert!(matches!(c.generate_config(&bad_iface), Err(NetctlError::InvalidParameter(_))));
    let bad_dns = DhcpConfig { dns_servers: vec!["x".to_string()], ..DhcpConfig::default() };
    assert!(matches!(c.generate_config(&bad_dns), Err(NetctlError::InvalidParameter(_))));
}
