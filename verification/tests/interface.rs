use libnetctl::dhcp_client::CommandOutcome;
use libnetctl::error::NetctlError;
use libnetctl::interface::{
    addresses_from_entries, interface_not_found, stats_from, sysfs_number, sysfs_path,
    sysfs_text, InterfaceController, IpAddrEntry,
};
use libnetctl::text::sort_strings;

#[test]
fn link_commands() {
    let c = InterfaceController::new();
    assert_eq!(c.up_args("eth0"), vec!["link", "set", "dev", "eth0", "up"]);
    assert_eq!(c.down_args("eth0"), vec!["link", "set", "dev", "eth0", "down"]);
    assert_eq!(c.set_mtu_args("eth0", 9000), vec!["link", "set", "dev", "eth0", "mtu", "9000"]);
    assert_eq!(c.set_txqueuelen_args("eth0", 1000), vec![
        "link", "set", "dev", "eth0", "txqueuelen", "1000",
    ]);
    assert_eq!(c.set_promisc_args("eth0", true), vec!["link", "set", "dev", "eth0", "promisc", "on"]);
    assert_eq!(c.set_multicast_args("eth0", false), vec![
        "link", "set", "dev", "eth0", "multicast", "off",
    ]);
    assert_eq!(c.set_allmulticast_args("eth0", true), vec![
        "link", "set", "dev", "eth0", "allmulticast", "on",
    ]);
}

#[test]
fn address_commands() {
    let c = InterfaceController::new();
    assert_eq!(c.set_ip_args("eth0", "192.168.1.5", 24), vec![
        "addr", "add", "192.168.1.5/24", "dev", "eth0",
    ]);
    assert_eq!(c.del_ip_args("eth0", "fe80::1", 64), vec!["addr", "del", "fe80::1/64", "dev", "eth0"]);
    assert_eq!(c.flush_addrs_args("eth0"), vec!["addr", "flush", "dev", "eth0"]);
}

#[test]
fn multi_step_commands() {
    let c = InterfaceController::new();
    let steps = c.set_mac_steps("eth0", "00:11:22:33:44:55");
    assert_eq!(steps.len(), 3);
    assert_eq!(steps[1], vec!["link", "set", "dev", "eth0", "address", "00:11:22:33:44:55"]);
    let steps = c.rename_steps("eth0", "lan0");
    assert_eq!(steps[0], vec!["link", "set", "dev", "eth0", "down"]);
    assert_eq!(steps[1], vec!["link", "set", "dev", "eth0", "name", "lan0"]);
    assert_eq!(steps[2], vec!["link", "set", "dev", "lan0", "up"]);
}

#[test]
fn ip_results() {
    let c = InterfaceController::new();
    let args = c.up_args("eth0");
    let ok = CommandOutcome::Finished {
        success: true,
        code: Some(0),
        stdout: String::new(),
        stderr: String::new(),
    };
    assert!(c.ip_result(&args, &ok).is_ok());
    let failed = CommandOutcome::Finished {
        success: false,
        code: Some(2),
        stdout: String::new(),
        stderr: "Cannot find device".to_string(),
    };
    match c.ip_result(&args, &failed) {
        Err(NetctlError::CommandFailed { cmd, code, stderr }) => {
            assert_eq!(cmd, "ip link set dev eth0 up");
            assert_eq!(code, Some(2));
            assert_eq!(stderr, "Cannot find device");
        },
        other => panic!("unexpected {:?}", other),
    }
    match c.ip_result(&args, &CommandOutcome::SpawnFailed("not found".to_string())) {
        Err(NetctlError::CommandFailed { code, .. }) => assert_eq!(code, None),
        other => panic!("unexpected {:?}", other),
    }
}

#[test]
fn sysfs_values() {
    assert_eq!(sysfs_path("eth0", "mtu"), "/sys/class/net/eth0/mtu");
    assert_eq!(sysfs_text(Some("up\n")).unwrap(), "up");
    assert!(sysfs_text(None).is_none());
    assert_eq!(sysfs_number(Some("1500\n"), u32::MAX as u64), Some(1500));
    assert_eq!(sysfs_number(Some("x"), u32::MAX as u64), None);
    assert_eq!(sysfs_number(Some("4294967296"), u32::MAX as u64), None);
}

#[test]
fn statistics() {
    let s = stats_from(Some(1), Some(2), Some(3), Some(4), None, Some(6), None, Some(8)).unwrap();
    assert_eq!((s.rx_bytes, s.tx_bytes, s.rx_packets, s.tx_packets), (1, 2, 3, 4));
    assert_eq!((s.rx_errors, s.tx_errors, s.rx_dropped, s.tx_dropped), (0, 6, 0, 8));
    assert!(stats_from(Some(1), None, Some(3), Some(4), None, None, None, None).is_none());
}

#[test]
fn addresses_of_complete_entries() {
    let entries = vec![
        IpAddrEntry {
            local: Some("10.0.0.2".to_string()),
            family: Some("inet".to_string()),
            prefixlen: Some(24),
            scope: Some("global".to_string()),
        },
        IpAddrEntry { local: None, family: Some("inet".to_string()), prefixlen: Some(8), scope: None },
        IpAddrEntry {
            local: Some("fe80::1".to_string()),
            family: Some("inet6".to_string()),
            prefixlen: Some(64),
            scope: None,
        },
    ];
    let a = addresses_from_entries(&entries);
    assert_eq!(a.len(), 2);
    assert_eq!(a[0].address, "10.0.0.2");
    assert_eq!(a[0].prefix_len, 24);
    assert_eq!(a[0].scope.as_deref(), Some("global"));
    assert_eq!(a[1].family, "inet6");
    assert!(a[1].scope.is_none());
}

#[test]
fn missing_interface() {
    match interface_not_found("eth9") {
        NetctlError::InterfaceNotFound(m) => assert_eq!(m, "eth9"),
        other => panic!("unexpected {:?}", other),
    }
}

#[test]
fn interface_names_are_sorted() {
    let names = vec!["wlan0".to_string(), "eth0".to_string(), "lo".to_string(), "eth1".to_string()];
    assert_eq!(sort_strings(names), vec!["eth0", "eth1", "lo", "wlan0"]);
    let mut odd = vec!["b".to_string(), "ab".to_string(), "a".to_string(), "".to_string(), "B".to_string()];
    let sorted = sort_strings(odd.clone());
    odd.sort();
    assert_eq!(sorted, odd);
}
