use libnetctl::dbus::{DeviceInfo, DeviceState, NetworkManagerDBus, NM_DBUS_PATH, NM_DBUS_SERVICE};
use libnetctl::dbus_integration::{device_path, handle_network_event, DbusSignal};
use libnetctl::error::NetctlError;
use libnetctl::network_monitor::NetworkEvent;
use libnetctl::plugin::PluginState;

fn info(path: &str, iface: &str) -> DeviceInfo {
    DeviceInfo {
        path: path.to_string(),
        interface: iface.to_string(),
        device_type: 1,
        state: DeviceState::Disconnected,
        ip4_address: None,
        ip6_address: None,
    }
}

#[test]
fn constants_and_initial_state() {
    assert_eq!(NM_DBUS_SERVICE, "org.freedesktop.NetworkManager");
    assert_eq!(NM_DBUS_PATH, "/org/freedesktop/NetworkManager");
    let nm = NetworkManagerDBus::new();
    assert_eq!(nm.state(), 70);
    assert_eq!(nm.connectivity(), 4);
    assert_eq!(nm.check_connectivity().unwrap(), 4);
    assert_eq!(nm.version(), "1.46.0");
    assert!(nm.networking_enabled());
    assert!(nm.wireless_enabled());
    assert!(nm.get_devices().is_empty());
}

#[test]
fn device_state_numbers() {
    assert_eq!(DeviceState::Unknown.code(), 0);
    assert_eq!(DeviceState::Disconnected.code(), 30);
    assert_eq!(DeviceState::Activated.code(), 100);
    assert_eq!(DeviceState::Failed.code(), 120);
}

#[test]
fn add_get_update_remove() {
    let mut nm = NetworkManagerDBus::new();
    nm.add_device(info("/d/1", "eth0"));
    let d = nm.get_device("/d/1").unwrap();
    assert_eq!(d.interface, "eth0");
    assert_eq!(d.state, DeviceState::Disconnected);
    nm.update_device_state("/d/1", DeviceState::Activated).unwrap();
    assert_eq!(nm.get_device("/d/1").unwrap().state, DeviceState::Activated);
    match nm.update_device_state("/d/9", DeviceState::Activated) {
        Err(NetctlError::NotFound(m)) => assert_eq!(m, "Device /d/9 not found"),
        other => panic!("unexpected {:?}", other),
    }
    assert_eq!(nm.get_device_by_ip_iface("eth0").unwrap(), "/d/1");
    assert!(nm.get_device_by_ip_iface("wlan0").is_err());
    assert_eq!(nm.get_all_devices(), vec!["/d/1"]);
    nm.remove_device("/d/1");
    assert!(nm.get_device("/d/1").is_none());
    nm.update_state(20);
    nm.update_connectivity(1);
    assert_eq!(nm.state(), 20);
    assert_eq!(nm.connectivity(), 1);
}

#[test]
fn active_connection_paths() {
    let nm = NetworkManagerDBus::new();
    assert_eq!(
        nm.activate_connection("/org/freedesktop/NetworkManager/Settings/5", "/d/1", "/").unwrap(),
        "/org/freedesktop/NetworkManager/ActiveConnection/5"
    );
    assert_eq!(
        nm.activate_connection("home", "/d/1", "/").unwrap(),
        "/org/freedesktop/NetworkManager/ActiveConnection/home"
    );
    assert!(nm.deactivate_connection("/x").is_ok());
}

#[test]
fn network_events_update_the_registry() {
    let mut nm = NetworkManagerDBus::new();
    assert_eq!(device_path(4), "/org/freedesktop/NetworkManager/Devices/4");
    let s = handle_network_event(&mut nm, NetworkEvent::InterfaceAdded { index: 4, name: "eth0".to_string() });
    assert!(matches!(s, DbusSignal::DeviceAdded(ref p) if p == "/org/freedesktop/NetworkManager/Devices/4"));
    let d = nm.get_device("/org/freedesktop/NetworkManager/Devices/4").unwrap();
    assert_eq!(d.interface, "eth0");
    assert_eq!(d.device_type, 1);
    assert_eq!(d.state, DeviceState::Disconnected);

    let s = handle_network_event(
        &mut nm,
        NetworkEvent::InterfaceStateChanged { index: 4, name: "eth0".to_string(), is_up: true },
    );
    assert!(matches!(s, DbusSignal::StateChanged(70)));
    assert_eq!(nm.get_device(&device_path(4)).unwrap().state, DeviceState::Activated);

    let s = handle_network_event(
        &mut nm,
        NetworkEvent::InterfaceAddressChanged {
            index: 4,
            name: "eth0".to_string(),
            address: "fe80::1/64".to_string(),
        },
    );
    assert!(matches!(s, DbusSignal::PropertiesChanged(Some(ref a)) if a == "fe80::1/64"));
    let d = nm.get_device(&device_path(4)).unwrap();
    assert_eq!(d.ip6_address.as_deref(), Some("fe80::1/64"));
    assert!(d.ip4_address.is_none());

    handle_network_event(
        &mut nm,
        NetworkEvent::InterfaceAddressChanged {
            index: 4,
            name: "eth0".to_string(),
            address: "10.0.0.2/24".to_string(),
        },
    );
    assert_eq!(nm.get_device(&device_path(4)).unwrap().ip4_address.as_deref(), Some("10.0.0.2/24"));

    let s = handle_network_event(
        &mut nm,
        NetworkEvent::InterfaceStateChanged { index: 4, name: "eth0".to_string(), is_up: false },
    );
    assert!(matches!(s, DbusSignal::StateChanged(30)));

    let s = handle_network_event(&mut nm, NetworkEvent::LinkPropertiesChanged { index: 4, name: "eth0".to_string() });
    assert!(matches!(s, DbusSignal::PropertiesChanged(None)));

    let s = handle_network_event(&mut nm, NetworkEvent::InterfaceRemoved { index: 4, name: "eth0".to_string() });
    assert!(matches!(s, DbusSignal::DeviceRemoved(_)));
    assert!(nm.get_device(&device_path(4)).is_none());
}

#[test]
fn events_for_unknown_devices_change_nothing() {
    let mut nm = NetworkManagerDBus::new();
    handle_network_event(
        &mut nm,
        NetworkEvent::InterfaceStateChanged { index: 9, name: "x".to_string(), is_up: true },
    );
    handle_network_event(
        &mut nm,
        NetworkEvent::InterfaceAddressChanged { index: 9, name: "x".to_string(), address: "1.2.3.4".to_string() },
    );
    assert!(nm.get_devices().is_empty());
}

#[test]
fn plugin_states_as_device_states() {
    let cases = [
        (PluginState::Uninitialized, DeviceState::Unknown),
        (PluginState::Initializing, DeviceState::Prepare),
        (PluginState::Ready, DeviceState::Disconnected),
        (PluginState::Activating, DeviceState::Config),
        (PluginState::Active, DeviceState::Activated),
        (PluginState::Deactivating, DeviceState::Deactivating),
        (PluginState::Failed, DeviceState::Failed),
        (PluginState::Disabled, DeviceState::Unavailable),
    ];
    for (p, d) in cases {
        let shown: DeviceState = p.into();
        assert_eq!(shown, d);
    }
}
