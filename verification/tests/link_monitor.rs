use libnetctl::link_monitor::{
    link_state_of, DhcpAction, InterfaceConfig, LinkMonitorState, LinkState, LinkStateEvent,
};
use libnetctl::network_monitor::NetworkEvent;

#[test]
fn test_link_state_equality() {
    assert_eq!(LinkState::Up, LinkState::Up);
    assert_eq!(LinkState::Down, LinkState::Down);
    assert_ne!(LinkState::Up, LinkState::Down);
}

#[test]
fn test_interface_config() {
    let config = InterfaceConfig { interface: "eth0".to_string(), auto_dhcp: true };
    assert_eq!(config.interface, "eth0");
    assert!(config.auto_dhcp);
}

#[test]
fn link_state_from_operstate() {
    assert_eq!(link_state_of(Some(true)), LinkState::Up);
    assert_eq!(link_state_of(Some(false)), LinkState::Down);
    assert_eq!(link_state_of(None), LinkState::Unknown);
}

fn watched(auto_dhcp: bool) -> LinkMonitorState {
    let mut m = LinkMonitorState::new();
    let config = InterfaceConfig { interface: "eth0".to_string(), auto_dhcp };
    m.add_interface(&config, LinkState::Down);
    m
}

#[test]
fn link_up_starts_dhcp_once() {
    let mut m = watched(true);
    let (event, action) = m.check_interface("eth0", LinkState::Up).unwrap();
    assert_eq!(event.interface, "eth0");
    assert_eq!(event.state, LinkState::Up);
    assert_eq!(event.previous_state, LinkState::Down);
    assert_eq!(action, DhcpAction::Start);
    assert!(m.check_interface("eth0", LinkState::Up).is_none());
    assert_eq!(m.recorded_state("eth0"), LinkState::Up);
}

#[test]
fn link_down_stops_dhcp() {
    let mut m = watched(true);
    m.check_interface("eth0", LinkState::Up);
    let (_, action) = m.check_interface("eth0", LinkState::Down).unwrap();
    assert_eq!(action, DhcpAction::Stop);
}

#[test]
fn no_auto_dhcp_keeps_client() {
    let mut m = watched(false);
    let (_, action) = m.check_interface("eth0", LinkState::Up).unwrap();
    assert_eq!(action, DhcpAction::Keep);
}

#[test]
fn events_of_unwatched_interfaces_are_ignored() {
    let mut m = watched(true);
    let e = NetworkEvent::InterfaceStateChanged { index: 3, name: "wlan0".to_string(), is_up: true };
    assert!(m.handle_network_event(&e).is_none());
    assert_eq!(m.recorded_state("wlan0"), LinkState::Unknown);
}

#[test]
fn network_event_replay_reports_once() {
    let mut m = watched(true);
    let e = NetworkEvent::InterfaceStateChanged { index: 2, name: "eth0".to_string(), is_up: true };
    let (_, action) = m.handle_network_event(&e).unwrap();
    assert_eq!(action, DhcpAction::Start);
    assert!(m.handle_network_event(&e).is_none());
}

#[test]
fn removed_interface_forgets_state() {
    let mut m = watched(true);
    m.check_interface("eth0", LinkState::Up);
    let e = NetworkEvent::InterfaceRemoved { index: 2, name: "eth0".to_string() };
    assert!(m.handle_network_event(&e).is_none());
    assert_eq!(m.recorded_state("eth0"), LinkState::Unknown);
    assert!(m.is_monitored("eth0"));
}

#[test]
fn unknown_transition_keeps_client() {
    let m = watched(true);
    let e = LinkStateEvent {
        interface: "eth0".to_string(),
        state: LinkState::Up,
        previous_state: LinkState::Unknown,
    };
    assert_eq!(m.state_change_action(&e), DhcpAction::Keep);
}

#[test]
fn remove_interface_stops_watching() {
    let mut m = watched(true);
    m.remove_interface("eth0");
    assert!(!m.is_monitored("eth0"));
    assert!(m.monitored_interfaces().is_empty());
}
