use libnetctl::network_monitor::{process_route_message, KnownLinks, NetworkEvent, PollingMonitor, RouteMessage};

fn names(events: &[NetworkEvent]) -> Vec<String> {
    events
        .iter()
        .map(|e| match e {
            NetworkEvent::InterfaceAdded { index, name } => format!("added {} {}", index, name),
            NetworkEvent::InterfaceRemoved { index, name } => format!("removed {} {}", index, name),
            NetworkEvent::InterfaceStateChanged { index, name, is_up } => {
                format!("state {} {} {}", index, name, is_up)
            },
            NetworkEvent::InterfaceAddressChanged { index, name, address } => {
                format!("address {} {} {}", index, name, address)
            },
            NetworkEvent::LinkPropertiesChanged { index, name } => format!("props {} {}", index, name),
        })
        .collect()
}

#[test]
fn new_link_then_state_change_then_delete() {
    let mut known = KnownLinks::new();
    let new = RouteMessage::NewLink { index: 3, name: Some("eth0".to_string()), is_up: false };
    let e = process_route_message(&mut known, &new).unwrap();
    assert_eq!(names(&[e]), vec!["added 3 eth0"]);
    assert!(process_route_message(&mut known, &new).is_none());
    let up = RouteMessage::NewLink { index: 3, name: Some("eth0".to_string()), is_up: true };
    let e = process_route_message(&mut known, &up).unwrap();
    assert_eq!(names(&[e]), vec!["state 3 eth0 true"]);
    let addr = RouteMessage::NewAddress { index: 3, address: Some("10.0.0.2/24".to_string()) };
    let e = process_route_message(&mut known, &addr).unwrap();
    assert_eq!(names(&[e]), vec!["address 3 eth0 10.0.0.2/24"]);
    let del_addr = RouteMessage::DelAddress { index: 3, address: Some("10.0.0.2/24".to_string()) };
    let e = process_route_message(&mut known, &del_addr).unwrap();
    assert_eq!(names(&[e]), vec!["address 3 eth0 -10.0.0.2/24"]);
    let e = process_route_message(&mut known, &RouteMessage::DelLink { index: 3 }).unwrap();
    assert_eq!(names(&[e]), vec!["removed 3 eth0"]);
    assert!(process_route_message(&mut known, &RouteMessage::DelLink { index: 3 }).is_none());
    assert!(known.is_empty());
}

#[test]
fn unnamed_and_unknown_links_give_nothing() {
    let mut known = KnownLinks::new();
    let unnamed = RouteMessage::NewLink { index: 1, name: None, is_up: true };
    assert!(process_route_message(&mut known, &unnamed).is_none());
    let addr = RouteMessage::NewAddress { index: 9, address: Some("1.2.3.4/8".to_string()) };
    assert!(process_route_message(&mut known, &addr).is_none());
    assert!(process_route_message(&mut known, &RouteMessage::Other).is_none());
    assert!(known.is_empty());
}

#[test]
fn polling_announces_new_changed_and_gone_interfaces() {
    let mut m = PollingMonitor::new();
    let first = m.poll(&vec![("eth0".to_string(), Some(true)), ("wlan0".to_string(), None)]);
    assert_eq!(names(&first), vec!["added 1 eth0", "state 1 eth0 true", "added 2 wlan0"]);
    let second = m.poll(&vec![("eth0".to_string(), Some(true)), ("wlan0".to_string(), None)]);
    assert!(second.is_empty());
    let third = m.poll(&vec![("eth0".to_string(), Some(false))]);
    assert_eq!(names(&third), vec!["state 2 eth0 false", "removed 2 wlan0"]);
}
