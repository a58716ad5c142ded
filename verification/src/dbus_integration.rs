//! D-Bus integration for network events
//!
//! What a network event does to the NetworkManager device registry, and
//! which signal announces it. The program that serves the bus receives the
//! events, calls `handle_network_event` and emits the signal it returns.

use vstd::prelude::*;
use crate::text::{decimal, decimal_string, contains_char};
use crate::network_monitor::{NetworkEvent, NetworkEventView};
use crate::dbus::{DeviceInfo, DeviceInfoView, DeviceState, NetworkManagerDBus};

verus! {

/// Prefix of a device's object path; the interface index follows.
pub const NM_DEVICE_PATH_PREFIX: &'static str = "/org/freedesktop/NetworkManager/Devices/";

/// The device type given to a new interface (ethernet).
pub const NEW_DEVICE_TYPE: u32 = 1;

/// The object path of the device with an interface index.
pub open spec fn device_object_path(index: u32) -> Seq<char> {
    NM_DEVICE_PATH_PREFIX@ + decimal(index as nat)
}

/// The object path of the device with an interface index.
pub fn device_path(index: u32) -> (r: String)
    ensures
        r@ == device_object_path(index),
{
    let mut p = NM_DEVICE_PATH_PREFIX.to_string();
    p.append(decimal_string(index as u64).as_str());
    p
}

/// A signal that announces what an event changed.
#[derive(Debug, Clone)]
pub enum DbusSignal {
    /// DeviceAdded with the device's path.
    DeviceAdded(String),
    /// DeviceRemoved with the device's path.
    DeviceRemoved(String),
    /// StateChanged with the global state number.
    StateChanged(u32),
    /// PropertiesChanged, with the new `Ip4Address` value where there is one.
    PropertiesChanged(Option<String>),
}

pub enum DbusSignalView {
    DeviceAdded(Seq<char>),
    DeviceRemoved(Seq<char>),
    StateChanged(u32),
    PropertiesChanged(Option<Seq<char>>),
}

impl View for DbusSignal {
    type V = DbusSignalView;

    open spec fn view(&self) -> DbusSignalView {
        match *self {
            DbusSignal::DeviceAdded(p) => DbusSignalView::DeviceAdded(p@),
            DbusSignal::DeviceRemoved(p) => DbusSignalView::DeviceRemoved(p@),
            DbusSignal::StateChanged(s) => DbusSignalView::StateChanged(s),
            DbusSignal::PropertiesChanged(a) => DbusSignalView::PropertiesChanged(
                match a {
                    Some(x) => Some(x@),
                    None => None,
                },
            ),
        }
    }
}

/// The device a new interface becomes: ethernet, disconnected, no address.
pub open spec fn new_device(index: u32, name: Seq<char>) -> DeviceInfoView {
    DeviceInfoView {
        path: device_object_path(index),
        interface: name,
        device_type: NEW_DEVICE_TYPE,
        state: DeviceState::Disconnected,
        ip4_address: None,
        ip6_address: None,
    }
}

/// The registry after an event: a new interface is added, a removed one
/// forgotten, a known device takes the state of its link (activated when
/// up, disconnected when down) and its new address (IPv6 when it holds a
/// `:`, IPv4 otherwise); other events change nothing.
pub open spec fn devices_after(
    devices: Map<Seq<char>, DeviceInfoView>,
    e: NetworkEventView,
) -> Map<Seq<char>, DeviceInfoView> {
    match e {
        NetworkEventView::Added { index, name } => devices.insert(
            device_object_path(index),
            new_device(index, name),
        ),
        NetworkEventView::Removed { index, .. } => devices.remove(device_object_path(index)),
        NetworkEventView::StateChanged { index, is_up, .. } => {
            let p = device_object_path(index);
            if devices.contains_key(p) {
                devices.insert(
                    p,
                    DeviceInfoView {
                        state: if is_up {
                            DeviceState::Activated
                        } else {
                            DeviceState::Disconnected
                        },
                        ..devices[p]
                    },
                )
            } else {
                devices
            }
        },
        NetworkEventView::AddressChanged { index, address, .. } => {
            let p = device_object_path(index);
            if devices.contains_key(p) {
                if address.contains(':') {
                    devices.insert(p, DeviceInfoView { ip6_address: Some(address), ..devices[p] })
                } else {
                    devices.insert(p, DeviceInfoView { ip4_address: Some(address), ..devices[p] })
                }
            } else {
                devices
            }
        },
        NetworkEventView::PropertiesChanged { .. } => devices,
    }
}

/// The signal that announces an event: the device's path when it is
/// added or removed, the global state (connected 70, disconnected 30) when
/// a link goes up or down, and a property change otherwise.
pub open spec fn signal_for(e: NetworkEventView) -> DbusSignalView {
    match e {
        NetworkEventView::Added { index, .. } => DbusSignalView::DeviceAdded(
            device_object_path(index),
        ),
        NetworkEventView::Removed { index, .. } => DbusSignalView::DeviceRemoved(
            device_object_path(index),
        ),
        NetworkEventView::StateChanged { is_up, .. } => DbusSignalView::StateChanged(
            if is_up {
                70
            } else {
                30
            },
        ),
        NetworkEventView::AddressChanged { address, .. } => DbusSignalView::PropertiesChanged(
            Some(address),
        ),
        NetworkEventView::PropertiesChanged { .. } => DbusSignalView::PropertiesChanged(None),
    }
}

/// Apply a network event to the registry and give the signal to emit.
pub fn handle_network_event(nm_dbus: &mut NetworkManagerDBus, event: NetworkEvent) -> (r:
    DbusSignal)
    ensures
        final(nm_dbus).devices_map() == devices_after(old(nm_dbus).devices_map(), event@),
        final(nm_dbus).state_value() == old(nm_dbus).state_value(),
        final(nm_dbus).connectivity_value() == old(nm_dbus).connectivity_value(),
        r@ == signal_for(event@),
{
    match event {
        NetworkEvent::InterfaceAdded { index, name } => {
            let device_path = device_path(index);
            let device = DeviceInfo {
                path: device_path.clone(),
                interface: name,
                device_type: NEW_DEVICE_TYPE,
                state: DeviceState::Disconnected,
                ip4_address: None,
                ip6_address: None,
            };
            nm_dbus.add_device(device);
            DbusSignal::DeviceAdded(device_path)
        },
        NetworkEvent::InterfaceRemoved { index, name } => {
            let device_path = device_path(index);
            nm_dbus.remove_device(device_path.as_str());
            DbusSignal::DeviceRemoved(device_path)
        },
        NetworkEvent::InterfaceStateChanged { index, name, is_up } => {
            let device_path = device_path(index);
            let new_state = if is_up {
                DeviceState::Activated
            } else {
                DeviceState::Disconnected
            };
            let _ = nm_dbus.update_device_state(device_path.as_str(), new_state);
            let state_value: u32 = if is_up {
                70
            } else {
                30
            };
            DbusSignal::StateChanged(state_value)
        },
        NetworkEvent::InterfaceAddressChanged { index, name, address } => {
            let device_path = device_path(index);
            match nm_dbus.get_device(device_path.as_str()) {
                Some(mut device) => {
                    if contains_char(address.as_str(), ':') {
                        device.ip6_address = Some(address.clone());
                    } else {
                        device.ip4_address = Some(address.clone());
                    }
                    nm_dbus.add_device(device);
                },
                None => {},
            }
            DbusSignal::PropertiesChanged(Some(address))
        },
        NetworkEvent::LinkPropertiesChanged { index, name } => {
            DbusSignal::PropertiesChanged(None)
        },
    }
}


/// An interface that is added and then removed leaves no device behind:
/// the registry is the one before, without that path.
pub proof fn lemma_added_then_removed(
    devices: Map<Seq<char>, DeviceInfoView>,
    index: u32,
    name: Seq<char>,
    removed_name: Seq<char>,
)
    ensures
        devices_after(
            devices_after(devices, NetworkEventView::Added { index, name }),
            NetworkEventView::Removed { index, name: removed_name },
        ) == devices.remove(device_object_path(index)),
{
    let p = device_object_path(index);
    assert(devices.insert(p, new_device(index, name)).remove(p) =~= devices.remove(p));
}

/// After an interface is added, its device is registered under its path,
/// and a link change then sets its state: activated when up, disconnected
/// when down, with its other properties unchanged.
pub proof fn lemma_link_state_follows(
    devices: Map<Seq<char>, DeviceInfoView>,
    index: u32,
    name: Seq<char>,
    is_up: bool,
)
    ensures
        ({
            let added = devices_after(devices, NetworkEventView::Added { index, name });
            let after = devices_after(
                added,
                NetworkEventView::StateChanged { index, name, is_up },
            );
            &&& added.contains_key(device_object_path(index))
            &&& added[device_object_path(index)] == new_device(index, name)
            &&& after.contains_key(device_object_path(index))
            &&& after[device_object_path(index)].state == (if is_up {
                DeviceState::Activated
            } else {
                DeviceState::Disconnected
            })
            &&& after[device_object_path(index)].interface == name
            &&& after.dom() == added.dom()
        }),
{
    let p = device_object_path(index);
    let added = devices.insert(p, new_device(index, name));
    assert(added.contains_key(p));
    assert(added.insert(p, DeviceInfoView { state: if is_up { DeviceState::Activated } else { DeviceState::Disconnected }, ..added[p] }).dom() =~= added.dom());
}

} // verus!
