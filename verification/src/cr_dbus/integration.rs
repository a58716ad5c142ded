//! CR D-Bus integration with netctl
//!
//! How discovered devices are presented on the bus: their type from the
//! interface name, their addresses and their state.  Registering the
//! objects on the bus is left to the service.

use vstd::prelude::*;
use crate::device::Device;
use crate::text::{has_prefix, has_sub, starts_with, contains_str, contains_char, eq_str};
use crate::cr_dbus::types::{CRDeviceInfo, CRDeviceType, CRDeviceState, child_path, CR_DEVICE_PATH_PREFIX};

verus! {

/// The bus type of a device, from its interface name.
pub open spec fn device_type_for_name(name: Seq<char>) -> CRDeviceType {
    if has_prefix(name, "wl"@) || has_prefix(name, "wlan"@) {
        CRDeviceType::WiFi
    } else if has_prefix(name, "eth"@) || has_prefix(name, "en"@) {
        CRDeviceType::Ethernet
    } else if name == "lo"@ {
        CRDeviceType::Loopback
    } else if has_prefix(name, "br"@) {
        CRDeviceType::Bridge
    } else if has_prefix(name, "tun"@) || has_prefix(name, "tap"@) {
        CRDeviceType::TunTap
    } else if has_sub(name, "vlan"@) {
        CRDeviceType::Vlan
    } else if has_prefix(name, "wg"@) {
        CRDeviceType::Vpn
    } else if has_prefix(name, "bt"@) || has_prefix(name, "bnep"@) {
        CRDeviceType::Bluetooth
    } else {
        CRDeviceType::Unknown
    }
}

/// The bus type of a device, from its interface name.
pub fn map_device_type(device: &Device) -> (t: CRDeviceType)
    ensures
        t == device_type_for_name(device.name@),
{
    let name = device.name.as_str();
    if starts_with(name, "wl") || starts_with(name, "wlan") {
        CRDeviceType::WiFi
    } else if starts_with(name, "eth") || starts_with(name, "en") {
        CRDeviceType::Ethernet
    } else if eq_str(name, "lo") {
        CRDeviceType::Loopback
    } else if starts_with(name, "br") {
        CRDeviceType::Bridge
    } else if starts_with(name, "tun") || starts_with(name, "tap") {
        CRDeviceType::TunTap
    } else if contains_str(name, "vlan") {
        CRDeviceType::Vlan
    } else if starts_with(name, "wg") {
        CRDeviceType::Vpn
    } else if starts_with(name, "bt") || starts_with(name, "bnep") {
        CRDeviceType::Bluetooth
    } else {
        CRDeviceType::Unknown
    }
}

/// The first address of a list with (`colon`) or without a colon, that
/// is the first IPv6 or IPv4 address.
pub open spec fn first_address(addrs: Seq<String>, colon: bool) -> Option<Seq<char>>
    decreases addrs.len(),
{
    if addrs.len() == 0 {
        None
    } else if addrs[0]@.contains(':') == colon {
        Some(addrs[0]@)
    } else {
        first_address(addrs.drop_first(), colon)
    }
}

/// A flag list holds `UP`.
pub open spec fn has_up_flag(flags: Seq<String>) -> bool {
    exists|i: int| 0 <= i < flags.len() && flags[i]@ == "UP"@
}

/// How a discovered device is shown on the bus.
pub open spec fn shown_device(d: Device, info: CRDeviceInfo) -> bool {
    &&& info.path@ == child_path(CR_DEVICE_PATH_PREFIX@, d.name@)
    &&& info.interface@ == d.name@
    &&& info.device_type == device_type_for_name(d.name@)
    &&& match d.mac_address {
        Some(m) => info.hw_address matches Some(h) && h@ == m@,
        None => info.hw_address is None,
    }
    &&& info.mtu == match d.mtu {
        Some(m) => m,
        None => 1500u32,
    }
    &&& match first_address(d.addresses@, true) {
        Some(a) => info.ipv6_address matches Some(x) && x@ == a,
        None => info.ipv6_address is None,
    }
    &&& match first_address(d.addresses@, false) {
        Some(a) => info.ipv4_address matches Some(x) && x@ == a,
        None => info.ipv4_address is None,
    }
    &&& info.state == if has_up_flag(d.flags@) {
        CRDeviceState::Activated
    } else {
        CRDeviceState::Disconnected
    }
}

fn first_address_exec(addrs: &Vec<String>, colon: bool) -> (r: Option<String>)
    ensures
        match first_address(addrs@, colon) {
            Some(a) => r matches Some(s) && s@ == a,
            None => r is None,
        },
{
    let mut i: usize = 0;
    assert(addrs@.skip(0) =~= addrs@);
    while i < addrs.len()
        invariant
            i <= addrs@.len(),
            first_address(addrs@, colon) == first_address(addrs@.skip(i as int), colon),
        decreases addrs@.len() - i,
    {
        let ghost rest = addrs@.skip(i as int);
        assert(rest[0] == addrs@[i as int]);
        assert(rest.drop_first() =~= addrs@.skip(i + 1));
        if contains_char(addrs[i].as_str(), ':') == colon {
            return Some(addrs[i].clone());
        }
        i += 1;
    }
    None
}

fn has_up(flags: &Vec<String>) -> (r: bool)
    ensures
        r == has_up_flag(flags@),
{
    let mut i: usize = 0;
    while i < flags.len()
        invariant
            i <= flags@.len(),
            forall|j: int| 0 <= j < i ==> flags@[j]@ != "UP"@,
        decreases flags@.len() - i,
    {
        if eq_str(flags[i].as_str(), "UP") {
            return true;
        }
        i += 1;
    }
    false
}

/// The bus description of a discovered device: its type from its name,
/// its MAC address and MTU when known, its first IPv6 (with a colon) and
/// first IPv4 address, activated when it has the `UP` flag.
pub fn device_info_for(device: &Device) -> (info: CRDeviceInfo)
    ensures
        shown_device(*device, info),
{
    let device_type = map_device_type(device);
    let mut info = CRDeviceInfo::new(device.name.clone(), device_type);
    match &device.mac_address {
        Some(m) => {
            info.hw_address = Some(m.clone());
        },
        None => {},
    }
    match device.mtu {
        Some(m) => {
            info.mtu = m;
        },
        None => {},
    }
    info.ipv6_address = first_address_exec(&device.addresses, true);
    info.ipv4_address = first_address_exec(&device.addresses, false);
    info.state = if has_up(&device.flags) {
        CRDeviceState::Activated
    } else {
        CRDeviceState::Disconnected
    };
    info
}

/// The object path of the device of an interface.
pub fn device_path(interface: &str) -> (r: String)
    ensures
        r@ == child_path(CR_DEVICE_PATH_PREFIX@, interface@),
{
    let mut p = CR_DEVICE_PATH_PREFIX.to_string();
    p.append("/");
    p.append(interface);
    p
}

} // verus!
