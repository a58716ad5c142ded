//! Network devices as the device layer reports them: type, state and the
//! few properties the libnm-compatible API reads.

use vstd::prelude::*;

verus! {

/// Kind of network device
#[derive(Debug, Clone, Copy, PartialEq, Eq, Structural)]
pub enum DeviceType {
    Ethernet,
    Wifi,
    Bridge,
    Bond,
    Vlan,
    TunTap,
    Veth,
    Vpn,
    Loopback,
    Container,
    Ppp,
    Unknown,
}

/// Operational state of a device
#[derive(Debug, Clone, Copy, PartialEq, Eq, Structural)]
pub enum DeviceState {
    Up,
    Down,
    Unmanaged,
    Unavailable,
    Error,
    Unknown,
}

/// Traffic counters of a device
#[derive(Debug, Clone, Copy)]
pub struct DeviceStats {
    pub rx_bytes: u64,
    pub tx_bytes: u64,
    pub rx_packets: u64,
    pub tx_packets: u64,
}

/// A network device
#[derive(Debug, Clone)]
pub struct Device {
    pub name: String,
    pub device_type: DeviceType,
    pub state: DeviceState,
    pub driver: Option<String>,
    pub mac_address: Option<String>,
    pub mtu: Option<u32>,
    pub addresses: Vec<String>,
    pub flags: Vec<String>,
    pub stats: Option<DeviceStats>,
}

} // verus!
