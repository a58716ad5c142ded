//! CRDevice - Network device representation (libnm NMDevice equivalent)

use vstd::prelude::*;
use crate::device::{Device, DeviceType, DeviceState};
use crate::error::{NetctlError, NetctlResult};
use crate::libnm_compat::ip_config::CRIPConfig;

verus! {

/// Device type (equivalent to NMDeviceType)
#[derive(Debug, Clone, Copy, PartialEq, Eq, Structural)]
pub enum CRDeviceType {
    Unknown,
    Generic,
    Ethernet,
    Wifi,
    Bluetooth,
    OlpcMesh,
    Wimax,
    Modem,
    Infiniband,
    Bond,
    Vlan,
    Adsl,
    Bridge,
    Team,
    Tun,
    IpTunnel,
    Macvlan,
    Vxlan,
    Veth,
}

/// The libnm number of each device type.
pub open spec fn cr_device_type_code(t: CRDeviceType) -> u32 {
    match t {
        CRDeviceType::Unknown => 0,
        CRDeviceType::Generic => 14,
        CRDeviceType::Ethernet => 1,
        CRDeviceType::Wifi => 2,
        CRDeviceType::Bluetooth => 5,
        CRDeviceType::OlpcMesh => 6,
        CRDeviceType::Wimax => 7,
        CRDeviceType::Modem => 8,
        CRDeviceType::Infiniband => 9,
        CRDeviceType::Bond => 10,
        CRDeviceType::Vlan => 11,
        CRDeviceType::Adsl => 12,
        CRDeviceType::Bridge => 13,
        CRDeviceType::Team => 15,
        CRDeviceType::Tun => 16,
        CRDeviceType::IpTunnel => 17,
        CRDeviceType::Macvlan => 18,
        CRDeviceType::Vxlan => 19,
        CRDeviceType::Veth => 20,
    }
}

impl CRDeviceType {
    /// The libnm number of the type.
    pub fn code(&self) -> (r: u32)
        ensures
            r == cr_device_type_code(*self),
    {
        match self {
            CRDeviceType::Unknown => 0,
            CRDeviceType::Generic => 14,
            CRDeviceType::Ethernet => 1,
            CRDeviceType::Wifi => 2,
            CRDeviceType::Bluetooth => 5,
            CRDeviceType::OlpcMesh => 6,
            CRDeviceType::Wimax => 7,
            CRDeviceType::Modem => 8,
            CRDeviceType::Infiniband => 9,
            CRDeviceType::Bond => 10,
            CRDeviceType::Vlan => 11,
            CRDeviceType::Adsl => 12,
            CRDeviceType::Bridge => 13,
            CRDeviceType::Team => 15,
            CRDeviceType::Tun => 16,
            CRDeviceType::IpTunnel => 17,
            CRDeviceType::Macvlan => 18,
            CRDeviceType::Vxlan => 19,
            CRDeviceType::Veth => 20,
        }
    }
}

/// The libnm type of a device kind: loopback, container and PPP devices
/// are generic, VPN devices IP tunnels, TUN/TAP devices tunnels.
pub open spec fn cr_type_of(t: DeviceType) -> CRDeviceType {
    match t {
        DeviceType::Ethernet => CRDeviceType::Ethernet,
        DeviceType::Wifi => CRDeviceType::Wifi,
        DeviceType::Bridge => CRDeviceType::Bridge,
        DeviceType::Bond => CRDeviceType::Bond,
        DeviceType::Vlan => CRDeviceType::Vlan,
        DeviceType::TunTap => CRDeviceType::Tun,
        DeviceType::Veth => CRDeviceType::Veth,
        DeviceType::Vpn => CRDeviceType::IpTunnel,
        DeviceType::Loopback => CRDeviceType::Generic,
        DeviceType::Container => CRDeviceType::Generic,
        DeviceType::Ppp => CRDeviceType::Generic,
        DeviceType::Unknown => CRDeviceType::Unknown,
    }
}

impl From<DeviceType> for CRDeviceType {
    fn from(dt: DeviceType) -> (r: Self)
        ensures
            r == cr_type_of(dt),
    {
        match dt {
            DeviceType::Ethernet => CRDeviceType::Ethernet,
            DeviceType::Wifi => CRDeviceType::Wifi,
            DeviceType::Bridge => CRDeviceType::Bridge,
            DeviceType::Bond => CRDeviceType::Bond,
            DeviceType::Vlan => CRDeviceType::Vlan,
            DeviceType::TunTap => CRDeviceType::Tun,
            DeviceType::Veth => CRDeviceType::Veth,
            DeviceType::Vpn => CRDeviceType::IpTunnel,
            DeviceType::Loopback => CRDeviceType::Generic,
            DeviceType::Container => CRDeviceType::Generic,
            DeviceType::Ppp => CRDeviceType::Generic,
            DeviceType::Unknown => CRDeviceType::Unknown,
        }
    }
}

impl vstd::std_specs::convert::FromSpecImpl<DeviceType> for CRDeviceType {
    open spec fn obeys_from_spec() -> bool {
        true
    }

    open spec fn from_spec(v: DeviceType) -> Self {
        cr_type_of(v)
    }
}

/// Device state (equivalent to NMDeviceState)
#[derive(Debug, Clone, Copy, PartialEq, Eq, Structural)]
pub enum CRDeviceState {
    Unknown,
    Unmanaged,
    Unavailable,
    Disconnected,
    Prepare,
    Config,
    NeedAuth,
    IpConfig,
    IpCheck,
    Secondaries,
    Activated,
    Deactivating,
    Failed,
}

/// The libnm number of each device state.
pub open spec fn cr_device_state_code(s: CRDeviceState) -> u32 {
    match s {
        CRDeviceState::Unknown => 0,
        CRDeviceState::Unmanaged => 10,
        CRDeviceState::Unavailable => 20,
        CRDeviceState::Disconnected => 30,
        CRDeviceState::Prepare => 40,
        CRDeviceState::Config => 50,
        CRDeviceState::NeedAuth => 60,
        CRDeviceState::IpConfig => 70,
        CRDeviceState::IpCheck => 80,
        CRDeviceState::Secondaries => 90,
        CRDeviceState::Activated => 100,
        CRDeviceState::Deactivating => 110,
        CRDeviceState::Failed => 120,
    }
}

impl CRDeviceState {
    /// The libnm number of the state.
    pub fn code(&self) -> (r: u32)
        ensures
            r == cr_device_state_code(*self),
    {
        match self {
            CRDeviceState::Unknown => 0,
            CRDeviceState::Unmanaged => 10,
            CRDeviceState::Unavailable => 20,
            CRDeviceState::Disconnected => 30,
            CRDeviceState::Prepare => 40,
            CRDeviceState::Config => 50,
            CRDeviceState::NeedAuth => 60,
            CRDeviceState::IpConfig => 70,
            CRDeviceState::IpCheck => 80,
            CRDeviceState::Secondaries => 90,
            CRDeviceState::Activated => 100,
            CRDeviceState::Deactivating => 110,
            CRDeviceState::Failed => 120,
        }
    }
}

/// The libnm state of a device state: up is activated, down disconnected,
/// an error failed.
pub open spec fn cr_state_of(s: DeviceState) -> CRDeviceState {
    match s {
        DeviceState::Up => CRDeviceState::Activated,
        DeviceState::Down => CRDeviceState::Disconnected,
        DeviceState::Unmanaged => CRDeviceState::Unmanaged,
        DeviceState::Unavailable => CRDeviceState::Unavailable,
        DeviceState::Error => CRDeviceState::Failed,
        DeviceState::Unknown => CRDeviceState::Unknown,
    }
}

impl From<DeviceState> for CRDeviceState {
    fn from(ds: DeviceState) -> (r: Self)
        ensures
            r == cr_state_of(ds),
    {
        match ds {
            DeviceState::Up => CRDeviceState::Activated,
            DeviceState::Down => CRDeviceState::Disconnected,
            DeviceState::Unmanaged => CRDeviceState::Unmanaged,
            DeviceState::Unavailable => CRDeviceState::Unavailable,
            DeviceState::Error => CRDeviceState::Failed,
            DeviceState::Unknown => CRDeviceState::Unknown,
        }
    }
}

impl vstd::std_specs::convert::FromSpecImpl<DeviceState> for CRDeviceState {
    open spec fn obeys_from_spec() -> bool {
        true
    }

    open spec fn from_spec(v: DeviceState) -> Self {
        cr_state_of(v)
    }
}

/// Device capabilities (NMDeviceCapabilities)
#[derive(Debug, Clone, Copy, PartialEq, Eq, Structural)]
pub struct CRDeviceCapabilities {
    pub nm_supported: bool,
    pub carrier_detect: bool,
    pub is_software: bool,
    pub sriov: bool,
}

/// Device traffic statistics
#[derive(Debug, Clone, Copy)]
pub struct DeviceStatistics {
    pub tx_bytes: u64,
    pub rx_bytes: u64,
    pub tx_packets: u64,
    pub rx_packets: u64,
}

/// Software devices: bridges, bonds, VLANs, TUN/TAP and veth pairs.
pub open spec fn is_software_type(t: DeviceType) -> bool {
    t == DeviceType::Bridge || t == DeviceType::Bond || t == DeviceType::Vlan || t
        == DeviceType::TunTap || t == DeviceType::Veth
}

/// Network device (equivalent to NMDevice)
#[derive(Debug, Clone)]
pub struct CRDevice {
    device: Device,
}

impl CRDevice {
    /// The device described.
    pub closed spec fn dev(&self) -> Device {
        self.device
    }

    pub fn from_device(device: Device) -> (d: Self)
        ensures
            d.dev() == device,
    {
        CRDevice { device }
    }

    pub fn get_iface(&self) -> (r: &str)
        ensures
            r@ == self.dev().name@,
    {
        self.device.name.as_str()
    }

    pub fn get_device_type(&self) -> (r: CRDeviceType)
        ensures
            r == cr_type_of(self.dev().device_type),
    {
        CRDeviceType::from(self.device.device_type)
    }

    pub fn get_state(&self) -> (r: CRDeviceState)
        ensures
            r == cr_state_of(self.dev().state),
    {
        CRDeviceState::from(self.device.state)
    }

    pub fn get_driver(&self) -> (r: Option<String>)
        ensures
            match self.dev().driver {
                Some(d) => r matches Some(s) && s@ == d@,
                None => r is None,
            },
    {
        match &self.device.driver {
            Some(d) => Some(d.clone()),
            None => None,
        }
    }

    /// Not tracked.
    pub fn get_driver_version(&self) -> (r: Option<String>)
        ensures
            r is None,
    {
        None
    }

    /// Not tracked.
    pub fn get_firmware_version(&self) -> (r: Option<String>)
        ensures
            r is None,
    {
        None
    }

    /// Capabilities: supported, with carrier detection, software for
    /// virtual device kinds, without SR-IOV.
    pub fn get_capabilities(&self) -> (c: CRDeviceCapabilities)
        ensures
            c.nm_supported,
            c.carrier_detect,
            c.is_software == is_software_type(self.dev().device_type),
            !c.sriov,
    {
        let t = self.device.device_type;
        CRDeviceCapabilities {
            nm_supported: true,
            carrier_detect: true,
            is_software: t == DeviceType::Bridge || t == DeviceType::Bond || t == DeviceType::Vlan
                || t == DeviceType::TunTap || t == DeviceType::Veth,
            sriov: false,
        }
    }

    pub fn get_hw_address(&self) -> (r: Option<String>)
        ensures
            match self.dev().mac_address {
                Some(m) => r matches Some(s) && s@ == m@,
                None => r is None,
            },
    {
        match &self.device.mac_address {
            Some(m) => Some(m.clone()),
            None => None,
        }
    }

    /// The permanent address is the current one.
    pub fn get_permanent_hw_address(&self) -> (r: Option<String>)
        ensures
            match self.dev().mac_address {
                Some(m) => r matches Some(s) && s@ == m@,
                None => r is None,
            },
    {
        self.get_hw_address()
    }

    /// The MTU, 1500 when unknown.
    pub fn get_mtu(&self) -> (r: u32)
        ensures
            r == match self.dev().mtu {
                Some(m) => m,
                None => 1500u32,
            },
    {
        match self.device.mtu {
            Some(m) => m,
            None => 1500,
        }
    }

    /// Every discovered device is managed.
    pub fn get_managed(&self) -> (r: bool)
        ensures
            r,
    {
        true
    }

    /// Devices do not connect automatically.
    pub fn get_autoconnect(&self) -> (r: bool)
        ensures
            !r,
    {
        false
    }

    /// The IPv4 configuration of an activated device.
    pub fn get_ip4_config(&self) -> (r: Option<CRIPConfig>)
        ensures
            (cr_state_of(self.dev().state) == CRDeviceState::Activated) <==> r is Some,
            r matches Some(c) ==> !c.ipv6() && c.iface() == self.dev().name@,
    {
        if self.get_state() == CRDeviceState::Activated {
            Some(CRIPConfig::from_interface(self.get_iface(), false))
        } else {
            None
        }
    }

    /// The IPv6 configuration of an activated device.
    pub fn get_ip6_config(&self) -> (r: Option<CRIPConfig>)
        ensures
            (cr_state_of(self.dev().state) == CRDeviceState::Activated) <==> r is Some,
            r matches Some(c) ==> c.ipv6() && c.iface() == self.dev().name@,
    {
        if self.get_state() == CRDeviceState::Activated {
            Some(CRIPConfig::from_interface(self.get_iface(), true))
        } else {
            None
        }
    }

    /// Physical devices cannot be deleted.
    pub fn delete(&self) -> (r: NetctlResult<()>)
        ensures
            r matches Err(NetctlError::NotSupported(m)) && m@
                == "Device deletion not supported for physical devices"@,
    {
        Err(
            NetctlError::NotSupported(
                "Device deletion not supported for physical devices".to_string(),
            ),
        )
    }

    /// A scan can only be requested on a WiFi device.
    pub fn check_scan_request(&self) -> (r: NetctlResult<()>)
        ensures
            cr_type_of(self.dev().device_type) == CRDeviceType::Wifi ==> r is Ok,
            cr_type_of(self.dev().device_type) != CRDeviceType::Wifi ==> (r matches Err(
                NetctlError::InvalidParameter(m),
            ) && m@ == "Device is not a WiFi device"@),
    {
        if self.get_device_type() != CRDeviceType::Wifi {
            return Err(NetctlError::InvalidParameter("Device is not a WiFi device".to_string()));
        }
        Ok(())
    }

    /// The traffic statistics, when the device has counters.
    pub fn get_statistics(&self) -> (r: Option<DeviceStatistics>)
        ensures
            match self.dev().stats {
                Some(s) => r matches Some(t) && t.tx_bytes == s.tx_bytes && t.rx_bytes == s.rx_bytes
                    && t.tx_packets == s.tx_packets && t.rx_packets == s.rx_packets,
                None => r is None,
            },
    {
        match &self.device.stats {
            Some(s) => Some(
                DeviceStatistics {
                    tx_bytes: s.tx_bytes,
                    rx_bytes: s.rx_bytes,
                    tx_packets: s.tx_packets,
                    rx_packets: s.rx_packets,
                },
            ),
            None => None,
        }
    }
}

} // verus!
