//! CR Network Control D-Bus interface
//!
//! The state behind `org.crrouter.NetworkControl`: the devices by object
//! path, the overall state and connectivity, and the networking and
//! wireless switches.

use vstd::prelude::*;
use crate::error::{NetctlError, NetctlResult};
use crate::strmap::StrMap;
use crate::text::eq_str;
use crate::cr_dbus::types::{
    CRDeviceInfo, CRDeviceState, CRNetworkState, CRConnectivity, device_type_code,
    device_state_code, network_state_code, connectivity_code,
};
use crate::cr_dbus::props::{PropValue, PropView, DbusError, props_view, push_prop};
use crate::cr_dbus::dhcp::{DbusErrorView, error_view};

verus! {

/// The library version reported on the bus.
pub const SERVICE_VERSION: &'static str = "0.1.0";

/// The message of an unknown device path.
pub open spec fn device_missing(path: Seq<char>) -> Seq<char> {
    "Device "@ + path + " not found"@
}

/// The properties of a device: interface, type and state numbers, the
/// addresses that are known, and the MTU.
pub open spec fn device_info_view(d: CRDeviceInfo) -> Seq<(Seq<char>, PropView)> {
    seq![
        ("Interface"@, PropView::Str(d.interface@)),
        ("DeviceType"@, PropView::U32(device_type_code(d.device_type))),
        ("State"@, PropView::U32(device_state_code(d.state))),
    ] + (match d.ipv4_address {
        Some(a) => seq![("IPv4Address"@, PropView::Str(a@))],
        None => Seq::empty(),
    }) + (match d.ipv6_address {
        Some(a) => seq![("IPv6Address"@, PropView::Str(a@))],
        None => Seq::empty(),
    }) + (match d.hw_address {
        Some(a) => seq![("HwAddress"@, PropView::Str(a@))],
        None => Seq::empty(),
    }) + seq![("Mtu"@, PropView::U32(d.mtu))]
}

/// Network control state
pub struct CRNetworkControl {
    devices: StrMap<CRDeviceInfo>,
    state: CRNetworkState,
    connectivity: CRConnectivity,
    networking_enabled: bool,
    wireless_enabled: bool,
    version: String,
}

impl CRNetworkControl {
    pub closed spec fn devices(&self) -> Map<Seq<char>, CRDeviceInfo> {
        self.devices@
    }

    pub closed spec fn state(&self) -> CRNetworkState {
        self.state
    }

    pub closed spec fn connectivity(&self) -> CRConnectivity {
        self.connectivity
    }

    pub closed spec fn networking_enabled(&self) -> bool {
        self.networking_enabled
    }

    pub closed spec fn wireless_enabled(&self) -> bool {
        self.wireless_enabled
    }

    pub closed spec fn version(&self) -> Seq<char> {
        self.version@
    }

    /// No device, disconnected, connectivity unknown, networking and
    /// wireless enabled.
    pub fn new() -> (c: Self)
        ensures
            c.devices() == Map::<Seq<char>, CRDeviceInfo>::empty(),
            c.state() == CRNetworkState::Disconnected,
            c.connectivity() == CRConnectivity::Unknown,
            c.networking_enabled(),
            c.wireless_enabled(),
            c.version() == SERVICE_VERSION@,
    {
        CRNetworkControl {
            devices: StrMap::new(),
            state: CRNetworkState::Disconnected,
            connectivity: CRConnectivity::Unknown,
            networking_enabled: true,
            wireless_enabled: true,
            version: SERVICE_VERSION.to_string(),
        }
    }

    /// Register a device under its object path.
    pub fn add_device(&mut self, device: CRDeviceInfo)
        ensures
            final(self).devices() == old(self).devices().insert(device.path@, device),
            final(self).state() == old(self).state(),
    {
        let path = device.path.clone();
        self.devices.insert(path.as_str(), device);
    }

    /// Forget the device at a path.
    pub fn remove_device(&mut self, path: &str) -> (r: NetctlResult<()>)
        ensures
            final(self).devices() == old(self).devices().remove(path@),
            old(self).devices().contains_key(path@) ==> r is Ok,
            !old(self).devices().contains_key(path@) ==> (r matches Err(NetctlError::NotFound(m)) && m@
                == device_missing(path@)),
    {
        match self.devices.remove(path) {
            Some(_) => Ok(()),
            None => Err(NetctlError::NotFound(missing(path))),
        }
    }

    /// Record the state of the device at a path.
    pub fn update_device_state(&mut self, path: &str, state: CRDeviceState) -> (r: NetctlResult<()>)
        ensures
            old(self).devices().contains_key(path@) ==> r is Ok && final(self).devices() == old(
                self,
            ).devices().insert(path@, CRDeviceInfo { state, ..old(self).devices()[path@] }),
            !old(self).devices().contains_key(path@) ==> (r matches Err(NetctlError::NotFound(m))
                && m@ == device_missing(path@)) && final(self).devices() == old(self).devices(),
    {
        match self.devices.remove(path) {
            Some(mut device) => {
                device.state = state;
                self.devices.insert(path, device);
                proof {
                    assert(old(self).devices().remove(path@).insert(path@, CRDeviceInfo { state, ..old(self).devices()[path@] })
                        =~= old(self).devices().insert(path@, CRDeviceInfo { state, ..old(self).devices()[path@] }));
                }
                Ok(())
            },
            None => {
                proof {
                    assert(old(self).devices().remove(path@) =~= old(self).devices());
                }
                Err(NetctlError::NotFound(missing(path)))
            },
        }
    }

    /// The device at a path.
    pub fn get_device_info_internal(&self, path: &str) -> (r: Option<&CRDeviceInfo>)
        ensures
            match r {
                Some(d) => self.devices().contains_key(path@) && self.devices()[path@] == *d,
                None => !self.devices().contains_key(path@),
            },
    {
        self.devices.get_ref(path)
    }

    pub fn set_network_state(&mut self, new_state: CRNetworkState)
        ensures
            final(self).state() == new_state,
            final(self).devices() == old(self).devices(),
            final(self).connectivity() == old(self).connectivity(),
    {
        self.state = new_state;
    }

    pub fn set_connectivity(&mut self, new_connectivity: CRConnectivity)
        ensures
            final(self).connectivity() == new_connectivity,
            final(self).devices() == old(self).devices(),
            final(self).state() == old(self).state(),
    {
        self.connectivity = new_connectivity;
    }

    pub fn set_networking_enabled(&mut self, enabled: bool)
        ensures
            final(self).networking_enabled() == enabled,
            final(self).wireless_enabled() == old(self).wireless_enabled(),
            final(self).devices() == old(self).devices(),
    {
        self.networking_enabled = enabled;
    }

    pub fn set_wireless_enabled(&mut self, enabled: bool)
        ensures
            final(self).wireless_enabled() == enabled,
            final(self).networking_enabled() == old(self).networking_enabled(),
            final(self).devices() == old(self).devices(),
    {
        self.wireless_enabled = enabled;
    }

    /// GetVersion
    pub fn get_version(&self) -> (r: String)
        ensures
            r@ == self.version(),
    {
        self.version.clone()
    }

    /// GetDevices: the object paths of the devices.
    pub fn get_devices(&self) -> (r: Vec<String>)
        ensures
            forall|k: Seq<char>|
                #![trigger self.devices().contains_key(k)]
                self.devices().contains_key(k) <==> exists|i: int| 0 <= i < r@.len() && r@[i]@ == k,
            forall|i: int, j: int|
                0 <= i < r@.len() && 0 <= j < r@.len() && i != j ==> #[trigger] r@[i]@ != #[trigger] r@[j]@,
    {
        self.devices.keys()
    }

    /// GetDeviceByInterface: the path of a device with the interface.
    pub fn get_device_by_interface(&self, iface: &str) -> (r: Result<String, DbusError>)
        ensures
            match r {
                Ok(p) => self.devices().contains_key(p@) && self.devices()[p@].interface@ == iface@,
                Err(e) => error_view(e) == DbusErrorView::Failed(
                    "Device with interface "@ + iface@ + " not found"@,
                ) && forall|k: Seq<char>| #[trigger] self.devices().contains_key(k) ==> self.devices()[k].interface@ != iface@,
            },
    {
        let n = self.devices.len();
        let mut i: usize = 0;
        while i < n
            invariant
                n == self.devices.key_seq().len(),
                i <= n,
                forall|j: int| 0 <= j < i ==> self.devices()[#[trigger] self.devices.key_seq()[j]].interface@ != iface@,
            decreases n - i,
        {
            let (path, device) = self.devices.entry(i);
            if eq_str(device.interface.as_str(), iface) {
                return Ok(path.to_string());
            }
            i += 1;
        }
        proof {
            self.devices.lemma_keys();
        }
        let mut m = "Device with interface ".to_string();
        m.append(iface);
        m.append(" not found");
        Err(DbusError::Failed(m))
    }

    /// GetDeviceInfo
    pub fn get_device_info(&self, device_path: &str) -> (r: Result<Vec<(String, PropValue)>, DbusError>)
        ensures
            self.devices().contains_key(device_path@) ==> (r matches Ok(p) && props_view(p@)
                == device_info_view(self.devices()[device_path@])),
            !self.devices().contains_key(device_path@) ==> (r matches Err(e) && error_view(e)
                == DbusErrorView::Failed(device_missing(device_path@))),
    {
        match self.devices.get_ref(device_path) {
            Some(d) => {
                let mut info: Vec<(String, PropValue)> = Vec::new();
                push_prop(&mut info, "Interface", PropValue::Str(d.interface.clone()));
                push_prop(&mut info, "DeviceType", PropValue::U32(d.device_type.code()));
                push_prop(&mut info, "State", PropValue::U32(d.state.code()));
                match &d.ipv4_address {
                    Some(a) => push_prop(&mut info, "IPv4Address", PropValue::Str(a.clone())),
                    None => {},
                }
                match &d.ipv6_address {
                    Some(a) => push_prop(&mut info, "IPv6Address", PropValue::Str(a.clone())),
                    None => {},
                }
                match &d.hw_address {
                    Some(a) => push_prop(&mut info, "HwAddress", PropValue::Str(a.clone())),
                    None => {},
                }
                push_prop(&mut info, "Mtu", PropValue::U32(d.mtu));
                assert(props_view(info@) =~= device_info_view(self.devices()[device_path@]));
                Ok(info)
            },
            None => Err(DbusError::Failed(missing(device_path))),
        }
    }

    /// ActivateDevice / DeactivateDevice: only a known device can be
    /// switched (the switching itself is done by the service).
    pub fn check_device(&self, device_path: &str) -> (r: Result<(), DbusError>)
        ensures
            self.devices().contains_key(device_path@) ==> r is Ok,
            !self.devices().contains_key(device_path@) ==> (r matches Err(e) && error_view(e)
                == DbusErrorView::Failed(device_missing(device_path@))),
    {
        if !self.devices.contains_key(device_path) {
            return Err(DbusError::Failed(missing(device_path)));
        }
        Ok(())
    }

    /// GetState: the number of the overall state.
    pub fn get_state(&self) -> (r: u32)
        ensures
            r == network_state_code(self.state()),
    {
        self.state.code()
    }

    /// GetConnectivity: the number of the connectivity.
    pub fn get_connectivity(&self) -> (r: u32)
        ensures
            r == connectivity_code(self.connectivity()),
    {
        self.connectivity.code()
    }

    pub fn get_networking_enabled(&self) -> (r: bool)
        ensures
            r == self.networking_enabled(),
    {
        self.networking_enabled
    }

    pub fn get_wireless_enabled(&self) -> (r: bool)
        ensures
            r == self.wireless_enabled(),
    {
        self.wireless_enabled
    }
}

fn missing(path: &str) -> (r: String)
    ensures
        r@ == device_missing(path@),
{
    let mut m = "Device ".to_string();
    m.append(path);
    m.append(" not found");
    m
}

impl Default for CRNetworkControl {
    fn default() -> (c: Self)
        ensures
            c.devices() == Map::<Seq<char>, CRDeviceInfo>::empty(),
            c.state() == CRNetworkState::Disconnected,
    {
        CRNetworkControl::new()
    }
}

} // verus!
