//! NetworkManager D-Bus compatibility layer
//!
//! The state behind `org.freedesktop.NetworkManager`: the devices by object
//! path, the global state and the connectivity numbers, and the replies of
//! the interface's methods. The bus connection itself belongs to the
//! program that serves it.

use vstd::prelude::*;
use crate::error::{NetctlError, NetctlResult};
use crate::plugin::PluginState;
use crate::strmap::StrMap;
use crate::text::eq_str;
use crate::connection_config::{last_index_of, last_char_index};
use crate::cr_dbus::props::DbusError;
use crate::cr_dbus::dhcp::{DbusErrorView, error_view};

verus! {

/// NetworkManager D-Bus service name
pub const NM_DBUS_SERVICE: &'static str = "org.freedesktop.NetworkManager";

/// NetworkManager D-Bus object path
pub const NM_DBUS_PATH: &'static str = "/org/freedesktop/NetworkManager";

/// The API version the interface reports.
pub const NM_API_VERSION: &'static str = "1.46.0";

/// Prefix of the object path of an active connection.
pub const NM_ACTIVE_CONNECTION_PREFIX: &'static str = "/org/freedesktop/NetworkManager/ActiveConnection/";

/// Device states matching NetworkManager
#[derive(Debug, Clone, Copy, PartialEq, Eq, Structural)]
pub enum DeviceState {
    Unknown,
    Unmanaged,
    Unavailable,
    Disconnected,
    Prepare,
    Config,
    NeedAuth,
    IpConfig,
    IpCheck,
    Secondaries,
    Activated,
    Deactivating,
    Failed,
}

/// The number NetworkManager gives a device state.
pub open spec fn device_state_number(s: DeviceState) -> u32 {
    match s {
        DeviceState::Unknown => 0,
        DeviceState::Unmanaged => 10,
        DeviceState::Unavailable => 20,
        DeviceState::Disconnected => 30,
        DeviceState::Prepare => 40,
        DeviceState::Config => 50,
        DeviceState::NeedAuth => 60,
        DeviceState::IpConfig => 70,
        DeviceState::IpCheck => 80,
        DeviceState::Secondaries => 90,
        DeviceState::Activated => 100,
        DeviceState::Deactivating => 110,
        DeviceState::Failed => 120,
    }
}

impl DeviceState {
    /// The state's number on the bus.
    pub fn code(&self) -> (r: u32)
        ensures
            r == device_state_number(*self),
    {
        match self {
            DeviceState::Unknown => 0,
            DeviceState::Unmanaged => 10,
            DeviceState::Unavailable => 20,
            DeviceState::Disconnected => 30,
            DeviceState::Prepare => 40,
            DeviceState::Config => 50,
            DeviceState::NeedAuth => 60,
            DeviceState::IpConfig => 70,
            DeviceState::IpCheck => 80,
            DeviceState::Secondaries => 90,
            DeviceState::Activated => 100,
            DeviceState::Deactivating => 110,
            DeviceState::Failed => 120,
        }
    }
}

/// The device state a plugin state is shown as.
pub open spec fn state_of_plugin(state: PluginState) -> DeviceState {
    match state {
        PluginState::Uninitialized => DeviceState::Unknown,
        PluginState::Initializing => DeviceState::Prepare,
        PluginState::Ready => DeviceState::Disconnected,
        PluginState::Activating => DeviceState::Config,
        PluginState::Active => DeviceState::Activated,
        PluginState::Deactivating => DeviceState::Deactivating,
        PluginState::Failed => DeviceState::Failed,
        PluginState::Disabled => DeviceState::Unavailable,
    }
}

impl From<PluginState> for DeviceState {
    fn from(state: PluginState) -> (r: Self)
        ensures
            r == state_of_plugin(state),
    {
        match state {
            PluginState::Uninitialized => DeviceState::Unknown,
            PluginState::Initializing => DeviceState::Prepare,
            PluginState::Ready => DeviceState::Disconnected,
            PluginState::Activating => DeviceState::Config,
            PluginState::Active => DeviceState::Activated,
            PluginState::Deactivating => DeviceState::Deactivating,
            PluginState::Failed => DeviceState::Failed,
            PluginState::Disabled => DeviceState::Unavailable,
        }
    }
}

impl vstd::std_specs::convert::FromSpecImpl<PluginState> for DeviceState {
    open spec fn obeys_from_spec() -> bool {
        true
    }

    open spec fn from_spec(v: PluginState) -> Self {
        state_of_plugin(v)
    }
}

/// Device information
#[derive(Debug, Clone)]
pub struct DeviceInfo {
    pub path: String,
    pub interface: String,
    pub device_type: u32,
    pub state: DeviceState,
    pub ip4_address: Option<String>,
    pub ip6_address: Option<String>,
}

/// A device's information with its strings taken as character sequences.
pub struct DeviceInfoView {
    pub path: Seq<char>,
    pub interface: Seq<char>,
    pub device_type: u32,
    pub state: DeviceState,
    pub ip4_address: Option<Seq<char>>,
    pub ip6_address: Option<Seq<char>>,
}

pub open spec fn opt_view(o: Option<String>) -> Option<Seq<char>> {
    match o {
        Some(s) => Some(s@),
        None => None,
    }
}

impl View for DeviceInfo {
    type V = DeviceInfoView;

    open spec fn view(&self) -> DeviceInfoView {
        DeviceInfoView {
            path: self.path@,
            interface: self.interface@,
            device_type: self.device_type,
            state: self.state,
            ip4_address: opt_view(self.ip4_address),
            ip6_address: opt_view(self.ip6_address),
        }
    }
}

fn copy_opt(o: &Option<String>) -> (r: Option<String>)
    ensures
        opt_view(r) == opt_view(*o),
{
    match o {
        Some(s) => Some(s.clone()),
        None => None,
    }
}

impl DeviceInfo {
    /// A copy of the information.
    pub fn copy(&self) -> (r: DeviceInfo)
        ensures
            r@ == self@,
    {
        DeviceInfo {
            path: self.path.clone(),
            interface: self.interface.clone(),
            device_type: self.device_type,
            state: self.state,
            ip4_address: copy_opt(&self.ip4_address),
            ip6_address: copy_opt(&self.ip6_address),
        }
    }
}

/// The text after the last `/` of an object path, or the whole text
/// where it has none.
pub open spec fn last_segment(s: Seq<char>) -> Seq<char> {
    match last_index_of(s, '/') {
        Some(k) => s.subrange(k + 1, s.len() as int),
        None => s,
    }
}

/// The message of a state change on a path that is not known.
pub open spec fn device_missing(path: Seq<char>) -> Seq<char> {
    "Device "@ + path + " not found"@
}

/// NetworkManager D-Bus interface
pub struct NetworkManagerDBus {
    devices: StrMap<DeviceInfo>,
    state: u32,
    connectivity: u32,
}

impl NetworkManagerDBus {
    /// Each device is kept under its own path.
    #[verifier::type_invariant]
    spec fn paths_match(&self) -> bool {
        forall|k: Seq<char>| #[trigger] self.devices@.contains_key(k) ==> self.devices@[k].path@ == k
    }

    /// The tracked devices by object path.
    pub closed spec fn devices_map(&self) -> Map<Seq<char>, DeviceInfoView> {
        self.devices@.map_values(|d: DeviceInfo| d@)
    }

    /// The global state number.
    pub closed spec fn state_value(&self) -> u32 {
        self.state
    }

    /// The connectivity number.
    pub closed spec fn connectivity_value(&self) -> u32 {
        self.connectivity
    }

    /// No device; connected (global) and full connectivity.
    pub fn new() -> (n: Self)
        ensures
            n.devices_map() == Map::<Seq<char>, DeviceInfoView>::empty(),
            n.state_value() == 70,
            n.connectivity_value() == 4,
    {
        let n = NetworkManagerDBus { devices: StrMap::new(), state: 70, connectivity: 4 };
        assert(n.devices_map() =~= Map::<Seq<char>, DeviceInfoView>::empty());
        n
    }

    /// Add a device under its path, replacing one there.
    pub fn add_device(&mut self, device: DeviceInfo)
        ensures
            final(self).devices_map() == old(self).devices_map().insert(device.path@, device@),
            final(self).state_value() == old(self).state_value(),
            final(self).connectivity_value() == old(self).connectivity_value(),
    {
        proof {
            use_type_invariant(&*self);
        }
        let path = device.path.clone();
        let ghost v = device@;
        let mut devices = StrMap::new();
        std::mem::swap(&mut devices, &mut self.devices);
        devices.insert(path.as_str(), device);
        self.devices = devices;
        assert(final(self).devices_map() =~= old(self).devices_map().insert(path@, v));
    }

    /// Remove the device at a path, if there is one.
    pub fn remove_device(&mut self, path: &str)
        ensures
            final(self).devices_map() == old(self).devices_map().remove(path@),
            final(self).state_value() == old(self).state_value(),
            final(self).connectivity_value() == old(self).connectivity_value(),
    {
        proof {
            use_type_invariant(&*self);
        }
        let mut devices = StrMap::new();
        std::mem::swap(&mut devices, &mut self.devices);
        let _ = devices.remove(path);
        self.devices = devices;
        assert(final(self).devices_map() =~= old(self).devices_map().remove(path@));
    }

    /// Update device state
    pub fn update_device_state(&mut self, path: &str, state: DeviceState) -> (r: NetctlResult<()>)
        ensures
            old(self).devices_map().contains_key(path@) ==> r is Ok && final(self).devices_map()
                == old(self).devices_map().insert(
                path@,
                DeviceInfoView { state, ..old(self).devices_map()[path@] },
            ),
            !old(self).devices_map().contains_key(path@) ==> (r matches Err(NetctlError::NotFound(m))
                && m@ == device_missing(path@)) && final(self).devices_map() == old(
                self,
            ).devices_map(),
            final(self).state_value() == old(self).state_value(),
            final(self).connectivity_value() == old(self).connectivity_value(),
    {
        proof {
            use_type_invariant(&*self);
        }
        let mut devices = StrMap::new();
        std::mem::swap(&mut devices, &mut self.devices);
        match devices.remove(path) {
            Some(mut device) => {
                device.state = state;
                let ghost v = device@;
                devices.insert(path, device);
                self.devices = devices;
                assert(final(self).devices_map() =~= old(self).devices_map().insert(path@, v));
                Ok(())
            },
            None => {
                self.devices = devices;
                assert(final(self).devices_map() =~= old(self).devices_map());
                let mut m = "Device ".to_string();
                m.append(path);
                m.append(" not found");
                Err(NetctlError::NotFound(m))
            },
        }
    }

    /// Get device by path
    pub fn get_device(&self, path: &str) -> (r: Option<DeviceInfo>)
        ensures
            match r {
                Some(d) => self.devices_map().contains_key(path@) && d@ == self.devices_map()[path@]
                    && d.path@ == path@,
                None => !self.devices_map().contains_key(path@),
            },
    {
        proof {
            use_type_invariant(self);
        }
        match self.devices.get_ref(path) {
            Some(d) => Some(d.copy()),
            None => None,
        }
    }

    /// Update global state
    pub fn update_state(&mut self, new_state: u32)
        ensures
            final(self).state_value() == new_state,
            final(self).devices_map() == old(self).devices_map(),
            final(self).connectivity_value() == old(self).connectivity_value(),
    {
        proof {
            use_type_invariant(&*self);
        }
        self.state = new_state;
    }

    /// Update connectivity
    pub fn update_connectivity(&mut self, new_connectivity: u32)
        ensures
            final(self).connectivity_value() == new_connectivity,
            final(self).devices_map() == old(self).devices_map(),
            final(self).state_value() == old(self).state_value(),
    {
        proof {
            use_type_invariant(&*self);
        }
        self.connectivity = new_connectivity;
    }

    /// GetDevices: the object paths of all devices.
    pub fn get_devices(&self) -> (r: Vec<String>)
        ensures
            forall|k: Seq<char>|
                #![trigger self.devices_map().contains_key(k)]
                self.devices_map().contains_key(k) <==> exists|i: int| 0 <= i < r@.len() && r@[i]@ == k,
            forall|i: int, j: int|
                0 <= i < r@.len() && 0 <= j < r@.len() && i != j ==> #[trigger] r@[i]@ != #[trigger] r@[j]@,
    {
        self.devices.keys()
    }

    /// GetAllDevices: the same list as GetDevices.
    pub fn get_all_devices(&self) -> (r: Vec<String>)
        ensures
            forall|k: Seq<char>|
                #![trigger self.devices_map().contains_key(k)]
                self.devices_map().contains_key(k) <==> exists|i: int| 0 <= i < r@.len() && r@[i]@ == k,
            forall|i: int, j: int|
                0 <= i < r@.len() && 0 <= j < r@.len() && i != j ==> #[trigger] r@[i]@ != #[trigger] r@[j]@,
    {
        self.get_devices()
    }

    /// GetDeviceByIpIface: the path of a device with the interface name.
    pub fn get_device_by_ip_iface(&self, iface: &str) -> (r: Result<String, DbusError>)
        ensures
            match r {
                Ok(p) => self.devices_map().contains_key(p@) && self.devices_map()[p@].interface
                    == iface@,
                Err(e) => error_view(e) == DbusErrorView::Failed(
                    "Device with interface "@ + iface@ + " not found"@,
                ) && forall|k: Seq<char>| #[trigger]
                    self.devices_map().contains_key(k) ==> self.devices_map()[k].interface
                        != iface@,
            },
    {
        let n = self.devices.len();
        let mut i: usize = 0;
        while i < n
            invariant
                n == self.devices.key_seq().len(),
                i <= n,
                forall|j: int|
                    0 <= j < i ==> self.devices@[#[trigger] self.devices.key_seq()[j]].interface@
                        != iface@,
            decreases n - i,
        {
            let (path, device) = self.devices.entry(i);
            if eq_str(device.interface.as_str(), iface) {
                return Ok(path.to_string());
            }
            i += 1;
        }
        proof {
            self.devices.lemma_keys();
        }
        let mut m = "Device with interface ".to_string();
        m.append(iface);
        m.append(" not found");
        Err(DbusError::Failed(m))
    }

    /// ActivateConnection: the path of the active connection, named after
    /// the last segment of the connection's path.
    pub fn activate_connection(&self, connection: &str, device: &str, specific_object: &str) -> (r:
        Result<String, DbusError>)
        ensures
            r matches Ok(p) && p@ == NM_ACTIVE_CONNECTION_PREFIX@ + last_segment(connection@),
    {
        let n: usize = connection.unicode_len();
        let mut p = NM_ACTIVE_CONNECTION_PREFIX.to_string();
        match last_char_index(connection, '/') {
            Some(k) => p.append(connection.substring_char(k + 1, n)),
            None => p.append(connection),
        }
        Ok(p)
    }

    /// DeactivateConnection
    pub fn deactivate_connection(&self, active_connection: &str) -> (r: Result<(), DbusError>)
        ensures
            r is Ok,
    {
        Ok(())
    }

    /// Version
    pub fn version(&self) -> (r: String)
        ensures
            r@ == NM_API_VERSION@,
    {
        NM_API_VERSION.to_string()
    }

    /// NetworkingEnabled
    pub fn networking_enabled(&self) -> (r: bool)
        ensures
            r,
    {
        true
    }

    /// WirelessEnabled
    pub fn wireless_enabled(&self) -> (r: bool)
        ensures
            r,
    {
        true
    }

    /// State
    pub fn state(&self) -> (r: u32)
        ensures
            r == self.state_value(),
    {
        self.state
    }

    /// Connectivity
    pub fn connectivity(&self) -> (r: u32)
        ensures
            r == self.connectivity_value(),
    {
        self.connectivity
    }

    /// CheckConnectivity
    pub fn check_connectivity(&self) -> (r: Result<u32, DbusError>)
        ensures
            r matches Ok(c) && c == self.connectivity_value(),
    {
        Ok(self.connectivity)
    }
}

impl Default for NetworkManagerDBus {
    fn default() -> (n: Self)
        ensures
            n.devices_map() == Map::<Seq<char>, DeviceInfoView>::empty(),
            n.state_value() == 70,
            n.connectivity_value() == 4,
    {
        NetworkManagerDBus::new()
    }
}

} // verus!
