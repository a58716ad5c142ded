//! CR D-Bus interface types
//!
//! Common types and enums used across the CR D-Bus interface

use vstd::prelude::*;
use vstd::std_specs::convert::FromSpecImpl;

verus! {

/// CR D-Bus service name
pub const CR_DBUS_SERVICE: &'static str = "org.crrouter.NetworkControl";

/// CR D-Bus main object path
pub const CR_DBUS_PATH: &'static str = "/org/crrouter/NetworkControl";

/// CR D-Bus device path prefix
pub const CR_DEVICE_PATH_PREFIX: &'static str = "/org/crrouter/NetworkControl/Devices";

/// CR D-Bus WiFi path
pub const CR_WIFI_PATH: &'static str = "/org/crrouter/NetworkControl/WiFi";

/// CR D-Bus VPN path prefix
pub const CR_VPN_PATH_PREFIX: &'static str = "/org/crrouter/NetworkControl/VPN";

/// CR D-Bus Connection path
pub const CR_CONNECTION_PATH: &'static str = "/org/crrouter/NetworkControl/Connection";

/// CR D-Bus Connection path prefix
pub const CR_CONNECTION_PATH_PREFIX: &'static str = "/org/crrouter/NetworkControl/Connections";

/// CR D-Bus DHCP path
pub const CR_DHCP_PATH: &'static str = "/org/crrouter/NetworkControl/DHCP";

/// CR D-Bus DNS path
pub const CR_DNS_PATH: &'static str = "/org/crrouter/NetworkControl/DNS";

/// CR D-Bus Routing path
pub const CR_ROUTING_PATH: &'static str = "/org/crrouter/NetworkControl/Routing";

/// Network control state
#[derive(Debug, Clone, Copy, PartialEq, Eq, Structural)]
pub enum CRNetworkState {
    /// Network is unknown
    Unknown,
    /// Network is initializing
    Initializing,
    /// Network is disconnected
    Disconnected,
    /// Network is connecting
    Connecting,
    /// Network is connected locally
    ConnectedLocal,
    /// Network is connected to site
    ConnectedSite,
    /// Network is fully connected (internet access)
    ConnectedGlobal,
}

/// The number that stands for each `CRNetworkState` on the bus.
pub open spec fn network_state_code(v: CRNetworkState) -> u32 {
    match v {
        CRNetworkState::Unknown => 0,
        CRNetworkState::Initializing => 10,
        CRNetworkState::Disconnected => 20,
        CRNetworkState::Connecting => 30,
        CRNetworkState::ConnectedLocal => 40,
        CRNetworkState::ConnectedSite => 50,
        CRNetworkState::ConnectedGlobal => 60,
    }
}

impl CRNetworkState {
    /// The number that stands for this value on the bus.
    pub fn code(&self) -> (r: u32)
        ensures
            r == network_state_code(*self),
    {
        match self {
            CRNetworkState::Unknown => 0,
            CRNetworkState::Initializing => 10,
            CRNetworkState::Disconnected => 20,
            CRNetworkState::Connecting => 30,
            CRNetworkState::ConnectedLocal => 40,
            CRNetworkState::ConnectedSite => 50,
            CRNetworkState::ConnectedGlobal => 60,
        }
    }
}

impl From<CRNetworkState> for u32 {
    fn from(v: CRNetworkState) -> (r: u32)
        ensures
            r == network_state_code(v),
    {
        v.code()
    }
}

impl FromSpecImpl<CRNetworkState> for u32 {
    open spec fn obeys_from_spec() -> bool {
        true
    }

    open spec fn from_spec(v: CRNetworkState) -> u32 {
        network_state_code(v)
    }
}

/// Connectivity state
#[derive(Debug, Clone, Copy, PartialEq, Eq, Structural)]
pub enum CRConnectivity {
    /// Connectivity is unknown
    Unknown,
    /// No connectivity
    NoConnectivity,
    /// Limited connectivity (local network only)
    Limited,
    /// Portal detected (captive portal)
    Portal,
    /// Full connectivity (internet access)
    Full,
}

/// The number that stands for each `CRConnectivity` on the bus.
pub open spec fn connectivity_code(v: CRConnectivity) -> u32 {
    match v {
        CRConnectivity::Unknown => 0,
        CRConnectivity::NoConnectivity => 1,
        CRConnectivity::Limited => 2,
        CRConnectivity::Portal => 3,
        CRConnectivity::Full => 4,
    }
}

impl CRConnectivity {
    /// The number that stands for this value on the bus.
    pub fn code(&self) -> (r: u32)
        ensures
            r == connectivity_code(*self),
    {
        match self {
            CRConnectivity::Unknown => 0,
            CRConnectivity::NoConnectivity => 1,
            CRConnectivity::Limited => 2,
            CRConnectivity::Portal => 3,
            CRConnectivity::Full => 4,
        }
    }
}

impl From<CRConnectivity> for u32 {
    fn from(v: CRConnectivity) -> (r: u32)
        ensures
            r == connectivity_code(v),
    {
        v.code()
    }
}

impl FromSpecImpl<CRConnectivity> for u32 {
    open spec fn obeys_from_spec() -> bool {
        true
    }

    open spec fn from_spec(v: CRConnectivity) -> u32 {
        connectivity_code(v)
    }
}

/// Device type enumeration
#[derive(Debug, Clone, Copy, PartialEq, Eq, Structural)]
pub enum CRDeviceType {
    /// Unknown device type
    Unknown,
    /// Ethernet device
    Ethernet,
    /// WiFi device
    WiFi,
    /// Bluetooth device
    Bluetooth,
    /// Bridge device
    Bridge,
    /// VLAN device
    Vlan,
    /// TUN/TAP device
    TunTap,
    /// VPN device
    Vpn,
    /// Loopback device
    Loopback,
}

/// The number that stands for each `CRDeviceType` on the bus.
pub open spec fn device_type_code(v: CRDeviceType) -> u32 {
    match v {
        CRDeviceType::Unknown => 0,
        CRDeviceType::Ethernet => 1,
        CRDeviceType::WiFi => 2,
        CRDeviceType::Bluetooth => 3,
        CRDeviceType::Bridge => 4,
        CRDeviceType::Vlan => 5,
        CRDeviceType::TunTap => 6,
        CRDeviceType::Vpn => 7,
        CRDeviceType::Loopback => 8,
    }
}

impl CRDeviceType {
    /// The number that stands for this value on the bus.
    pub fn code(&self) -> (r: u32)
        ensures
            r == device_type_code(*self),
    {
        match self {
            CRDeviceType::Unknown => 0,
            CRDeviceType::Ethernet => 1,
            CRDeviceType::WiFi => 2,
            CRDeviceType::Bluetooth => 3,
            CRDeviceType::Bridge => 4,
            CRDeviceType::Vlan => 5,
            CRDeviceType::TunTap => 6,
            CRDeviceType::Vpn => 7,
            CRDeviceType::Loopback => 8,
        }
    }
}

impl From<CRDeviceType> for u32 {
    fn from(v: CRDeviceType) -> (r: u32)
        ensures
            r == device_type_code(v),
    {
        v.code()
    }
}

impl FromSpecImpl<CRDeviceType> for u32 {
    open spec fn obeys_from_spec() -> bool {
        true
    }

    open spec fn from_spec(v: CRDeviceType) -> u32 {
        device_type_code(v)
    }
}

/// Device state enumeration
#[derive(Debug, Clone, Copy, PartialEq, Eq, Structural)]
pub enum CRDeviceState {
    /// State is unknown
    Unknown,
    /// Device is unmanaged
    Unmanaged,
    /// Device is unavailable
    Unavailable,
    /// Device is disconnected
    Disconnected,
    /// Device is preparing to connect
    Preparing,
    /// Device is being configured
    Configuring,
    /// Device needs authentication
    NeedAuth,
    /// Device IP configuration in progress
    IpConfig,
    /// Device IP connectivity check in progress
    IpCheck,
    /// Device is waiting for secondaries
    Secondaries,
    /// Device is activated
    Activated,
    /// Device is deactivating
    Deactivating,
    /// Device has failed
    Failed,
}

/// The number that stands for each `CRDeviceState` on the bus.
pub open spec fn device_state_code(v: CRDeviceState) -> u32 {
    match v {
        CRDeviceState::Unknown => 0,
        CRDeviceState::Unmanaged => 10,
        CRDeviceState::Unavailable => 20,
        CRDeviceState::Disconnected => 30,
        CRDeviceState::Preparing => 40,
        CRDeviceState::Configuring => 50,
        CRDeviceState::NeedAuth => 60,
        CRDeviceState::IpConfig => 70,
        CRDeviceState::IpCheck => 80,
        CRDeviceState::Secondaries => 90,
        CRDeviceState::Activated => 100,
        CRDeviceState::Deactivating => 110,
        CRDeviceState::Failed => 120,
    }
}

impl CRDeviceState {
    /// The number that stands for this value on the bus.
    pub fn code(&self) -> (r: u32)
        ensures
            r == device_state_code(*self),
    {
        match self {
            CRDeviceState::Unknown => 0,
            CRDeviceState::Unmanaged => 10,
            CRDeviceState::Unavailable => 20,
            CRDeviceState::Disconnected => 30,
            CRDeviceState::Preparing => 40,
            CRDeviceState::Configuring => 50,
            CRDeviceState::NeedAuth => 60,
            CRDeviceState::IpConfig => 70,
            CRDeviceState::IpCheck => 80,
            CRDeviceState::Secondaries => 90,
            CRDeviceState::Activated => 100,
            CRDeviceState::Deactivating => 110,
            CRDeviceState::Failed => 120,
        }
    }
}

impl From<CRDeviceState> for u32 {
    fn from(v: CRDeviceState) -> (r: u32)
        ensures
            r == device_state_code(v),
    {
        v.code()
    }
}

impl FromSpecImpl<CRDeviceState> for u32 {
    open spec fn obeys_from_spec() -> bool {
        true
    }

    open spec fn from_spec(v: CRDeviceState) -> u32 {
        device_state_code(v)
    }
}

/// WiFi security type
#[derive(Debug, Clone, Copy, PartialEq, Eq, Structural)]
pub enum CRWiFiSecurity {
    /// No security (open network)
    Open,
    /// WEP security
    Wep,
    /// WPA security
    Wpa,
    /// WPA2 security
    Wpa2,
    /// WPA3 security
    Wpa3,
    /// Enterprise security
    Enterprise,
}

/// The number that stands for each `CRWiFiSecurity` on the bus.
pub open spec fn wifi_security_code(v: CRWiFiSecurity) -> u32 {
    match v {
        CRWiFiSecurity::Open => 0,
        CRWiFiSecurity::Wep => 1,
        CRWiFiSecurity::Wpa => 2,
        CRWiFiSecurity::Wpa2 => 3,
        CRWiFiSecurity::Wpa3 => 4,
        CRWiFiSecurity::Enterprise => 5,
    }
}

impl CRWiFiSecurity {
    /// The number that stands for this value on the bus.
    pub fn code(&self) -> (r: u32)
        ensures
            r == wifi_security_code(*self),
    {
        match self {
            CRWiFiSecurity::Open => 0,
            CRWiFiSecurity::Wep => 1,
            CRWiFiSecurity::Wpa => 2,
            CRWiFiSecurity::Wpa2 => 3,
            CRWiFiSecurity::Wpa3 => 4,
            CRWiFiSecurity::Enterprise => 5,
        }
    }
}

/// WiFi mode
#[derive(Debug, Clone, Copy, PartialEq, Eq, Structural)]
pub enum CRWiFiMode {
    /// Unknown mode
    Unknown,
    /// Infrastructure mode (client)
    Infrastructure,
    /// Access Point mode
    AccessPoint,
    /// Ad-hoc mode
    AdHoc,
}

/// The number that stands for each `CRWiFiMode` on the bus.
pub open spec fn wifi_mode_code(v: CRWiFiMode) -> u32 {
    match v {
        CRWiFiMode::Unknown => 0,
        CRWiFiMode::Infrastructure => 1,
        CRWiFiMode::AccessPoint => 2,
        CRWiFiMode::AdHoc => 3,
    }
}

impl CRWiFiMode {
    /// The number that stands for this value on the bus.
    pub fn code(&self) -> (r: u32)
        ensures
            r == wifi_mode_code(*self),
    {
        match self {
            CRWiFiMode::Unknown => 0,
            CRWiFiMode::Infrastructure => 1,
            CRWiFiMode::AccessPoint => 2,
            CRWiFiMode::AdHoc => 3,
        }
    }
}

/// VPN protocol type
#[derive(Debug, Clone, Copy, PartialEq, Eq, Structural)]
pub enum CRVpnType {
    /// Unknown VPN type
    Unknown,
    /// OpenVPN
    OpenVpn,
    /// WireGuard
    WireGuard,
    /// IPsec
    IPsec,
    /// Arti/Tor
    Arti,
}

/// The number that stands for each `CRVpnType` on the bus.
pub open spec fn vpn_type_code(v: CRVpnType) -> u32 {
    match v {
        CRVpnType::Unknown => 0,
        CRVpnType::OpenVpn => 1,
        CRVpnType::WireGuard => 2,
        CRVpnType::IPsec => 3,
        CRVpnType::Arti => 4,
    }
}

impl CRVpnType {
    /// The number that stands for this value on the bus.
    pub fn code(&self) -> (r: u32)
        ensures
            r == vpn_type_code(*self),
    {
        match self {
            CRVpnType::Unknown => 0,
            CRVpnType::OpenVpn => 1,
            CRVpnType::WireGuard => 2,
            CRVpnType::IPsec => 3,
            CRVpnType::Arti => 4,
        }
    }
}

/// VPN state
#[derive(Debug, Clone, Copy, PartialEq, Eq, Structural)]
pub enum CRVpnState {
    /// VPN is unknown
    Unknown,
    /// VPN is disconnected
    Disconnected,
    /// VPN is connecting
    Connecting,
    /// VPN is connected
    Connected,
    /// VPN is disconnecting
    Disconnecting,
    /// VPN has failed
    Failed,
}

/// The number that stands for each `CRVpnState` on the bus.
pub open spec fn vpn_state_code(v: CRVpnState) -> u32 {
    match v {
        CRVpnState::Unknown => 0,
        CRVpnState::Disconnected => 1,
        CRVpnState::Connecting => 2,
        CRVpnState::Connected => 3,
        CRVpnState::Disconnecting => 4,
        CRVpnState::Failed => 5,
    }
}

impl CRVpnState {
    /// The number that stands for this value on the bus.
    pub fn code(&self) -> (r: u32)
        ensures
            r == vpn_state_code(*self),
    {
        match self {
            CRVpnState::Unknown => 0,
            CRVpnState::Disconnected => 1,
            CRVpnState::Connecting => 2,
            CRVpnState::Connected => 3,
            CRVpnState::Disconnecting => 4,
            CRVpnState::Failed => 5,
        }
    }
}

/// Connection type enumeration
#[derive(Debug, Clone, Copy, PartialEq, Eq, Structural)]
pub enum CRConnectionType {
    /// Unknown connection type
    Unknown,
    /// Ethernet connection
    Ethernet,
    /// WiFi connection
    WiFi,
    /// VPN connection
    Vpn,
    /// Bridge connection
    Bridge,
    /// Bond connection
    Bond,
    /// VLAN connection
    Vlan,
    /// Loopback connection
    Loopback,
}

/// The number that stands for each `CRConnectionType` on the bus.
pub open spec fn connection_type_code(v: CRConnectionType) -> u32 {
    match v {
        CRConnectionType::Unknown => 0,
        CRConnectionType::Ethernet => 1,
        CRConnectionType::WiFi => 2,
        CRConnectionType::Vpn => 3,
        CRConnectionType::Bridge => 4,
        CRConnectionType::Bond => 5,
        CRConnectionType::Vlan => 6,
        CRConnectionType::Loopback => 7,
    }
}

impl CRConnectionType {
    /// The number that stands for this value on the bus.
    pub fn code(&self) -> (r: u32)
        ensures
            r == connection_type_code(*self),
    {
        match self {
            CRConnectionType::Unknown => 0,
            CRConnectionType::Ethernet => 1,
            CRConnectionType::WiFi => 2,
            CRConnectionType::Vpn => 3,
            CRConnectionType::Bridge => 4,
            CRConnectionType::Bond => 5,
            CRConnectionType::Vlan => 6,
            CRConnectionType::Loopback => 7,
        }
    }
}

impl From<CRConnectionType> for u32 {
    fn from(v: CRConnectionType) -> (r: u32)
        ensures
            r == connection_type_code(v),
    {
        v.code()
    }
}

impl FromSpecImpl<CRConnectionType> for u32 {
    open spec fn obeys_from_spec() -> bool {
        true
    }

    open spec fn from_spec(v: CRConnectionType) -> u32 {
        connection_type_code(v)
    }
}

/// Connection state enumeration
#[derive(Debug, Clone, Copy, PartialEq, Eq, Structural)]
pub enum CRConnectionState {
    /// Connection state unknown
    Unknown,
    /// Connection is activating
    Activating,
    /// Connection is activated
    Activated,
    /// Connection is deactivating
    Deactivating,
    /// Connection is deactivated
    Deactivated,
}

/// The number that stands for each `CRConnectionState` on the bus.
pub open spec fn connection_state_code(v: CRConnectionState) -> u32 {
    match v {
        CRConnectionState::Unknown => 0,
        CRConnectionState::Activating => 1,
        CRConnectionState::Activated => 2,
        CRConnectionState::Deactivating => 3,
        CRConnectionState::Deactivated => 4,
    }
}

impl CRConnectionState {
    /// The number that stands for this value on the bus.
    pub fn code(&self) -> (r: u32)
        ensures
            r == connection_state_code(*self),
    {
        match self {
            CRConnectionState::Unknown => 0,
            CRConnectionState::Activating => 1,
            CRConnectionState::Activated => 2,
            CRConnectionState::Deactivating => 3,
            CRConnectionState::Deactivated => 4,
        }
    }
}

impl From<CRConnectionState> for u32 {
    fn from(v: CRConnectionState) -> (r: u32)
        ensures
            r == connection_state_code(v),
    {
        v.code()
    }
}

impl FromSpecImpl<CRConnectionState> for u32 {
    open spec fn obeys_from_spec() -> bool {
        true
    }

    open spec fn from_spec(v: CRConnectionState) -> u32 {
        connection_state_code(v)
    }
}

/// Route type enumeration
#[derive(Debug, Clone, Copy, PartialEq, Eq, Structural)]
pub enum CRRouteType {
    /// Unknown route type
    Unknown,
    /// Unicast route
    Unicast,
    /// Local route
    Local,
    /// Broadcast route
    Broadcast,
    /// Anycast route
    Anycast,
    /// Multicast route
    Multicast,
    /// Blackhole route
    Blackhole,
    /// Unreachable route
    Unreachable,
    /// Prohibit route
    Prohibit,
}

/// The number that stands for each `CRRouteType` on the bus.
pub open spec fn route_type_code(v: CRRouteType) -> u32 {
    match v {
        CRRouteType::Unknown => 0,
        CRRouteType::Unicast => 1,
        CRRouteType::Local => 2,
        CRRouteType::Broadcast => 3,
        CRRouteType::Anycast => 4,
        CRRouteType::Multicast => 5,
        CRRouteType::Blackhole => 6,
        CRRouteType::Unreachable => 7,
        CRRouteType::Prohibit => 8,
    }
}

impl CRRouteType {
    /// The number that stands for this value on the bus.
    pub fn code(&self) -> (r: u32)
        ensures
            r == route_type_code(*self),
    {
        match self {
            CRRouteType::Unknown => 0,
            CRRouteType::Unicast => 1,
            CRRouteType::Local => 2,
            CRRouteType::Broadcast => 3,
            CRRouteType::Anycast => 4,
            CRRouteType::Multicast => 5,
            CRRouteType::Blackhole => 6,
            CRRouteType::Unreachable => 7,
            CRRouteType::Prohibit => 8,
        }
    }
}

impl From<CRRouteType> for u32 {
    fn from(v: CRRouteType) -> (r: u32)
        ensures
            r == route_type_code(v),
    {
        v.code()
    }
}

impl FromSpecImpl<CRRouteType> for u32 {
    open spec fn obeys_from_spec() -> bool {
        true
    }

    open spec fn from_spec(v: CRRouteType) -> u32 {
        route_type_code(v)
    }
}

/// `prefix/name`: the object path of a named object under `prefix`.
pub open spec fn child_path(prefix: Seq<char>, name: Seq<char>) -> Seq<char> {
    prefix + "/"@ + name
}

fn child_path_exec(prefix: &str, name: &str) -> (r: String)
    ensures
        r@ == child_path(prefix@, name@),
{
    let mut p = prefix.to_string();
    p.append("/");
    p.append(name);
    p
}

/// Device information structure
#[derive(Debug, Clone)]
pub struct CRDeviceInfo {
    /// Device object path
    pub path: String,
    /// Interface name
    pub interface: String,
    /// Device type
    pub device_type: CRDeviceType,
    /// Device state
    pub state: CRDeviceState,
    /// IPv4 address
    pub ipv4_address: Option<String>,
    /// IPv6 address
    pub ipv6_address: Option<String>,
    /// MAC address
    pub hw_address: Option<String>,
    /// MTU
    pub mtu: u32,
}

impl CRDeviceInfo {
    /// Create a new device info with default values
    pub fn new(interface: String, device_type: CRDeviceType) -> (r: Self)
        ensures
            r.path@ == child_path(CR_DEVICE_PATH_PREFIX@, interface@),
            r.interface@ == interface@,
            r.device_type == device_type,
            r.state == CRDeviceState::Disconnected,
            r.ipv4_address is None,
            r.ipv6_address is None,
            r.hw_address is None,
            r.mtu == 1500,
    {
        let path = child_path_exec(CR_DEVICE_PATH_PREFIX, interface.as_str());
        CRDeviceInfo {
            path,
            interface,
            device_type,
            state: CRDeviceState::Disconnected,
            ipv4_address: None,
            ipv6_address: None,
            hw_address: None,
            mtu: 1500,
        }
    }
}

/// WiFi access point information
#[derive(Debug, Clone)]
pub struct CRAccessPointInfo {
    /// SSID (network name)
    pub ssid: String,
    /// BSSID (MAC address)
    pub bssid: String,
    /// Signal strength (0-100)
    pub strength: u8,
    /// Security type
    pub security: CRWiFiSecurity,
    /// Frequency in MHz
    pub frequency: u32,
    /// WiFi mode
    pub mode: CRWiFiMode,
}

/// VPN connection information
#[derive(Debug, Clone)]
pub struct CRVpnInfo {
    /// VPN connection name
    pub name: String,
    /// VPN object path
    pub path: String,
    /// VPN protocol type
    pub vpn_type: CRVpnType,
    /// VPN state
    pub state: CRVpnState,
    /// Local IP address (when connected)
    pub local_ip: Option<String>,
    /// Remote server address
    pub remote_address: Option<String>,
}

impl CRVpnInfo {
    /// Create a new VPN info
    pub fn new(name: String, vpn_type: CRVpnType) -> (r: Self)
        ensures
            r.name@ == name@,
            r.path@ == child_path(CR_VPN_PATH_PREFIX@, name@),
            r.vpn_type == vpn_type,
            r.state == CRVpnState::Disconnected,
            r.local_ip is None,
            r.remote_address is None,
    {
        let path = child_path_exec(CR_VPN_PATH_PREFIX, name.as_str());
        CRVpnInfo {
            name,
            path,
            vpn_type,
            state: CRVpnState::Disconnected,
            local_ip: None,
            remote_address: None,
        }
    }
}

/// Connection information structure
#[derive(Debug, Clone)]
pub struct CRConnectionInfo {
    /// Connection UUID
    pub uuid: String,
    /// Connection ID (name)
    pub id: String,
    /// Connection type
    pub conn_type: CRConnectionType,
    /// Connection state
    pub state: CRConnectionState,
    /// Device path (if active)
    pub device: Option<String>,
    /// Object path
    pub path: String,
    /// Autoconnect enabled
    pub autoconnect: bool,
}

impl CRConnectionInfo {
    /// Create a new connection info
    pub fn new(uuid: String, id: String, conn_type: CRConnectionType) -> (r: Self)
        ensures
            r.uuid@ == uuid@,
            r.id@ == id@,
            r.conn_type == conn_type,
            r.state == CRConnectionState::Deactivated,
            r.device is None,
            r.path@ == child_path(CR_CONNECTION_PATH_PREFIX@, uuid@),
            r.autoconnect,
    {
        let path = child_path_exec(CR_CONNECTION_PATH_PREFIX, uuid.as_str());
        CRConnectionInfo {
            uuid,
            id,
            conn_type,
            state: CRConnectionState::Deactivated,
            device: None,
            path,
            autoconnect: true,
        }
    }
}

/// DHCP lease information
#[derive(Debug, Clone)]
pub struct CRDhcpLease {
    /// MAC address of the client
    pub mac_address: String,
    /// Assigned IP address
    pub ip_address: String,
    /// Client hostname (if provided)
    pub hostname: Option<String>,
    /// Lease expiration time (Unix timestamp)
    pub expiry: u64,
    /// Lease start time (Unix timestamp)
    pub start_time: u64,
}

/// Route information structure
#[derive(Debug, Clone)]
pub struct CRRouteInfo {
    /// Destination network (e.g., "192.168.1.0/24" or "default")
    pub destination: String,
    /// Gateway/next hop IP address
    pub gateway: Option<String>,
    /// Outgoing interface
    pub interface: Option<String>,
    /// Route metric (priority)
    pub metric: u32,
    /// Route type
    pub route_type: CRRouteType,
    /// Route table ID
    pub table: u32,
    /// Route scope
    pub scope: u32,
}

impl CRRouteInfo {
    /// Create a new route info: unicast, main table (254), global scope (0).
    pub fn new(destination: String) -> (r: Self)
        ensures
            r.destination@ == destination@,
            r.gateway is None,
            r.interface is None,
            r.metric == 0,
            r.route_type == CRRouteType::Unicast,
            r.table == 254,
            r.scope == 0,
    {
        CRRouteInfo {
            destination,
            gateway: None,
            interface: None,
            metric: 0,
            route_type: CRRouteType::Unicast,
            table: 254,
            scope: 0,
        }
    }
}

} // verus!
