//! The commands of the command-line tool, and which of them change the
//! system.

use vstd::prelude::*;
use crate::nccli::privilege::PrivilegedOp;
use crate::text::eq_str;

verus! {

/// Top-level commands
#[derive(Debug, Clone)]
pub enum Commands {
    /// Show overall status of NetworkManager
    General(GeneralCommands),
    /// Get and control overall networking
    Networking(NetworkingCommands),
    /// Get and control radio switches
    Radio(RadioCommands),
    /// Manage network connections
    Connection(ConnectionCommands),
    /// Manage network devices
    Device(DeviceCommands),
    /// Run nccli as NetworkManager agent
    Agent(AgentCommands),
    /// Monitor network activity
    Monitor,
    /// VPN management (WireGuard, OpenVPN, IPsec)
    Vpn(VpnCommands),
    /// Access Point management
    Ap(ApCommands),
    /// DHCP server management
    Dhcp(DhcpCommands),
    /// DNS server management
    Dns(DnsCommands),
    /// Routing management
    Route(RouteCommands),
    /// Debug and diagnostics
    Debug(DebugCommands),
    /// Run as a daemon with D-Bus services
    Daemon { nm_compat: bool, cr_dbus: bool },
}

#[derive(Debug, Clone)]
pub enum GeneralCommands {
    /// Show network system status
    Status,
    /// Get or set system hostname
    Hostname { hostname: Option<String> },
    /// Show current user capabilities
    Permissions,
    /// Get or set logging level and domains
    Logging { level: Option<String>, domains: Option<String> },
}

#[derive(Debug, Clone)]
pub enum NetworkingCommands {
    /// Enable networking (all interfaces up)
    On,
    /// Disable networking (all interfaces down)
    Off,
    /// Get network connectivity state
    Connectivity { check: bool },
}

#[derive(Debug, Clone)]
pub enum RadioCommands {
    /// Show radio switches status
    All,
    /// Get or set WiFi radio state
    Wifi { state: Option<String> },
    /// Get or set WWAN radio state
    Wwan { state: Option<String> },
}

#[derive(Debug, Clone)]
pub enum ConnectionCommands {
    /// List configured connections
    Show { id: Option<String>, active: bool },
    /// Activate a connection
    Up { id: String, ifname: Option<String>, ap: Option<String>, passwd_file: Option<String> },
    /// Deactivate a connection
    Down { id: String },
    /// Add a new connection
    Add {
        con_type: String,
        con_name: Option<String>,
        ifname: Option<String>,
        autoconnect: Option<String>,
        ssid: Option<String>,
        password: Option<String>,
        ip4: Option<String>,
        gw4: Option<String>,
        ip6: Option<String>,
        gw6: Option<String>,
    },
    /// Modify an existing connection
    Modify { id: String, settings: Vec<String> },
    /// Edit a connection interactively
    Edit { id: Option<String>, con_type: Option<String> },
    /// Delete a connection
    Delete { id: String },
    /// Reload all connection files
    Reload,
    /// Load or reload a connection file
    Load { filename: String },
    /// Import an external configuration
    Import { import_type: String, file: String },
    /// Export a connection
    Export { id: String, file: String },
    /// Clone a connection
    Clone { id: String, new_name: String },
}

#[derive(Debug, Clone)]
pub enum AgentCommands {
    /// Register as a secret agent
    Secret,
    /// Register as a polkit agent
    Polkit,
    /// Register as both secret and polkit agent
    All,
}

#[derive(Debug, Clone)]
pub enum DeviceCommands {
    /// Show device status
    Status { device: Option<String> },
    /// Show detailed device information
    Show { device: Option<String> },
    /// Set device properties
    SetProperties { device: String, autoconnect: Option<String>, managed: Option<String> },
    /// Connect a device
    Connect { device: String },
    /// Reapply connection to device
    Reapply { device: String },
    /// Modify active connection
    Modify { device: String, settings: Vec<String> },
    /// Disconnect a device
    Disconnect { device: String, wait: Option<u32> },
    /// Delete a software device
    Delete { device: String, wait: Option<u32> },
    /// Monitor device activity
    Monitor { device: Option<String> },
    /// Manage WiFi devices
    Wifi(WifiDeviceCommands),
    /// Show LLDP neighbors
    Lldp { device: Option<String> },
}

#[derive(Debug, Clone)]
pub enum WifiDeviceCommands {
    /// List available WiFi access points
    List { ifname: Option<String>, bssid: Option<String>, rescan: Option<String> },
    /// Connect to a WiFi network
    Connect {
        ssid: String,
        ifname: Option<String>,
        bssid: Option<String>,
        password: Option<String>,
        wep_key_type: Option<String>,
        hidden: bool,
        private: bool,
    },
    /// Create WiFi hotspot
    Hotspot {
        ifname: Option<String>,
        con_name: Option<String>,
        ssid: Option<String>,
        band: Option<String>,
        channel: Option<u8>,
        password: Option<String>,
    },
    /// Turn WiFi on or off
    Radio { state: String },
}

#[derive(Debug, Clone)]
pub enum VpnCommands {
    /// List all VPN connections
    List,
    /// Show VPN connection details
    Show { name: String },
    /// Connect to a VPN
    Connect { name: String },
    /// Disconnect from a VPN
    Disconnect { name: String },
    /// Import VPN configuration file
    Import { vpn_type: String, config_file: String, name: String },
    /// Export VPN configuration
    Export { name: String, output: String },
    /// Create a new VPN connection from a config file
    Create { config_file: String },
    /// Delete a VPN connection
    Delete { name: String },
    /// Get VPN connection status
    Status { name: String },
    /// Get VPN connection statistics
    Stats { name: String },
    /// List available VPN backends
    Backends,
}

#[derive(Debug, Clone)]
pub enum ApCommands {
    /// Start Access Point
    Start {
        interface: String,
        ssid: String,
        password: Option<String>,
        channel: u8,
        band: String,
        country: String,
        ip: String,
    },
    /// Stop Access Point
    Stop,
    /// Get AP status
    Status,
    /// Restart Access Point
    Restart,
}

#[derive(Debug, Clone)]
pub enum DhcpCommands {
    /// Start DHCP server
    Start {
        interface: String,
        range_start: String,
        range_end: String,
        gateway: String,
        dns: Vec<String>,
    },
    /// Stop DHCP server
    Stop,
    /// Get DHCP status
    Status,
    /// Show active leases
    Leases,
}

#[derive(Debug, Clone)]
pub enum DnsCommands {
    /// Start DNS server
    Start { forwarders: Vec<String> },
    /// Stop DNS server
    Stop,
    /// Get DNS status
    Status,
    /// Flush DNS cache
    Flush,
}

#[derive(Debug, Clone)]
pub enum RouteCommands {
    /// Show routing table
    Show,
    /// Add default gateway
    AddDefault { gateway: String, interface: Option<String> },
    /// Delete default gateway
    DelDefault,
}

#[derive(Debug, Clone)]
pub enum DebugCommands {
    /// Ping a host
    Ping { host: String, count: u32 },
    /// Start packet capture
    Tcpdump { interface: String, filter: Option<String>, output: Option<String> },
}

/// The operation a command performs, when it changes the system.  Reading
/// state needs no privilege; so does every command that only shows,
/// lists, exports or monitors.  Setting the hostname or the logging,
/// switching a radio, and the daemon reuse the nearest operation.
pub open spec fn required_privilege(c: Commands) -> Option<PrivilegedOp> {
    match c {
        Commands::General(g) => match g {
            GeneralCommands::Status => None,
            GeneralCommands::Permissions => None,
            GeneralCommands::Logging { level, domains } => if level is Some || domains is Some {
                Some(PrivilegedOp::SetHostname)
            } else {
                None
            },
            GeneralCommands::Hostname { hostname } => if hostname is Some {
                Some(PrivilegedOp::SetHostname)
            } else {
                None
            },
        },
        Commands::Networking(n) => match n {
            NetworkingCommands::On => Some(PrivilegedOp::NetworkingOn),
            NetworkingCommands::Off => Some(PrivilegedOp::NetworkingOff),
            NetworkingCommands::Connectivity { .. } => None,
        },
        Commands::Radio(r) => match r {
            RadioCommands::All => None,
            RadioCommands::Wifi { state } => match state {
                Some(s) => if s@ == "on"@ {
                    Some(PrivilegedOp::RadioWifiOn)
                } else if s@ == "off"@ {
                    Some(PrivilegedOp::RadioWifiOff)
                } else {
                    None
                },
                None => None,
            },
            RadioCommands::Wwan { state } => if state is Some {
                Some(PrivilegedOp::RadioWifiOn)
            } else {
                None
            },
        },
        Commands::Connection(c) => match c {
            ConnectionCommands::Show { .. } => None,
            ConnectionCommands::Up { .. } => Some(PrivilegedOp::ConnectionUp),
            ConnectionCommands::Down { .. } => Some(PrivilegedOp::ConnectionDown),
            ConnectionCommands::Add { .. } => Some(PrivilegedOp::ConnectionAdd),
            ConnectionCommands::Modify { .. } => Some(PrivilegedOp::ConnectionModify),
            ConnectionCommands::Edit { .. } => Some(PrivilegedOp::ConnectionEdit),
            ConnectionCommands::Delete { .. } => Some(PrivilegedOp::ConnectionDelete),
            ConnectionCommands::Reload => Some(PrivilegedOp::ConnectionReload),
            ConnectionCommands::Load { .. } => Some(PrivilegedOp::ConnectionLoad),
            ConnectionCommands::Import { .. } => Some(PrivilegedOp::ConnectionLoad),
            ConnectionCommands::Export { .. } => None,
            ConnectionCommands::Clone { .. } => Some(PrivilegedOp::ConnectionClone),
        },
        Commands::Device(d) => match d {
            DeviceCommands::Status { .. } => None,
            DeviceCommands::Show { .. } => None,
            DeviceCommands::SetProperties { .. } => Some(PrivilegedOp::DeviceSet),
            DeviceCommands::Connect { .. } => Some(PrivilegedOp::DeviceConnect),
            DeviceCommands::Reapply { .. } => Some(PrivilegedOp::DeviceReapply),
            DeviceCommands::Modify { .. } => Some(PrivilegedOp::DeviceModify),
            DeviceCommands::Disconnect { .. } => Some(PrivilegedOp::DeviceDisconnect),
            DeviceCommands::Delete { .. } => Some(PrivilegedOp::DeviceDelete),
            DeviceCommands::Monitor { .. } => None,
            DeviceCommands::Wifi(w) => match w {
                WifiDeviceCommands::List { .. } => None,
                WifiDeviceCommands::Connect { .. } => Some(PrivilegedOp::DeviceWifiConnect),
                WifiDeviceCommands::Hotspot { .. } => Some(PrivilegedOp::DeviceWifiHotspot),
                WifiDeviceCommands::Radio { .. } => Some(PrivilegedOp::DeviceWifiRadio),
            },
            DeviceCommands::Lldp { .. } => None,
        },
        Commands::Agent(_) => None,
        Commands::Monitor => None,
        Commands::Vpn(v) => match v {
            VpnCommands::List => None,
            VpnCommands::Show { .. } => None,
            VpnCommands::Status { .. } => None,
            VpnCommands::Stats { .. } => None,
            VpnCommands::Backends => None,
            VpnCommands::Connect { .. } => Some(PrivilegedOp::VpnConnect),
            VpnCommands::Disconnect { .. } => Some(PrivilegedOp::VpnDisconnect),
            VpnCommands::Import { .. } => Some(PrivilegedOp::VpnImport),
            VpnCommands::Export { .. } => None,
            VpnCommands::Create { .. } => Some(PrivilegedOp::VpnCreate),
            VpnCommands::Delete { .. } => Some(PrivilegedOp::VpnDelete),
        },
        Commands::Ap(a) => match a {
            ApCommands::Start { .. } => Some(PrivilegedOp::ApStart),
            ApCommands::Stop => Some(PrivilegedOp::ApStop),
            ApCommands::Status => None,
            ApCommands::Restart => Some(PrivilegedOp::ApRestart),
        },
        Commands::Dhcp(d) => match d {
            DhcpCommands::Start { .. } => Some(PrivilegedOp::DhcpStart),
            DhcpCommands::Stop => Some(PrivilegedOp::DhcpStop),
            DhcpCommands::Status => None,
            DhcpCommands::Leases => None,
        },
        Commands::Dns(d) => match d {
            DnsCommands::Start { .. } => Some(PrivilegedOp::DhcpStart),
            DnsCommands::Stop => Some(PrivilegedOp::DhcpStop),
            DnsCommands::Status => None,
            DnsCommands::Flush => Some(PrivilegedOp::DnsFlush),
        },
        Commands::Route(r) => match r {
            RouteCommands::Show => None,
            RouteCommands::AddDefault { .. } => Some(PrivilegedOp::RouteAddDefault),
            RouteCommands::DelDefault => Some(PrivilegedOp::RouteDelete),
        },
        Commands::Debug(_) => None,
        Commands::Daemon { .. } => Some(PrivilegedOp::ApStart),
    }
}

/// Determine if a command requires root privileges
/// Returns Some(PrivilegedOp) if privileged, None if read-only
pub fn get_required_privilege(command: &Commands) -> (r: Option<PrivilegedOp>)
    ensures
        r == required_privilege(*command),
{
    match command {
        Commands::General(g) => match g {
            GeneralCommands::Status => None,
            GeneralCommands::Permissions => None,
            GeneralCommands::Logging { level, domains } => {
                if level.is_some() || domains.is_some() {
                    Some(PrivilegedOp::SetHostname)
                } else {
                    None
                }
            },
            GeneralCommands::Hostname { hostname } => {
                if hostname.is_some() {
                    Some(PrivilegedOp::SetHostname)
                } else {
                    None
                }
            },
        },
        Commands::Networking(n) => match n {
            NetworkingCommands::On => Some(PrivilegedOp::NetworkingOn),
            NetworkingCommands::Off => Some(PrivilegedOp::NetworkingOff),
            NetworkingCommands::Connectivity { .. } => None,
        },
        Commands::Radio(r) => match r {
            RadioCommands::All => None,
            RadioCommands::Wifi { state } => match state {
                Some(s) => {
                    if eq_str(s.as_str(), "on") {
                        Some(PrivilegedOp::RadioWifiOn)
                    } else if eq_str(s.as_str(), "off") {
                        Some(PrivilegedOp::RadioWifiOff)
                    } else {
                        None
                    }
                },
                None => None,
            },
            RadioCommands::Wwan { state } => {
                if state.is_some() {
                    Some(PrivilegedOp::RadioWifiOn)
                } else {
                    None
                }
            },
        },
        Commands::Connection(c) => match c {
            ConnectionCommands::Show { .. } => None,
            ConnectionCommands::Up { .. } => Some(PrivilegedOp::ConnectionUp),
            ConnectionCommands::Down { .. } => Some(PrivilegedOp::ConnectionDown),
            ConnectionCommands::Add { .. } => Some(PrivilegedOp::ConnectionAdd),
            ConnectionCommands::Modify { .. } => Some(PrivilegedOp::ConnectionModify),
            ConnectionCommands::Edit { .. } => Some(PrivilegedOp::ConnectionEdit),
            ConnectionCommands::Delete { .. } => Some(PrivilegedOp::ConnectionDelete),
            ConnectionCommands::Reload => Some(PrivilegedOp::ConnectionReload),
            ConnectionCommands::Load { .. } => Some(PrivilegedOp::ConnectionLoad),
            ConnectionCommands::Import { .. } => Some(PrivilegedOp::ConnectionLoad),
            ConnectionCommands::Export { .. } => None,
            ConnectionCommands::Clone { .. } => Some(PrivilegedOp::ConnectionClone),
        },
        Commands::Device(d) => match d {
            DeviceCommands::Status { .. } => None,
            DeviceCommands::Show { .. } => None,
            DeviceCommands::SetProperties { .. } => Some(PrivilegedOp::DeviceSet),
            DeviceCommands::Connect { .. } => Some(PrivilegedOp::DeviceConnect),
            DeviceCommands::Reapply { .. } => Some(PrivilegedOp::DeviceReapply),
            DeviceCommands::Modify { .. } => Some(PrivilegedOp::DeviceModify),
            DeviceCommands::Disconnect { .. } => Some(PrivilegedOp::DeviceDisconnect),
            DeviceCommands::Delete { .. } => Some(PrivilegedOp::DeviceDelete),
            DeviceCommands::Monitor { .. } => None,
            DeviceCommands::Wifi(w) => match w {
                WifiDeviceCommands::List { .. } => None,
                WifiDeviceCommands::Connect { .. } => Some(PrivilegedOp::DeviceWifiConnect),
                WifiDeviceCommands::Hotspot { .. } => Some(PrivilegedOp::DeviceWifiHotspot),
                WifiDeviceCommands::Radio { .. } => Some(PrivilegedOp::DeviceWifiRadio),
            },
            DeviceCommands::Lldp { .. } => None,
        },
        Commands::Agent(_) => None,
        Commands::Monitor => None,
        Commands::Vpn(v) => match v {
            VpnCommands::List => None,
            VpnCommands::Show { .. } => None,
            VpnCommands::Status { .. } => None,
            VpnCommands::Stats { .. } => None,
            VpnCommands::Backends => None,
            VpnCommands::Connect { .. } => Some(PrivilegedOp::VpnConnect),
            VpnCommands::Disconnect { .. } => Some(PrivilegedOp::VpnDisconnect),
            VpnCommands::Import { .. } => Some(PrivilegedOp::VpnImport),
            VpnCommands::Export { .. } => None,
            VpnCommands::Create { .. } => Some(PrivilegedOp::VpnCreate),
            VpnCommands::Delete { .. } => Some(PrivilegedOp::VpnDelete),
        },
        Commands::Ap(a) => match a {
            ApCommands::Start { .. } => Some(PrivilegedOp::ApStart),
            ApCommands::Stop => Some(PrivilegedOp::ApStop),
            ApCommands::Status => None,
            ApCommands::Restart => Some(PrivilegedOp::ApRestart),
        },
        Commands::Dhcp(d) => match d {
            DhcpCommands::Start { .. } => Some(PrivilegedOp::DhcpStart),
            DhcpCommands::Stop => Some(PrivilegedOp::DhcpStop),
            DhcpCommands::Status => None,
            DhcpCommands::Leases => None,
        },
        Commands::Dns(d) => match d {
            DnsCommands::Start { .. } => Some(PrivilegedOp::DhcpStart),
            DnsCommands::Stop => Some(PrivilegedOp::DhcpStop),
            DnsCommands::Status => None,
            DnsCommands::Flush => Some(PrivilegedOp::DnsFlush),
        },
        Commands::Route(r) => match r {
            RouteCommands::Show => None,
            RouteCommands::AddDefault { .. } => Some(PrivilegedOp::RouteAddDefault),
            RouteCommands::DelDefault => Some(PrivilegedOp::RouteDelete),
        },
        Commands::Debug(_) => None,
        Commands::Daemon { .. } => Some(PrivilegedOp::ApStart),
    }
}

/// Whether a command may run: one that needs no privilege always may; a
/// privileged one only as root (the check of `check_privileged_op`).
pub fn authorize(command: &Commands, allow_root_ops: bool, is_root: bool) -> (r: crate::error::NetctlResult<()>)
    ensures
        required_privilege(*command) is None ==> r is Ok,
        required_privilege(*command) is Some ==> (r is Ok <==> is_root),
{
    match get_required_privilege(command) {
        Some(op) => crate::nccli::privilege::check_privileged_op(op, allow_root_ops, is_root),
        None => Ok(()),
    }
}

/// The commands that only read or show state and change nothing: status,
/// permissions, showing the hostname or the logging, the connectivity
/// state, the radio switches, showing, listing, exporting and monitoring
/// connections, devices, VPNs, servers and routes, the agents and the
/// diagnostics.  A radio command with a state other than `on` or `off`
/// switches nothing either.
pub open spec fn only_reads(c: Commands) -> bool {
    match c {
        Commands::General(GeneralCommands::Status) => true,
        Commands::General(GeneralCommands::Permissions) => true,
        Commands::General(GeneralCommands::Hostname { hostname }) => hostname is None,
        Commands::General(GeneralCommands::Logging { level, domains }) => level is None && domains is None,
        Commands::Networking(NetworkingCommands::Connectivity { .. }) => true,
        Commands::Networking(_) => false,
        Commands::Radio(RadioCommands::All) => true,
        Commands::Radio(RadioCommands::Wifi { state }) => match state {
            None => true,
            Some(s) => s@ != "on"@ && s@ != "off"@,
        },
        Commands::Radio(RadioCommands::Wwan { state }) => state is None,
        Commands::Connection(ConnectionCommands::Show { .. }) => true,
        Commands::Connection(ConnectionCommands::Export { .. }) => true,
        Commands::Connection(_) => false,
        Commands::Device(DeviceCommands::Status { .. }) => true,
        Commands::Device(DeviceCommands::Show { .. }) => true,
        Commands::Device(DeviceCommands::Monitor { .. }) => true,
        Commands::Device(DeviceCommands::Lldp { .. }) => true,
        Commands::Device(DeviceCommands::Wifi(WifiDeviceCommands::List { .. })) => true,
        Commands::Device(_) => false,
        Commands::Agent(_) => true,
        Commands::Monitor => true,
        Commands::Vpn(VpnCommands::List) => true,
        Commands::Vpn(VpnCommands::Show { .. }) => true,
        Commands::Vpn(VpnCommands::Status { .. }) => true,
        Commands::Vpn(VpnCommands::Stats { .. }) => true,
        Commands::Vpn(VpnCommands::Backends) => true,
        Commands::Vpn(VpnCommands::Export { .. }) => true,
        Commands::Vpn(_) => false,
        Commands::Ap(ApCommands::Status) => true,
        Commands::Ap(_) => false,
        Commands::Dhcp(DhcpCommands::Status) => true,
        Commands::Dhcp(DhcpCommands::Leases) => true,
        Commands::Dhcp(_) => false,
        Commands::Dns(DnsCommands::Status) => true,
        Commands::Dns(_) => false,
        Commands::Route(RouteCommands::Show) => true,
        Commands::Route(_) => false,
        Commands::Debug(_) => true,
        Commands::Daemon { .. } => false,
    }
}

/// A command needs a privilege exactly when it changes the system: every
/// command that only reads state needs none, every other one needs one.
pub proof fn lemma_privilege_exactly_for_changes(c: Commands, r: Option<PrivilegedOp>)
    requires
        r == required_privilege(c),
    ensures
        r is None <==> only_reads(c),
{
}

/// Anyone may run a command that only reads state, root or not; a command
/// that changes the system runs only for root.
pub proof fn lemma_authorize_reads_for_everyone(
    c: Commands,
    allow_root_ops: bool,
    is_root: bool,
    r: crate::error::NetctlResult<()>,
)
    requires
        required_privilege(c) is None ==> r is Ok,
        required_privilege(c) is Some ==> (r is Ok <==> is_root),
    ensures
        only_reads(c) ==> r is Ok,
        !only_reads(c) ==> (r is Ok <==> is_root),
{
}

} // verus!
