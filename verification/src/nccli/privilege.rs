//! Privileged operations of the command-line tool: which commands change
//! the system, and who may run them.

use vstd::prelude::*;
use crate::error::{NetctlError, NetctlResult};

verus! {

/// The operations that modify system network configuration.  They require
/// running as root (UID 0); `--allow-root-ops` itself requires root.
#[derive(Debug, Clone, Copy, PartialEq, Eq, Structural)]
pub enum PrivilegedOp {
    // General
    SetHostname,

    // Networking
    NetworkingOn,
    NetworkingOff,

    // Radio
    RadioWifiOn,
    RadioWifiOff,

    // Connection management
    ConnectionUp,
    ConnectionDown,
    ConnectionAdd,
    ConnectionModify,
    ConnectionDelete,
    ConnectionReload,
    ConnectionLoad,
    ConnectionClone,
    ConnectionEdit,

    // Device management
    DeviceConnect,
    DeviceDisconnect,
    DeviceSet,
    DeviceReapply,
    DeviceModify,
    DeviceDelete,
    DeviceWifiConnect,
    DeviceWifiHotspot,
    DeviceWifiRadio,

    // VPN
    VpnConnect,
    VpnDisconnect,
    VpnCreate,
    VpnImport,
    VpnDelete,

    // Access Point
    ApStart,
    ApStop,
    ApRestart,

    // DHCP
    DhcpStart,
    DhcpStop,

    // DNS
    DnsSet,
    DnsFlush,

    // Routing
    RouteAddDefault,
    RouteAdd,
    RouteDelete,
}

/// The human-readable description of an operation.
pub open spec fn op_description(op: PrivilegedOp) -> Seq<char> {
    match op {
        PrivilegedOp::SetHostname => "set system hostname"@,
        PrivilegedOp::NetworkingOn => "enable networking"@,
        PrivilegedOp::NetworkingOff => "disable networking"@,
        PrivilegedOp::RadioWifiOn => "enable WiFi radio"@,
        PrivilegedOp::RadioWifiOff => "disable WiFi radio"@,
        PrivilegedOp::ConnectionUp => "activate connection"@,
        PrivilegedOp::ConnectionDown => "deactivate connection"@,
        PrivilegedOp::ConnectionAdd => "create connection"@,
        PrivilegedOp::ConnectionModify => "modify connection"@,
        PrivilegedOp::ConnectionDelete => "delete connection"@,
        PrivilegedOp::ConnectionReload => "reload connections"@,
        PrivilegedOp::ConnectionLoad => "load connection file"@,
        PrivilegedOp::ConnectionClone => "clone connection"@,
        PrivilegedOp::ConnectionEdit => "edit connection"@,
        PrivilegedOp::DeviceConnect => "connect device"@,
        PrivilegedOp::DeviceDisconnect => "disconnect device"@,
        PrivilegedOp::DeviceSet => "set device properties"@,
        PrivilegedOp::DeviceReapply => "reapply device configuration"@,
        PrivilegedOp::DeviceModify => "modify device"@,
        PrivilegedOp::DeviceDelete => "delete device"@,
        PrivilegedOp::DeviceWifiConnect => "connect to WiFi network"@,
        PrivilegedOp::DeviceWifiHotspot => "create WiFi hotspot"@,
        PrivilegedOp::DeviceWifiRadio => "control WiFi radio"@,
        PrivilegedOp::VpnConnect => "connect VPN"@,
        PrivilegedOp::VpnDisconnect => "disconnect VPN"@,
        PrivilegedOp::VpnCreate => "create VPN connection"@,
        PrivilegedOp::VpnImport => "import VPN configuration"@,
        PrivilegedOp::VpnDelete => "delete VPN connection"@,
        PrivilegedOp::ApStart => "start access point"@,
        PrivilegedOp::ApStop => "stop access point"@,
        PrivilegedOp::ApRestart => "restart access point"@,
        PrivilegedOp::DhcpStart => "start DHCP server"@,
        PrivilegedOp::DhcpStop => "stop DHCP server"@,
        PrivilegedOp::DnsSet => "set DNS configuration"@,
        PrivilegedOp::DnsFlush => "flush DNS cache"@,
        PrivilegedOp::RouteAddDefault => "add default route"@,
        PrivilegedOp::RouteAdd => "add route"@,
        PrivilegedOp::RouteDelete => "delete route"@,
    }
}

impl PrivilegedOp {
    /// Get a human-readable description of the operation
    pub fn description(&self) -> (r: &'static str)
        ensures
            r@ == op_description(*self),
    {
        match self {
            PrivilegedOp::SetHostname => "set system hostname",
            PrivilegedOp::NetworkingOn => "enable networking",
            PrivilegedOp::NetworkingOff => "disable networking",
            PrivilegedOp::RadioWifiOn => "enable WiFi radio",
            PrivilegedOp::RadioWifiOff => "disable WiFi radio",
            PrivilegedOp::ConnectionUp => "activate connection",
            PrivilegedOp::ConnectionDown => "deactivate connection",
            PrivilegedOp::ConnectionAdd => "create connection",
            PrivilegedOp::ConnectionModify => "modify connection",
            PrivilegedOp::ConnectionDelete => "delete connection",
            PrivilegedOp::ConnectionReload => "reload connections",
            PrivilegedOp::ConnectionLoad => "load connection file",
            PrivilegedOp::ConnectionClone => "clone connection",
            PrivilegedOp::ConnectionEdit => "edit connection",
            PrivilegedOp::DeviceConnect => "connect device",
            PrivilegedOp::DeviceDisconnect => "disconnect device",
            PrivilegedOp::DeviceSet => "set device properties",
            PrivilegedOp::DeviceReapply => "reapply device configuration",
            PrivilegedOp::DeviceModify => "modify device",
            PrivilegedOp::DeviceDelete => "delete device",
            PrivilegedOp::DeviceWifiConnect => "connect to WiFi network",
            PrivilegedOp::DeviceWifiHotspot => "create WiFi hotspot",
            PrivilegedOp::DeviceWifiRadio => "control WiFi radio",
            PrivilegedOp::VpnConnect => "connect VPN",
            PrivilegedOp::VpnDisconnect => "disconnect VPN",
            PrivilegedOp::VpnCreate => "create VPN connection",
            PrivilegedOp::VpnImport => "import VPN configuration",
            PrivilegedOp::VpnDelete => "delete VPN connection",
            PrivilegedOp::ApStart => "start access point",
            PrivilegedOp::ApStop => "stop access point",
            PrivilegedOp::ApRestart => "restart access point",
            PrivilegedOp::DhcpStart => "start DHCP server",
            PrivilegedOp::DhcpStop => "stop DHCP server",
            PrivilegedOp::DnsSet => "set DNS configuration",
            PrivilegedOp::DnsFlush => "flush DNS cache",
            PrivilegedOp::RouteAddDefault => "add default route",
            PrivilegedOp::RouteAdd => "add route",
            PrivilegedOp::RouteDelete => "delete route",
        }
    }
}

/// The refusal text for an operation run without root.
pub open spec fn refusal_message(op: PrivilegedOp) -> Seq<char> {
    "Operation '"@ + op_description(op) + "' requires root privileges.\nRun with sudo or as root user.\nAlternatively, configure polkit rules for non-root access."@
}

/// Whether a privileged operation may run: always as root; otherwise it
/// is refused, with a message naming `--allow-root-ops` when that flag was
/// given (it requires root too) and the operation otherwise.
pub fn check_privileged_op(op: PrivilegedOp, allow_root_ops: bool, is_root: bool) -> (r: NetctlResult<()>)
    ensures
        is_root ==> r is Ok,
        !is_root && allow_root_ops ==> (r matches Err(NetctlError::PermissionDenied(m)) && m@
            == "--allow-root-ops flag requires root privileges"@),
        !is_root && !allow_root_ops ==> (r matches Err(NetctlError::PermissionDenied(m)) && m@
            == refusal_message(op)),
{
    if is_root {
        return Ok(());
    }
    if allow_root_ops {
        return Err(
            NetctlError::PermissionDenied("--allow-root-ops flag requires root privileges".to_string()),
        );
    }
    let mut m = "Operation '".to_string();
    m.append(op.description());
    m.append("' requires root privileges.\nRun with sudo or as root user.\nAlternatively, configure polkit rules for non-root access.");
    Err(NetctlError::PermissionDenied(m))
}

} // verus!
