//! CR D-Bus interface library: the types, object paths and state kept
//! behind the `org.crrouter.NetworkControl` service.

pub mod types;
pub mod props;
pub mod dhcp;
pub mod vpn;
pub mod network_control;
pub mod wifi;
pub mod privilege;
pub mod device;
pub mod integration;

pub use types::{
    CRNetworkState, CRConnectivity, CRDeviceType, CRDeviceState, CRWiFiSecurity, CRWiFiMode,
    CRVpnType, CRVpnState, CRConnectionType, CRConnectionState, CRRouteType, CRDeviceInfo,
    CRAccessPointInfo, CRVpnInfo, CRConnectionInfo, CRDhcpLease, CRRouteInfo, CR_DBUS_SERVICE,
    CR_DBUS_PATH, CR_DEVICE_PATH_PREFIX, CR_WIFI_PATH, CR_VPN_PATH_PREFIX, CR_CONNECTION_PATH,
    CR_CONNECTION_PATH_PREFIX, CR_DHCP_PATH, CR_DNS_PATH, CR_ROUTING_PATH,
};

use vstd::prelude::*;

verus! {

/// Library version
pub const VERSION: &'static str = "0.1.0";

} // verus!
