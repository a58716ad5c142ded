//! Network control library: validation, configuration generation, state
//! tracking and decision logic for network interfaces, WiFi, DHCP and VPN.

pub mod text;
pub mod clock;
pub mod strmap;
pub mod paths;
pub mod error;
pub mod ipaddr;
pub mod validation;
pub mod cr_dbus;
pub mod dhcpm;
pub mod dhcp_client;
pub mod network_monitor;
pub mod link_monitor;
pub mod nccli;
pub mod config;
pub mod debug;
pub mod dns;
pub mod hostapd;
pub mod dhcp;
pub mod interface;
pub mod plugin;
pub mod connection_config;
pub mod connection_manager;
pub mod nm_converter;
pub mod device;
pub mod libnm_compat;
pub mod dbus;
pub mod dbus_integration;
pub mod web;
