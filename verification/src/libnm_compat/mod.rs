//! libnm-compatible API layer (CR prefix): devices, connections, access
//! points and IP configuration in the shape of NetworkManager's libnm.

pub mod enums;
pub mod ip_config;
pub mod settings;
pub mod access_point;
pub mod device;
pub mod connection;
pub mod active_connection;
pub mod client;
