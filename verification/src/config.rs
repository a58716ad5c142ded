//! Configuration of netctl: directories and default settings.
//!
//! Reading and writing the TOML file is left to the caller; missing
//! fields take the values of the `default_*` functions.

use vstd::prelude::*;

verus! {

/// Main netctl configuration
#[derive(Debug, Clone)]
pub struct NetctlConfig {
    /// Configuration file paths
    pub paths: ConfigPaths,
    /// Default settings
    pub defaults: DefaultSettings,
}

#[derive(Debug, Clone)]
pub struct ConfigPaths {
    /// Base configuration directory
    pub config_dir: String,
    /// Runtime state directory
    pub state_dir: String,
    /// Log directory
    pub log_dir: String,
}

#[derive(Debug, Clone, Copy)]
pub struct DefaultSettings {
    /// Default interface MTU
    pub mtu: u32,
    /// Default DHCP lease time (seconds)
    pub dhcp_lease_time: u32,
    /// Default DNS cache size
    pub dns_cache_size: u32,
}

/// Base configuration directory when none is configured.
pub fn default_config_dir() -> (r: String)
    ensures
        r@ == "/etc/crrouter/netctl"@,
{
    "/etc/crrouter/netctl".to_string()
}

/// Runtime state directory when none is configured.
pub fn default_state_dir() -> (r: String)
    ensures
        r@ == "/run/crrouter/netctl"@,
{
    "/run/crrouter/netctl".to_string()
}

/// Log directory when none is configured.
pub fn default_log_dir() -> (r: String)
    ensures
        r@ == "/var/log/crrouter/netctl"@,
{
    "/var/log/crrouter/netctl".to_string()
}

/// Interface MTU when none is configured.
pub fn default_mtu() -> (r: u32)
    ensures
        r == 1500,
{
    1500
}

/// DHCP lease time (seconds) when none is configured.
pub fn default_lease_time() -> (r: u32)
    ensures
        r == 3600,
{
    3600
}

/// DNS cache size when none is configured.
pub fn default_dns_cache_size() -> (r: u32)
    ensures
        r == 100,
{
    100
}

impl NetctlConfig {
    /// The three directories, in the order they are created.
    pub fn directories(&self) -> (r: Vec<String>)
        ensures
            r@.len() == 3,
            r@[0]@ == self.paths.config_dir@,
            r@[1]@ == self.paths.state_dir@,
            r@[2]@ == self.paths.log_dir@,
    {
        let mut r: Vec<String> = Vec::new();
        r.push(self.paths.config_dir.clone());
        r.push(self.paths.state_dir.clone());
        r.push(self.paths.log_dir.clone());
        r
    }
}

impl Default for NetctlConfig {
    fn default() -> (c: Self)
        ensures
            c.paths.config_dir@ == "/etc/crrouter/netctl"@,
            c.paths.state_dir@ == "/run/crrouter/netctl"@,
            c.paths.log_dir@ == "/var/log/crrouter/netctl"@,
            c.defaults.mtu == 1500,
            c.defaults.dhcp_lease_time == 3600,
            c.defaults.dns_cache_size == 100,
    {
        NetctlConfig {
            paths: ConfigPaths {
                config_dir: default_config_dir(),
                state_dir: default_state_dir(),
                log_dir: default_log_dir(),
            },
            defaults: DefaultSettings {
                mtu: default_mtu(),
                dhcp_lease_time: default_lease_time(),
                dns_cache_size: default_dns_cache_size(),
            },
        }
    }
}

} // verus!
