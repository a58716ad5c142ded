//! Settings types (libnm NMSetting* equivalents)

use vstd::prelude::*;
use crate::strmap::StrMap;

verus! {

/// A named setting with its properties.
#[derive(Debug, Clone)]
pub struct CRSetting {
    pub name: String,
    pub properties: StrMap<String>,
}

/// Connection setting (NMSettingConnection)
#[derive(Debug, Clone)]
pub struct CRSettingConnection {
    pub id: String,
    pub uuid: String,
    pub connection_type: String,
    pub interface_name: Option<String>,
    pub autoconnect: bool,
    pub timestamp: u64,
}

/// Wired (Ethernet) setting (NMSettingWired)
#[derive(Debug, Clone)]
pub struct CRSettingWired {
    pub port: Option<String>,
    pub speed: Option<u32>,
    pub duplex: Option<String>,
    pub auto_negotiate: bool,
    pub mac_address: Option<String>,
    pub cloned_mac_address: Option<String>,
    pub mac_address_blacklist: Vec<String>,
    pub mtu: Option<u32>,
    pub s390_subchannels: Vec<String>,
    pub s390_nettype: Option<String>,
    pub s390_options: StrMap<String>,
    pub wake_on_lan: u32,
    pub wake_on_lan_password: Option<String>,
}

impl Default for CRSettingWired {
    /// Auto-negotiation and wake-on-LAN enabled, nothing else set.
    fn default() -> (s: Self)
        ensures
            s.port is None,
            s.speed is None,
            s.duplex is None,
            s.auto_negotiate,
            s.mac_address is None,
            s.cloned_mac_address is None,
            s.mac_address_blacklist@.len() == 0,
            s.mtu is None,
            s.s390_subchannels@.len() == 0,
            s.s390_nettype is None,
            s.s390_options@ == Map::<Seq<char>, String>::empty(),
            s.wake_on_lan == 1,
            s.wake_on_lan_password is None,
    {
        CRSettingWired {
            port: None,
            speed: None,
            duplex: None,
            auto_negotiate: true,
            mac_address: None,
            cloned_mac_address: None,
            mac_address_blacklist: Vec::new(),
            mtu: None,
            s390_subchannels: Vec::new(),
            s390_nettype: None,
            s390_options: StrMap::new(),
            wake_on_lan: 1,
            wake_on_lan_password: None,
        }
    }
}

/// Wireless setting (NMSettingWireless)
#[derive(Debug, Clone)]
pub struct CRSettingWireless {
    pub ssid: Vec<u8>,
    pub mode: String,
    pub band: Option<String>,
    pub channel: Option<u32>,
    pub bssid: Option<String>,
    pub rate: Option<u32>,
    pub tx_power: Option<u32>,
    pub mac_address: Option<String>,
    pub cloned_mac_address: Option<String>,
    pub mac_address_blacklist: Vec<String>,
    pub mac_address_randomization: u32,
    pub mtu: Option<u32>,
    pub hidden: bool,
    pub powersave: u32,
}

impl Default for CRSettingWireless {
    /// Infrastructure mode, empty SSID, nothing else set.
    fn default() -> (s: Self)
        ensures
            s.ssid@.len() == 0,
            s.mode@ == "infrastructure"@,
            s.band is None,
            s.channel is None,
            s.bssid is None,
            s.rate is None,
            s.tx_power is None,
            s.mac_address is None,
            s.cloned_mac_address is None,
            s.mac_address_blacklist@.len() == 0,
            s.mac_address_randomization == 0,
            s.mtu is None,
            !s.hidden,
            s.powersave == 0,
    {
        CRSettingWireless {
            ssid: Vec::new(),
            mode: "infrastructure".to_string(),
            band: None,
            channel: None,
            bssid: None,
            rate: None,
            tx_power: None,
            mac_address: None,
            cloned_mac_address: None,
            mac_address_blacklist: Vec::new(),
            mac_address_randomization: 0,
            mtu: None,
            hidden: false,
            powersave: 0,
        }
    }
}

/// Wireless security setting (NMSettingWirelessSecurity)
#[derive(Debug, Clone)]
pub struct CRSettingWirelessSecurity {
    pub key_mgmt: String,
    pub wep_tx_keyidx: u32,
    pub auth_alg: Option<String>,
    pub proto: Vec<String>,
    pub pairwise: Vec<String>,
    pub group: Vec<String>,
    pub pmf: u32,
    pub leap_username: Option<String>,
    pub wep_key0: Option<String>,
    pub wep_key_type: u32,
    pub psk: Option<String>,
    pub psk_flags: u32,
}

impl Default for CRSettingWirelessSecurity {
    /// WPA-PSK with RSN and CCMP, no key.
    fn default() -> (s: Self)
        ensures
            s.key_mgmt@ == "wpa-psk"@,
            s.wep_tx_keyidx == 0,
            s.auth_alg is None,
            s.proto@.len() == 1 && s.proto@[0]@ == "rsn"@,
            s.pairwise@.len() == 1 && s.pairwise@[0]@ == "ccmp"@,
            s.group@.len() == 1 && s.group@[0]@ == "ccmp"@,
            s.pmf == 0,
            s.leap_username is None,
            s.wep_key0 is None,
            s.wep_key_type == 1,
            s.psk is None,
            s.psk_flags == 0,
    {
        let mut proto: Vec<String> = Vec::new();
        proto.push("rsn".to_string());
        let mut pairwise: Vec<String> = Vec::new();
        pairwise.push("ccmp".to_string());
        let mut group: Vec<String> = Vec::new();
        group.push("ccmp".to_string());
        CRSettingWirelessSecurity {
            key_mgmt: "wpa-psk".to_string(),
            wep_tx_keyidx: 0,
            auth_alg: None,
            proto,
            pairwise,
            group,
            pmf: 0,
            leap_username: None,
            wep_key0: None,
            wep_key_type: 1,
            psk: None,
            psk_flags: 0,
        }
    }
}

/// IPv4 setting (NMSettingIP4Config)
#[derive(Debug, Clone)]
pub struct CRSettingIP4Config {
    pub method: String,
    pub dns: Vec<String>,
    pub dns_search: Vec<String>,
    pub dns_priority: i32,
    pub addresses: Vec<CRIPAddress>,
    pub gateway: Option<String>,
    pub routes: Vec<CRIPRoute>,
    pub route_metric: i64,
    pub ignore_auto_routes: bool,
    pub ignore_auto_dns: bool,
    pub dhcp_client_id: Option<String>,
    pub dhcp_timeout: u32,
    pub dhcp_send_hostname: bool,
    pub dhcp_hostname: Option<String>,
    pub never_default: bool,
    pub may_fail: bool,
}

impl Default for CRSettingIP4Config {
    /// Automatic configuration.
    fn default() -> (s: Self)
        ensures
            s.method@ == "auto"@,
            s.dns@.len() == 0,
            s.dns_search@.len() == 0,
            s.dns_priority == 0,
            s.addresses@.len() == 0,
            s.gateway is None,
            s.routes@.len() == 0,
            s.route_metric == -1,
            !s.ignore_auto_routes,
            !s.ignore_auto_dns,
            s.dhcp_client_id is None,
            s.dhcp_timeout == 0,
            s.dhcp_send_hostname,
            s.dhcp_hostname is None,
            !s.never_default,
            s.may_fail,
    {
        CRSettingIP4Config {
            method: "auto".to_string(),
            dns: Vec::new(),
            dns_search: Vec::new(),
            dns_priority: 0,
            addresses: Vec::new(),
            gateway: None,
            routes: Vec::new(),
            route_metric: -1,
            ignore_auto_routes: false,
            ignore_auto_dns: false,
            dhcp_client_id: None,
            dhcp_timeout: 0,
            dhcp_send_hostname: true,
            dhcp_hostname: None,
            never_default: false,
            may_fail: true,
        }
    }
}

/// IPv6 setting (NMSettingIP6Config)
#[derive(Debug, Clone)]
pub struct CRSettingIP6Config {
    pub method: String,
    pub dns: Vec<String>,
    pub dns_search: Vec<String>,
    pub dns_priority: i32,
    pub addresses: Vec<CRIPAddress>,
    pub gateway: Option<String>,
    pub routes: Vec<CRIPRoute>,
    pub route_metric: i64,
    pub ignore_auto_routes: bool,
    pub ignore_auto_dns: bool,
    pub never_default: bool,
    pub may_fail: bool,
    pub ip6_privacy: i32,
    pub addr_gen_mode: i32,
    pub dhcp_send_hostname: bool,
    pub dhcp_hostname: Option<String>,
    pub token: Option<String>,
}

impl Default for CRSettingIP6Config {
    /// Automatic configuration, stable-privacy address generation.
    fn default() -> (s: Self)
        ensures
            s.method@ == "auto"@,
            s.dns@.len() == 0,
            s.dns_search@.len() == 0,
            s.dns_priority == 0,
            s.addresses@.len() == 0,
            s.gateway is None,
            s.routes@.len() == 0,
            s.route_metric == -1,
            !s.ignore_auto_routes,
            !s.ignore_auto_dns,
            !s.never_default,
            s.may_fail,
            s.ip6_privacy == 0,
            s.addr_gen_mode == 1,
            s.dhcp_send_hostname,
            s.dhcp_hostname is None,
            s.token is None,
    {
        CRSettingIP6Config {
            method: "auto".to_string(),
            dns: Vec::new(),
            dns_search: Vec::new(),
            dns_priority: 0,
            addresses: Vec::new(),
            gateway: None,
            routes: Vec::new(),
            route_metric: -1,
            ignore_auto_routes: false,
            ignore_auto_dns: false,
            never_default: false,
            may_fail: true,
            ip6_privacy: 0,
            addr_gen_mode: 1,
            dhcp_send_hostname: true,
            dhcp_hostname: None,
            token: None,
        }
    }
}

/// An address of an IP setting.
#[derive(Debug, Clone)]
pub struct CRIPAddress {
    pub address: String,
    pub prefix: u32,
}

/// A route of an IP setting.
#[derive(Debug, Clone)]
pub struct CRIPRoute {
    pub dest: String,
    pub prefix: u32,
    pub next_hop: Option<String>,
    pub metric: i64,
}

} // verus!
