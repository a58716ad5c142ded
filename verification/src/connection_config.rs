//! Connection configuration (the `.nctl` files): its sections, the
//! settings a plugin is given, and where the files are kept.  Reading and
//! writing the TOML text is left to the caller.

use vstd::prelude::*;
use vstd::string::*;
use crate::plugin::{ConnectionConfig, SettingValue, SettingView, settings_view};
use crate::paths::{joined, join_path};
use crate::text::{has_suffix, ends_with};
use crate::cr_dbus::props::copy_strings;

verus! {

/// A connection file
#[derive(Debug, Clone)]
pub struct NetctlConnectionConfig {
    pub connection: ConnectionSection,
    pub wifi: Option<WifiSection>,
    pub wifi_security: Option<WifiSecuritySection>,
    pub vpn: Option<VpnSection>,
    pub ethernet: Option<EthernetSection>,
    pub ipv4: Option<IpConfigSection>,
    pub ipv6: Option<IpConfigSection>,
}

/// `[connection]`
#[derive(Debug, Clone)]
pub struct ConnectionSection {
    pub name: String,
    pub uuid: String,
    pub conn_type: String,
    pub autoconnect: bool,
    pub interface_name: Option<String>,
    pub plugin: Option<String>,
}

/// `[wifi]`
#[derive(Debug, Clone)]
pub struct WifiSection {
    pub ssid: String,
    pub mode: String,
    pub bssid: Option<String>,
    pub channel: Option<u32>,
}

/// The WiFi mode of a file that names none.
pub fn default_wifi_mode() -> (r: String)
    ensures
        r@ == "infrastructure"@,
{
    "infrastructure".to_string()
}

/// `[wifi-security]`
#[derive(Debug, Clone)]
pub struct WifiSecuritySection {
    pub key_mgmt: String,
    pub psk: Option<String>,
    pub password: Option<String>,
}

/// `[vpn]`
#[derive(Debug, Clone)]
pub struct VpnSection {
    /// "wireguard", "openvpn", "ipsec"
    pub connection_type: String,
    pub wireguard: Option<WireGuardVpnSection>,
    pub openvpn: Option<OpenVpnSection>,
    pub remote: Option<String>,
    pub port: Option<u16>,
    pub proto: Option<String>,
    pub ca: Option<String>,
    pub cert: Option<String>,
    pub key: Option<String>,
    pub config_file: Option<String>,
}

/// `[vpn.wireguard]`
#[derive(Debug, Clone)]
pub struct WireGuardVpnSection {
    pub private_key: String,
    pub address: String,
    pub listen_port: Option<u16>,
    pub dns: Option<String>,
    pub mtu: Option<u16>,
    pub table: Option<String>,
    pub peer: Option<WireGuardPeer>,
    pub peers: Option<Vec<WireGuardPeer>>,
}

/// A WireGuard peer
#[derive(Debug, Clone)]
pub struct WireGuardPeer {
    pub public_key: String,
    pub allowed_ips: Option<String>,
    pub endpoint: Option<String>,
    pub persistent_keepalive: Option<u32>,
    pub preshared_key: Option<String>,
}

/// `[vpn.openvpn]`
#[derive(Debug, Clone)]
pub struct OpenVpnSection {
    pub config_file: Option<String>,
    pub remote: Option<String>,
    pub port: Option<u16>,
    pub proto: Option<String>,
    pub dev: Option<String>,
    pub ca: Option<String>,
    pub cert: Option<String>,
    pub key: Option<String>,
    pub tls_auth: Option<String>,
    pub cipher: Option<String>,
    pub auth: Option<String>,
    pub auth_user_pass: Option<String>,
    pub verbose: Option<bool>,
}

/// `[ethernet]`
#[derive(Debug, Clone)]
pub struct EthernetSection {
    pub mac_address: Option<String>,
    pub mtu: Option<u32>,
}

/// `[ipv4]` / `[ipv6]`
#[derive(Debug, Clone)]
pub struct IpConfigSection {
    /// auto, manual, ignore, link-local
    pub method: String,
    pub address: Option<String>,
    pub gateway: Option<String>,
    pub dns: Option<Vec<String>>,
    pub routes: Option<Vec<String>>,
}

pub open spec fn opt_str_setting(name: Seq<char>, v: Option<String>) -> Seq<(Seq<char>, SettingView)> {
    match v {
        Some(s) => seq![(name, SettingView::Str(s@))],
        None => Seq::empty(),
    }
}

/// The WiFi settings: SSID, mode, then BSSID and channel when set.
pub open spec fn wifi_settings(w: Option<WifiSection>) -> Seq<(Seq<char>, SettingView)> {
    match w {
        Some(w) => seq![("ssid"@, SettingView::Str(w.ssid@)), ("mode"@, SettingView::Str(w.mode@))]
            + opt_str_setting("bssid"@, w.bssid) + (match w.channel {
            Some(c) => seq![("channel"@, SettingView::UInt(c as nat))],
            None => Seq::empty(),
        }),
        None => Seq::empty(),
    }
}

/// The WiFi security settings: key management, then PSK and password when
/// set.
pub open spec fn security_settings(s: Option<WifiSecuritySection>) -> Seq<(Seq<char>, SettingView)> {
    match s {
        Some(s) => seq![("key-mgmt"@, SettingView::Str(s.key_mgmt@))] + opt_str_setting("psk"@, s.psk)
            + opt_str_setting("password"@, s.password),
        None => Seq::empty(),
    }
}

/// The VPN settings: the legacy fields that are set, then the connection
/// type.
pub open spec fn vpn_settings(v: Option<VpnSection>) -> Seq<(Seq<char>, SettingView)> {
    match v {
        Some(v) => opt_str_setting("remote"@, v.remote) + (match v.port {
            Some(p) => seq![("port"@, SettingView::UInt(p as nat))],
            None => Seq::empty(),
        }) + opt_str_setting("proto"@, v.proto) + opt_str_setting("ca"@, v.ca) + opt_str_setting(
            "cert"@,
            v.cert,
        ) + opt_str_setting("key"@, v.key) + opt_str_setting("config_file"@, v.config_file) + seq![
            ("connection-type"@, SettingView::Str(v.connection_type@)),
        ],
        None => Seq::empty(),
    }
}

/// The IPv4 settings that are set: address, gateway, DNS servers.
pub open spec fn ipv4_settings(ip: Option<IpConfigSection>) -> Seq<(Seq<char>, SettingView)> {
    match ip {
        Some(ip) => opt_str_setting("ipv4_address"@, ip.address) + opt_str_setting(
            "ipv4_gateway"@,
            ip.gateway,
        ) + (match ip.dns {
            Some(d) => seq![("ipv4_dns"@, SettingView::StrList(d@.map_values(|x: String| x@)))],
            None => Seq::empty(),
        }),
        None => Seq::empty(),
    }
}

/// The settings a plugin is given for a connection file.
pub open spec fn plugin_settings(c: NetctlConnectionConfig) -> Seq<(Seq<char>, SettingView)> {
    wifi_settings(c.wifi) + security_settings(c.wifi_security) + vpn_settings(c.vpn)
        + ipv4_settings(c.ipv4)
}

fn push_setting(v: &mut Vec<(String, SettingValue)>, name: &str, value: SettingValue)
    ensures
        settings_view(final(v)@) == settings_view(old(v)@).push((name@, value@)),
{
    v.push((name.to_string(), value));
    assert(settings_view(final(v)@) =~= settings_view(old(v)@).push((name@, value@)));
}

fn push_opt(v: &mut Vec<(String, SettingValue)>, name: &str, value: &Option<String>)
    ensures
        settings_view(final(v)@) == settings_view(old(v)@) + opt_str_setting(name@, *value),
{
    match value {
        Some(s) => push_setting(v, name, SettingValue::Str(s.clone())),
        None => {},
    }
    assert(settings_view(final(v)@) =~= settings_view(old(v)@) + opt_str_setting(name@, *value));
}

impl NetctlConnectionConfig {
    fn add_wifi(&self, v: &mut Vec<(String, SettingValue)>)
        ensures
            settings_view(final(v)@) == settings_view(old(v)@) + wifi_settings(self.wifi),
    {
        let ghost start = settings_view(v@);
        match &self.wifi {
            Some(w) => {
                push_setting(v, "ssid", SettingValue::Str(w.ssid.clone()));
                push_setting(v, "mode", SettingValue::Str(w.mode.clone()));
                push_opt(v, "bssid", &w.bssid);
                match w.channel {
                    Some(c) => push_setting(v, "channel", SettingValue::UInt(c as u64)),
                    None => {},
                }
            },
            None => {},
        }
        assert(settings_view(v@) =~= start + wifi_settings(self.wifi));
    }

    fn add_security(&self, v: &mut Vec<(String, SettingValue)>)
        ensures
            settings_view(final(v)@) == settings_view(old(v)@) + security_settings(self.wifi_security),
    {
        let ghost start = settings_view(v@);
        match &self.wifi_security {
            Some(s) => {
                push_setting(v, "key-mgmt", SettingValue::Str(s.key_mgmt.clone()));
                push_opt(v, "psk", &s.psk);
                push_opt(v, "password", &s.password);
            },
            None => {},
        }
        assert(settings_view(v@) =~= start + security_settings(self.wifi_security));
    }

    fn add_vpn(&self, v: &mut Vec<(String, SettingValue)>)
        ensures
            settings_view(final(v)@) == settings_view(old(v)@) + vpn_settings(self.vpn),
    {
        let ghost start = settings_view(v@);
        match &self.vpn {
            Some(vpn) => {
                push_opt(v, "remote", &vpn.remote);
                match vpn.port {
                    Some(p) => push_setting(v, "port", SettingValue::UInt(p as u64)),
                    None => {},
                }
                push_opt(v, "proto", &vpn.proto);
                push_opt(v, "ca", &vpn.ca);
                push_opt(v, "cert", &vpn.cert);
                push_opt(v, "key", &vpn.key);
                push_opt(v, "config_file", &vpn.config_file);
                push_setting(v, "connection-type", SettingValue::Str(vpn.connection_type.clone()));
            },
            None => {},
        }
        assert(settings_view(v@) =~= start + vpn_settings(self.vpn));
    }

    fn add_ipv4(&self, v: &mut Vec<(String, SettingValue)>)
        ensures
            settings_view(final(v)@) == settings_view(old(v)@) + ipv4_settings(self.ipv4),
    {
        let ghost start = settings_view(v@);
        match &self.ipv4 {
            Some(ip) => {
                push_opt(v, "ipv4_address", &ip.address);
                push_opt(v, "ipv4_gateway", &ip.gateway);
                match &ip.dns {
                    Some(d) => push_setting(v, "ipv4_dns", SettingValue::StrList(copy_strings(d))),
                    None => {},
                }
            },
            None => {},
        }
        assert(settings_view(v@) =~= start + ipv4_settings(self.ipv4));
    }

    /// The configuration handed to a plugin: the identity of the
    /// connection and its WiFi, security, VPN and IPv4 settings.
    pub fn to_plugin_config(&self) -> (c: ConnectionConfig)
        ensures
            c.uuid@ == self.connection.uuid@,
            c.name@ == self.connection.name@,
            c.conn_type@ == self.connection.conn_type@,
            c.autoconnect == self.connection.autoconnect,
            settings_view(c.settings@) == plugin_settings(*self),
    {
        let mut settings: Vec<(String, SettingValue)> = Vec::new();
        self.add_wifi(&mut settings);
        self.add_security(&mut settings);
        self.add_vpn(&mut settings);
        self.add_ipv4(&mut settings);
        assert(settings_view(settings@) =~= plugin_settings(*self));
        ConnectionConfig {
            uuid: self.connection.uuid.clone(),
            name: self.connection.name.clone(),
            conn_type: self.connection.conn_type.clone(),
            settings,
            autoconnect: self.connection.autoconnect,
        }
    }
}

/// The last position of `c` in `s`, if any.
pub open spec fn last_index_of(s: Seq<char>, c: char) -> Option<int>
    decreases s.len(),
{
    if s.len() == 0 {
        None
    } else if s.last() == c {
        Some(s.len() - 1)
    } else {
        last_index_of(s.drop_last(), c)
    }
}

/// The extension of a file name (`Path::extension`): the text after the
/// last dot, unless that dot is the first character.
pub open spec fn extension_of(name: Seq<char>) -> Option<Seq<char>> {
    match last_index_of(name, '.') {
        Some(k) => if k > 0 {
            Some(name.subrange(k + 1, name.len() as int))
        } else {
            None
        },
        None => None,
    }
}

/// The stem of a file name with an extension: the text before its last
/// dot.
pub open spec fn stem_of(name: Seq<char>) -> Seq<char> {
    match last_index_of(name, '.') {
        Some(k) => name.subrange(0, k),
        None => name,
    }
}

pub proof fn lemma_last_index_range(s: Seq<char>, c: char)
    ensures
        last_index_of(s, c) matches Some(k) ==> 0 <= k < s.len() && s[k] == c,
    decreases s.len(),
{
    if s.len() > 0 && s.last() != c {
        lemma_last_index_range(s.drop_last(), c);
    }
}

/// The position of the last `c` in `s`.
pub fn last_char_index(s: &str, c: char) -> (r: Option<usize>)
    ensures
        r is Some <==> last_index_of(s@, c) is Some,
        r matches Some(k) ==> last_index_of(s@, c) == Some(k as int) && k < s@.len(),
{
    proof {
        lemma_last_index_range(s@, c);
    }
    let mut i: usize = s.unicode_len();
    assert(s@.subrange(0, i as int) =~= s@);
    while i > 0
        invariant
            i <= s@.len(),
            last_index_of(s@, c) == last_index_of(s@.subrange(0, i as int), c),
        decreases i,
    {
        let ghost pre = s@.subrange(0, i as int);
        assert(pre.drop_last() =~= s@.subrange(0, i - 1));
        if s.get_char(i - 1) == c {
            return Some(i - 1);
        }
        i -= 1;
    }
    None
}

/// The stem of a file name whose extension is `ext` (`Path::extension`
/// and `Path::file_stem` of a bare file name).
pub fn stem_with_extension(file_name: &str, ext: &str) -> (r: Option<String>)
    ensures
        extension_of(file_name@) == Some(ext@) ==> (r matches Some(n) && n@ == stem_of(file_name@)),
        extension_of(file_name@) != Some(ext@) ==> r is None,
{
    match last_char_index(file_name, '.') {
        Some(k) => {
            if k == 0 {
                assert(last_index_of(file_name@, '.') == Some(0int));
                assert(extension_of(file_name@) is None);
                return None;
            }
            let n: usize = file_name.unicode_len();
            let found = file_name.substring_char(k + 1, n);
            if crate::text::eq_str(found, ext) {
                Some(file_name.substring_char(0, k).to_string())
            } else {
                None
            }
        },
        None => None,
    }
}

/// The connection name of a file of the directory: the stem of a file
/// whose extension is `nctl`.
pub fn config_name_of_file(file_name: &str) -> (r: Option<String>)
    ensures
        extension_of(file_name@) == Some("nctl"@) ==> (r matches Some(n) && n@ == stem_of(
            file_name@,
        )),
        extension_of(file_name@) != Some("nctl"@) ==> r is None,
{
    stem_with_extension(file_name, "nctl")
}

/// Where connection files are kept
pub struct ConnectionConfigManager {
    config_dir: String,
}

impl ConnectionConfigManager {
    pub closed spec fn dir(&self) -> Seq<char> {
        self.config_dir@
    }

    pub fn new(config_dir: &str) -> (m: Self)
        ensures
            m.dir() == config_dir@,
    {
        ConnectionConfigManager { config_dir: config_dir.to_string() }
    }

    /// The directory.
    pub fn config_dir(&self) -> (r: &str)
        ensures
            r@ == self.dir(),
    {
        self.config_dir.as_str()
    }

    /// The file of a connection: `<name>.nctl` joined to the directory as
    /// `Path::join` does (an absolute name replaces the directory).
    pub fn config_path(&self, name: &str) -> (r: String)
        ensures
            r@ == joined(self.dir(), name@ + ".nctl"@),
    {
        let mut file = name.to_string();
        file.append(".nctl");
        join_path(self.config_dir.as_str(), file.as_str())
    }
}

impl Default for ConnectionConfigManager {
    /// Files kept in `/etc/netctl/connections`.
    fn default() -> (m: Self)
        ensures
            m.dir() == "/etc/netctl/connections"@,
    {
        ConnectionConfigManager::new("/etc/netctl/connections")
    }
}

/// The plugin is given every IPv4 value a connection file sets: its
/// address as `ipv4_address`, its gateway as `ipv4_gateway` and its DNS
/// servers as `ipv4_dns`, and likewise the SSID and mode of its WiFi
/// section as `ssid` and `mode`.
pub proof fn lemma_plugin_gets_ipv4_and_wifi(cfg: NetctlConnectionConfig, settings: Seq<(Seq<char>, SettingView)>)
    requires
        settings == plugin_settings(cfg),
    ensures
        cfg.ipv4 matches Some(ip) ==> ip.address matches Some(a) ==> settings.contains(
            ("ipv4_address"@, SettingView::Str(a@)),
        ),
        cfg.ipv4 matches Some(ip) ==> ip.gateway matches Some(g) ==> settings.contains(
            ("ipv4_gateway"@, SettingView::Str(g@)),
        ),
        cfg.ipv4 matches Some(ip) ==> ip.dns matches Some(d) ==> settings.contains(
            ("ipv4_dns"@, SettingView::StrList(d@.map_values(|x: String| x@))),
        ),
        cfg.wifi matches Some(w) ==> settings.contains(("ssid"@, SettingView::Str(w.ssid@)))
            && settings.contains(("mode"@, SettingView::Str(w.mode@))),
{
    let pre = wifi_settings(cfg.wifi) + security_settings(cfg.wifi_security) + vpn_settings(cfg.vpn);
    assert(settings == pre + ipv4_settings(cfg.ipv4));
    match cfg.ipv4 {
        Some(ip) => {
            let a = opt_str_setting("ipv4_address"@, ip.address);
            let g = opt_str_setting("ipv4_gateway"@, ip.gateway);
            let d = match ip.dns {
                Some(d) => seq![("ipv4_dns"@, SettingView::StrList(d@.map_values(|x: String| x@)))],
                None => Seq::<(Seq<char>, SettingView)>::empty(),
            };
            assert(settings =~= pre + a + g + d);
            match ip.address {
                Some(x) => {
                    assert(a == seq![("ipv4_address"@, SettingView::Str(x@))]);
                    assert(settings[pre.len() as int] == ("ipv4_address"@, SettingView::Str(x@)));
                    assert(settings.contains(("ipv4_address"@, SettingView::Str(x@))));
                },
                None => {},
            }
            match ip.gateway {
                Some(x) => {
                    assert(g == seq![("ipv4_gateway"@, SettingView::Str(x@))]);
                    assert(settings[(pre.len() + a.len()) as int] == ("ipv4_gateway"@, SettingView::Str(x@)));
                    assert(settings.contains(("ipv4_gateway"@, SettingView::Str(x@))));
                },
                None => {},
            }
            match ip.dns {
                Some(x) => {
                    assert(settings[(pre.len() + a.len() + g.len()) as int] == (
                        "ipv4_dns"@,
                        SettingView::StrList(x@.map_values(|y: String| y@)),
                    ));
                },
                None => {},
            }
        },
        None => {},
    }
    match cfg.wifi {
        Some(w) => {
            assert(settings[0] == ("ssid"@, SettingView::Str(w.ssid@)));
            assert(settings[1] == ("mode"@, SettingView::Str(w.mode@)));
        },
        None => {},
    }
}

} // verus!
