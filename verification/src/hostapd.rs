//! hostapd management for WiFi Access Point
//!
//! Configuration generation for hostapd, and the paths, arguments and
//! process-id handling of its control.  Running hostapd is left to the
//! caller.

use vstd::prelude::*;
use crate::error::{NetctlError, NetctlResult};
use crate::paths::{joined, join_path};
use crate::text::{has_sub, occurs_at, decimal, int_decimal, push_decimal, push_int_decimal, eq_str, trim, trim_seq, parse_i32, parsed_i32, utf8_len_at_most};
use crate::nccli::checks::byte_len;

verus! {

#[derive(Debug, Clone)]
pub struct AccessPointConfig {
    /// Interface name
    pub interface: String,
    /// SSID
    pub ssid: String,
    /// Password (WPA2/WPA3), None for open network
    pub password: Option<String>,
    /// Channel number
    pub channel: u8,
    /// Band: "2.4GHz" or "5GHz"
    pub band: String,
    /// Country code (regulatory domain)
    pub country_code: String,
    /// Hidden SSID
    pub hidden: bool,
    /// Maximum number of clients
    pub max_clients: Option<u32>,
    /// Client isolation (prevent client-to-client communication)
    pub ap_isolate: bool,
    /// Enable WMM/QoS
    pub wmm_enabled: bool,
    /// IEEE 802.11n (HT) support
    pub ieee80211n: bool,
    /// IEEE 802.11ac (VHT) support
    pub ieee80211ac: bool,
    /// IEEE 802.11ax (HE/WiFi 6) support
    pub ieee80211ax: bool,
    /// Channel width: 20, 40, 80, 160 MHz
    pub channel_width: u8,
    /// TX power limit (dBm)
    pub tx_power: Option<u8>,
}

impl Default for AccessPointConfig {
    fn default() -> (c: Self)
        ensures
            c.interface@ == "wlan0"@,
            c.ssid@ == "CRRouter-AP"@,
            c.password matches Some(p) && p@ == "crrouter123"@,
            c.channel == 6,
            c.band@ == "2.4GHz"@,
            c.country_code@ == "US"@,
            !c.hidden,
            c.max_clients == Some(32u32),
            !c.ap_isolate,
            c.wmm_enabled,
            c.ieee80211n,
            !c.ieee80211ac,
            !c.ieee80211ax,
            c.channel_width == 20,
            c.tx_power is None,
    {
        AccessPointConfig {
            interface: "wlan0".to_string(),
            ssid: "CRRouter-AP".to_string(),
            password: Some("crrouter123".to_string()),
            channel: 6,
            band: "2.4GHz".to_string(),
            country_code: "US".to_string(),
            hidden: false,
            max_clients: Some(32),
            ap_isolate: false,
            wmm_enabled: true,
            ieee80211n: true,
            ieee80211ac: false,
            ieee80211ax: false,
            channel_width: 20,
            tx_power: None,
        }
    }
}

/// The hostapd hardware mode of a band: `a` for 5GHz, `g` otherwise.
pub open spec fn hw_mode_of(band: Seq<char>) -> Seq<char> {
    if band == "5GHz"@ {
        "a"@
    } else {
        "g"@
    }
}

/// `key=value` and a newline.
pub open spec fn conf_line(key: Seq<char>, v: Seq<char>) -> Seq<char> {
    key + "="@ + v + "\n"@
}

pub open spec fn when(b: bool, s: Seq<char>) -> Seq<char> {
    if b {
        s
    } else {
        Seq::empty()
    }
}

/// The interface, SSID, regulatory and radio lines.
pub open spec fn radio_text(c: AccessPointConfig) -> Seq<char> {
    conf_line("interface"@, c.interface@) + "driver=nl80211\n"@ + conf_line("ssid"@, c.ssid@)
        + conf_line("country_code"@, c.country_code@) + conf_line("hw_mode"@, hw_mode_of(c.band@))
        + conf_line("channel"@, decimal(c.channel as nat)) + when(
        c.hidden,
        "ignore_broadcast_ssid=1\n"@,
    )
}

/// The WPA2 lines of a protected network.
pub open spec fn security_text(password: Option<String>) -> Seq<char> {
    match password {
        Some(p) => "wpa=2\nwpa_passphrase="@ + p@
            + "\nwpa_key_mgmt=WPA-PSK\nwpa_pairwise=CCMP\nrsn_pairwise=CCMP\n"@,
        None => Seq::empty(),
    }
}

/// The feature lines: WMM, 802.11n (with 40 MHz capabilities when the
/// channel is that wide), 802.11ac (5GHz only), 802.11ax, isolation, the
/// client limit, and the fixed authentication lines.
pub open spec fn features_text(c: AccessPointConfig) -> Seq<char> {
    when(c.wmm_enabled, "wmm_enabled=1\n"@) + ht_text(c) + features_rest(c)
}

/// The 802.11n lines: the 802.11n switch, with the 40 MHz capabilities
/// when the channel is that wide.
pub open spec fn ht_text(c: AccessPointConfig) -> Seq<char> {
    when(
        c.ieee80211n,
        "ieee80211n=1\n"@ + when(c.channel_width >= 40, "ht_capab=[HT40+][SHORT-GI-40]\n"@),
    )
}

/// The feature lines after the 802.11n ones.
pub open spec fn features_rest(c: AccessPointConfig) -> Seq<char> {
    when(c.ieee80211ac && hw_mode_of(c.band@) == "a"@, "ieee80211ac=1\n"@) + when(
        c.ieee80211ax,
        "ieee80211ax=1\n"@,
    ) + when(c.ap_isolate, "ap_isolate=1\n"@) + (match c.max_clients {
        Some(m) => conf_line("max_num_sta"@, decimal(m as nat)),
        None => Seq::empty(),
    }) + "auth_algs=1\nmacaddr_acl=0\n"@
}

/// The hostapd configuration of an access point.
pub open spec fn hostapd_conf(c: AccessPointConfig) -> Seq<char> {
    radio_text(c) + security_text(c.password) + features_text(c)
}

/// A WPA2 passphrase must be at least 8 bytes.
pub open spec fn password_too_short(password: Option<String>) -> bool {
    match password {
        Some(p) => byte_len(p@) < 8,
        None => false,
    }
}

fn push_line(t: &mut String, key: &str, v: &str)
    ensures
        final(t)@ == old(t)@ + conf_line(key@, v@),
{
    t.append(key);
    t.append("=");
    t.append(v);
    t.append("\n");
}

fn push_num_line(t: &mut String, key: &str, n: u64)
    ensures
        final(t)@ == old(t)@ + conf_line(key@, decimal(n as nat)),
{
    t.append(key);
    t.append("=");
    push_decimal(t, n);
    t.append("\n");
}

fn radio_lines(config: &AccessPointConfig) -> (t: String)
    ensures
        t@ == radio_text(*config),
{
    let mut t = String::new();
    push_line(&mut t, "interface", config.interface.as_str());
    t.append("driver=nl80211\n");
    push_line(&mut t, "ssid", config.ssid.as_str());
    push_line(&mut t, "country_code", config.country_code.as_str());
    let hw_mode = if eq_str(config.band.as_str(), "5GHz") {
        "a"
    } else {
        "g"
    };
    assert(hw_mode@ == hw_mode_of(config.band@));
    push_line(&mut t, "hw_mode", hw_mode);
    let ghost before_channel = t@;
    push_num_line(&mut t, "channel", config.channel as u64);
    assert(t@ =~= before_channel + conf_line("channel"@, decimal(config.channel as nat)));
    let ghost before_hidden = t@;
    if config.hidden {
        t.append("ignore_broadcast_ssid=1\n");
    }
    assert(t@ =~= before_hidden + when(config.hidden, "ignore_broadcast_ssid=1\n"@));
    assert(t@ =~= radio_text(*config));
    t
}

fn ht_lines(config: &AccessPointConfig) -> (t: String)
    ensures
        t@ == ht_text(*config),
{
    let mut t = String::new();
    if config.ieee80211n {
        t.append("ieee80211n=1\n");
        if config.channel_width >= 40 {
            t.append("ht_capab=[HT40+][SHORT-GI-40]\n");
        }
    }
    assert(t@ =~= when(
        config.ieee80211n,
        "ieee80211n=1\n"@ + when(config.channel_width >= 40, "ht_capab=[HT40+][SHORT-GI-40]\n"@),
    ));
    t
}

fn rest_lines(config: &AccessPointConfig) -> (t: String)
    ensures
        t@ == features_rest(*config),
{
    let mut t = String::new();
    proof {
        reveal_strlit("a");
        reveal_strlit("g");
        assert("a"@[0] != "g"@[0]);
    }
    if config.ieee80211ac && eq_str(config.band.as_str(), "5GHz") {
        t.append("ieee80211ac=1\n");
    }
    assert(t@ =~= when(config.ieee80211ac && hw_mode_of(config.band@) == "a"@, "ieee80211ac=1\n"@));
    let ghost s3 = t@;
    if config.ieee80211ax {
        t.append("ieee80211ax=1\n");
    }
    if config.ap_isolate {
        t.append("ap_isolate=1\n");
    }
    assert(t@ =~= s3 + when(config.ieee80211ax, "ieee80211ax=1\n"@) + when(config.ap_isolate, "ap_isolate=1\n"@));
    let ghost s4 = t@;
    match config.max_clients {
        Some(m) => {
            push_num_line(&mut t, "max_num_sta", m as u64);
        },
        None => {},
    }
    assert(t@ =~= s4 + match config.max_clients {
        Some(m) => conf_line("max_num_sta"@, decimal(m as nat)),
        None => Seq::empty(),
    });
    t.append("auth_algs=1\nmacaddr_acl=0\n");
    assert(t@ =~= features_rest(*config));
    t
}

fn feature_lines(config: &AccessPointConfig) -> (t: String)
    ensures
        t@ == features_text(*config),
{
    let mut t = String::new();
    if config.wmm_enabled {
        t.append("wmm_enabled=1\n");
    }
    assert(t@ =~= when(config.wmm_enabled, "wmm_enabled=1\n"@));
    let ht = ht_lines(config);
    t.append(ht.as_str());
    let rest = rest_lines(config);
    t.append(rest.as_str());
    t
}

/// hostapd controller
pub struct HostapdController {
    config_dir: String,
    pid_file: String,
}

impl HostapdController {
    /// Directory of the configuration and process-id files.
    pub closed spec fn dir(&self) -> Seq<char> {
        self.config_dir@
    }

    /// The process-id file: `hostapd.pid` in the directory.
    pub closed spec fn pid_path(&self) -> Seq<char> {
        self.pid_file@
    }

    pub fn new(config_dir: String) -> (c: Self)
        ensures
            c.dir() == config_dir@,
            c.pid_path() == joined(config_dir@, "hostapd.pid"@),
    {
        let pid_file = join_path(config_dir.as_str(), "hostapd.pid");
        HostapdController { pid_file, config_dir }
    }

    /// Generate hostapd configuration file
    pub fn generate_config(&self, config: &AccessPointConfig) -> (r: NetctlResult<String>)
        ensures
            password_too_short(config.password) ==> (r matches Err(NetctlError::InvalidParameter(m))
                && m@ == "Password must be at least 8 characters"@),
            !password_too_short(config.password) ==> (r matches Ok(t) && t@ == hostapd_conf(*config)),
    {
        let mut conf = radio_lines(config);
        match &config.password {
            Some(password) => {
                match utf8_len_at_most(password.as_str(), 7) {
                    Some(_) => {
                        return Err(
                            NetctlError::InvalidParameter(
                                "Password must be at least 8 characters".to_string(),
                            ),
                        );
                    },
                    None => {},
                }
                conf.append("wpa=2\nwpa_passphrase=");
                conf.append(password.as_str());
                conf.append("\nwpa_key_mgmt=WPA-PSK\nwpa_pairwise=CCMP\nrsn_pairwise=CCMP\n");
            },
            None => {},
        }
        let features = feature_lines(config);
        conf.append(features.as_str());
        Ok(conf)
    }

    /// The path of the generated configuration: `hostapd.conf` in the
    /// directory.
    pub fn config_file(&self) -> (r: String)
        ensures
            r@ == joined(self.dir(), "hostapd.conf"@),
    {
        join_path(self.config_dir.as_str(), "hostapd.conf")
    }

    /// The process-id file.
    pub fn pid_file(&self) -> (r: &str)
        ensures
            r@ == self.pid_path(),
    {
        self.pid_file.as_str()
    }

    /// The arguments that start hostapd in the background with the given
    /// configuration: `-B -P <pid file> <config>`.
    pub fn start_args(&self, conf_path: &str) -> (args: Vec<String>)
        ensures
            args@.len() == 4,
            args@[0]@ == "-B"@,
            args@[1]@ == "-P"@,
            args@[2]@ == self.pid_path(),
            args@[3]@ == conf_path@,
    {
        let mut args: Vec<String> = Vec::new();
        args.push("-B".to_string());
        args.push("-P".to_string());
        args.push(self.pid_file.clone());
        args.push(conf_path.to_string());
        args
    }
}

/// The process id written in a process-id file, if it is a number.
pub open spec fn pid_in(text: Seq<char>) -> Option<int> {
    parsed_i32(trim_seq(text))
}

/// The process id written in a process-id file.
pub fn parse_pid(text: &str) -> (r: Option<i32>)
    ensures
        match pid_in(text@) {
            Some(p) => r == Some(p as i32),
            None => r is None,
        },
{
    let t = trim(text);
    parse_i32(t.as_str())
}

/// The pid of a running hostapd read for stopping it; an unreadable pid
/// is a service error.
pub fn pid_for_stop(text: &str) -> (r: NetctlResult<i32>)
    ensures
        match pid_in(text@) {
            Some(p) => r matches Ok(q) && q == p,
            None => r matches Err(NetctlError::ServiceError(m)) && m@ == "Invalid PID"@,
        },
{
    match parse_pid(text) {
        Some(p) => Ok(p),
        None => Err(NetctlError::ServiceError("Invalid PID".to_string())),
    }
}

/// The `/proc` entry of a process, which exists while it runs.
pub fn proc_path(pid: i32) -> (r: String)
    ensures
        r@ == "/proc/"@ + int_decimal(pid as int),
{
    let mut p = "/proc/".to_string();
    push_int_decimal(&mut p, pid as i64);
    p
}

/// The arguments of the `kill` that stops hostapd: `-TERM <pid>`.
pub fn kill_args(pid: i32) -> (args: Vec<String>)
    ensures
        args@.len() == 2,
        args@[0]@ == "-TERM"@,
        args@[1]@ == int_decimal(pid as int),
{
    let mut args: Vec<String> = Vec::new();
    args.push("-TERM".to_string());
    let mut p = String::new();
    push_int_decimal(&mut p, pid as i64);
    args.push(p);
    args
}

/// The error of a hostapd that did not start: its output streams.
pub fn start_failure(stderr: &str, stdout: &str) -> (e: NetctlError)
    ensures
        e matches NetctlError::ServiceError(m) && m@ == "hostapd failed\nStderr: "@ + stderr@
            + "\nStdout: "@ + stdout@,
{
    let mut m = "hostapd failed\nStderr: ".to_string();
    m.append(stderr);
    m.append("\nStdout: ");
    m.append(stdout);
    NetctlError::ServiceError(m)
}

#[derive(Debug, Clone)]
pub struct HostapdStatus {
    pub running: bool,
    pub pid: Option<i32>,
}

/// The 40 MHz HT capability line of hostapd.
pub open spec fn ht40_line() -> Seq<char> {
    "ht_capab=[HT40+][SHORT-GI-40]\n"@
}

/// The two access point configurations are the same but for the channel
/// width.
pub open spec fn same_but_width(a: AccessPointConfig, b: AccessPointConfig) -> bool {
    &&& a.interface == b.interface
    &&& a.ssid == b.ssid
    &&& a.password == b.password
    &&& a.channel == b.channel
    &&& a.band == b.band
    &&& a.country_code == b.country_code
    &&& a.hidden == b.hidden
    &&& a.max_clients == b.max_clients
    &&& a.ap_isolate == b.ap_isolate
    &&& a.wmm_enabled == b.wmm_enabled
    &&& a.ieee80211n == b.ieee80211n
    &&& a.ieee80211ac == b.ieee80211ac
    &&& a.ieee80211ax == b.ieee80211ax
    &&& a.tx_power == b.tx_power
}

/// The result of `generate_config` for a configuration.
pub open spec fn hostapd_result(c: AccessPointConfig, r: NetctlResult<String>) -> bool {
    &&& password_too_short(c.password) ==> (r matches Err(NetctlError::InvalidParameter(m)) && m@
        == "Password must be at least 8 characters"@)
    &&& !password_too_short(c.password) ==> (r matches Ok(t) && t@ == hostapd_conf(c))
}

/// An 802.11n access point on a channel 40 MHz wide or wider is configured
/// with the 40 MHz HT capabilities: its configuration holds the line
/// `ht_capab=[HT40+][SHORT-GI-40]`.
pub proof fn lemma_ht40_for_wide_channels(c: AccessPointConfig, r: NetctlResult<String>)
    requires
        hostapd_result(c, r),
        c.ieee80211n,
        c.channel_width >= 40,
    ensures
        r matches Ok(t) ==> has_sub(t@, ht40_line()),
{
    if !password_too_short(c.password) {
        let ht = ht40_line();
        let nline = "ieee80211n=1\n"@;
        let w = when(c.wmm_enabled, "wmm_enabled=1\n"@);
        let rest = features_rest(c);
        assert(ht_text(c) == nline + ht);
        let p = radio_text(c) + security_text(c.password) + w + nline;
        let t = hostapd_conf(c);
        assert(t == radio_text(c) + security_text(c.password) + (w + (nline + ht) + rest));
        assert(t =~= p + ht + rest);
        assert(t.subrange(p.len() as int, (p.len() + ht.len()) as int) =~= ht);
        assert(occurs_at(t, ht, p.len() as int));
    }
}

/// The lines before the 802.11n ones: radio, security and WMM.
pub open spec fn head_text(c: AccessPointConfig) -> Seq<char> {
    radio_text(c) + security_text(c.password) + when(c.wmm_enabled, "wmm_enabled=1\n"@)
}

proof fn lemma_conf_parts(c: AccessPointConfig)
    ensures
        hostapd_conf(c) == head_text(c) + ht_text(c) + features_rest(c),
{
    assert(hostapd_conf(c) =~= head_text(c) + ht_text(c) + features_rest(c));
}

proof fn lemma_same_head(a: AccessPointConfig, b: AccessPointConfig)
    requires
        same_but_width(a, b),
    ensures
        head_text(a) == head_text(b),
        features_rest(a) == features_rest(b),
        !a.ieee80211n ==> ht_text(a) == ht_text(b),
        (a.channel_width >= 40) == (b.channel_width >= 40) ==> ht_text(a) == ht_text(b),
        a.ieee80211n && a.channel_width >= 40 ==> ht_text(a) == "ieee80211n=1\n"@ + ht40_line(),
        a.ieee80211n && b.channel_width < 40 ==> ht_text(b) == "ieee80211n=1\n"@,
{
    assert(radio_text(a) == radio_text(b));
    assert("ieee80211n=1\n"@ + Seq::<char>::empty() =~= "ieee80211n=1\n"@);
}

/// How the channel width changes the configuration, between two requests
/// that differ in nothing else: both are accepted or refused alike; the
/// width matters only to an 802.11n access point, and only by whether it
/// is 40 MHz or more; going from below 40 MHz to 40 MHz or more adds
/// exactly the 40 MHz capability line.
pub proof fn lemma_width_adds_only_ht40(
    a: AccessPointConfig,
    b: AccessPointConfig,
    ra: NetctlResult<String>,
    rb: NetctlResult<String>,
)
    requires
        same_but_width(a, b),
        hostapd_result(a, ra),
        hostapd_result(b, rb),
    ensures
        ra is Ok <==> rb is Ok,
        ra matches Ok(ta) ==> rb matches Ok(tb) && {
            &&& !a.ieee80211n ==> ta@ == tb@
            &&& (a.channel_width >= 40) == (b.channel_width >= 40) ==> ta@ == tb@
            &&& a.ieee80211n && a.channel_width >= 40 && b.channel_width < 40 ==> ta@.len() == tb@.len()
                + ht40_line().len() && has_sub(ta@, ht40_line())
        },
{
    lemma_conf_parts(a);
    lemma_conf_parts(b);
    lemma_same_head(a, b);
    if a.ieee80211n && a.channel_width >= 40 && b.channel_width < 40 {
        lemma_ht40_for_wide_channels(a, ra);
    }
}

} // verus!
