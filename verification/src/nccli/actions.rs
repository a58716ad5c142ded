//! What the commands of the command-line tool compute before and after
//! their I/O: connection files, WiFi listings, access point addresses, VPN
//! lookups and the argument lists of the programs they run.

use vstd::prelude::*;
use crate::error::{NetctlError, NetctlResult};
use crate::paths::{joined, join_path};
use crate::text::{
    eq_str, has_prefix, has_suffix, starts_with, ends_with, split_char, split_seq, has_sub,
    contains_str, parsed_unsigned, parse_unsigned, parsed_i32, parse_i32, decimal_string, decimal,
};
use crate::nccli::checks::{
    validate_connection_name, validate_ssid, validate_wifi_password, connection_name_error,
    ssid_error, wifi_password_error,
};

verus! {

/// Directory of the connection files.
pub const CONNECTION_CONFIG_DIR: &'static str = "/etc/crrouter/netctl";

/// The device type shown for an interface, from its name.
pub open spec fn device_type_of(iface: Seq<char>) -> Seq<char> {
    if has_prefix(iface, "wlan"@) || has_prefix(iface, "wlp"@) {
        "wifi"@
    } else if has_prefix(iface, "eth"@) || has_prefix(iface, "enp"@) || has_prefix(iface, "eno"@) {
        "ethernet"@
    } else if iface == "lo"@ {
        "loopback"@
    } else if has_prefix(iface, "br"@) {
        "bridge"@
    } else if has_prefix(iface, "tun"@) || has_prefix(iface, "tap"@) {
        "tun"@
    } else if has_prefix(iface, "vlan"@) {
        "vlan"@
    } else if has_prefix(iface, "wg"@) {
        "wireguard"@
    } else if has_prefix(iface, "docker"@) || has_prefix(iface, "veth"@) {
        "veth"@
    } else {
        "generic"@
    }
}

/// Determine device type from interface name
pub fn get_device_type(iface: &str) -> (r: &'static str)
    ensures
        r@ == device_type_of(iface@),
{
    if starts_with(iface, "wlan") || starts_with(iface, "wlp") {
        "wifi"
    } else if starts_with(iface, "eth") || starts_with(iface, "enp") || starts_with(iface, "eno") {
        "ethernet"
    } else if eq_str(iface, "lo") {
        "loopback"
    } else if starts_with(iface, "br") {
        "bridge"
    } else if starts_with(iface, "tun") || starts_with(iface, "tap") {
        "tun"
    } else if starts_with(iface, "vlan") {
        "vlan"
    } else if starts_with(iface, "wg") {
        "wireguard"
    } else if starts_with(iface, "docker") || starts_with(iface, "veth") {
        "veth"
    } else {
        "generic"
    }
}

/// A WiFi interface, by its name.
pub open spec fn is_wifi_name(iface: Seq<char>) -> bool {
    has_prefix(iface, "wlan"@) || has_prefix(iface, "wlp"@)
}

/// Whether an interface is a WiFi interface (its name starts with `wlan`
/// or `wlp`).
pub fn is_wifi_interface(iface: &str) -> (r: bool)
    ensures
        r == is_wifi_name(iface@),
{
    starts_with(iface, "wlan") || starts_with(iface, "wlp")
}

/// The first WiFi interface of a list.
pub fn find_wifi_interface(interfaces: &Vec<String>) -> (r: NetctlResult<String>)
    ensures
        match r {
            Ok(name) => exists|i: int|
                0 <= i < interfaces@.len() && interfaces@[i]@ == name@ && is_wifi_name(name@)
                    && forall|j: int| 0 <= j < i ==> !is_wifi_name(#[trigger] interfaces@[j]@),
            Err(e) => (e matches NetctlError::NotFound(m) && m@ == "No WiFi interface found"@)
                && forall|j: int| 0 <= j < interfaces@.len() ==> !is_wifi_name(#[trigger] interfaces@[j]@),
        },
{
    let mut i: usize = 0;
    while i < interfaces.len()
        invariant
            i <= interfaces@.len(),
            forall|j: int| 0 <= j < i ==> !is_wifi_name(#[trigger] interfaces@[j]@),
        decreases interfaces@.len() - i,
    {
        if is_wifi_interface(interfaces[i].as_str()) {
            return Ok(interfaces[i].clone());
        }
        i += 1;
    }
    Err(NetctlError::NotFound("No WiFi interface found".to_string()))
}

/// The path of a connection file: `<name>.nctl` joined to the directory
/// as `Path::join` does.
pub open spec fn connection_path(name: Seq<char>) -> Seq<char> {
    joined(CONNECTION_CONFIG_DIR@, name + ".nctl"@)
}

/// The path of the file of a connection.
pub fn connection_config_path(name: &str) -> (r: String)
    ensures
        r@ == connection_path(name@),
{
    let mut file = name.to_string();
    file.append(".nctl");
    join_path(CONNECTION_CONFIG_DIR, file.as_str())
}

/// `s` without every trailing occurrence of `p` (`str::trim_end_matches`).
pub open spec fn trim_suffix_all(s: Seq<char>, p: Seq<char>) -> Seq<char>
    decreases s.len(),
{
    if p.len() > 0 && has_suffix(s, p) {
        trim_suffix_all(s.subrange(0, s.len() - p.len()), p)
    } else {
        s
    }
}

/// The connection name of a file of the connection directory: the file
/// name without its `.nctl` suffixes; `None` for other files.
pub fn connection_name_of_file(filename: &str) -> (r: Option<String>)
    ensures
        has_suffix(filename@, ".nctl"@) ==> (r matches Some(n) && n@ == trim_suffix_all(
            filename@,
            ".nctl"@,
        )),
        !has_suffix(filename@, ".nctl"@) ==> r is None,
{
    if !ends_with(filename, ".nctl") {
        return None;
    }
    let mut end: usize = filename.unicode_len();
    proof {
        reveal_strlit(".nctl");
        assert(filename@.subrange(0, end as int) =~= filename@);
    }
    while end >= 5 && ends_with(filename.substring_char(0, end), ".nctl")
        invariant
            end <= filename@.len(),
            ".nctl"@.len() == 5,
            trim_suffix_all(filename@.subrange(0, end as int), ".nctl"@) == trim_suffix_all(filename@, ".nctl"@),
        decreases end,
    {
        let ghost cur = filename@.subrange(0, end as int);
        assert(cur.subrange(0, cur.len() - 5) =~= filename@.subrange(0, end - 5));
        end = end - 5;
    }
    proof {
        let cur = filename@.subrange(0, end as int);
        if end < 5 {
            assert(!has_suffix(cur, ".nctl"@));
        }
    }
    Some(filename.substring_char(0, end).to_string())
}

/// The name of a new connection: `--con-name`, else the interface name.
pub fn connection_add_name(con_name: Option<&str>, ifname: Option<&str>) -> (r: NetctlResult<String>)
    ensures
        match con_name {
            Some(n) => match connection_name_error(n@) {
                None => r matches Ok(s) && s@ == n@,
                Some(msg) => r matches Err(NetctlError::InvalidParameter(m)) && m@ == msg,
            },
            None => match ifname {
                Some(n) => match connection_name_error(n@) {
                    None => r matches Ok(s) && s@ == n@,
                    Some(msg) => r matches Err(NetctlError::InvalidParameter(m)) && m@ == msg,
                },
                None => r matches Err(NetctlError::InvalidParameter(m)) && m@
                    == "Connection name or interface required"@,
            },
        },
{
    let name = match con_name {
        Some(n) => n,
        None => match ifname {
            Some(n) => n,
            None => {
                return Err(
                    NetctlError::InvalidParameter(
                        "Connection name or interface required".to_string(),
                    ),
                );
            },
        },
    };
    match validate_connection_name(name) {
        Ok(()) => Ok(name.to_string()),
        Err(e) => Err(e),
    }
}

/// `key = "value"` and a newline.
pub open spec fn quoted_line(key: Seq<char>, v: Seq<char>) -> Seq<char> {
    key + " = \""@ + v + "\"\n"@
}

/// The `[connection]` section of a new connection file and its closing
/// blank line.
pub open spec fn connection_section_text(
    con_type: Seq<char>,
    name: Seq<char>,
    ifname: Option<Seq<char>>,
    autoconnect: Option<Seq<char>>,
) -> Seq<char> {
    "[connection]\n"@ + quoted_line("name"@, name) + quoted_line("type"@, con_type) + (match ifname {
        Some(i) => quoted_line("interface-name"@, i),
        None => Seq::<char>::empty(),
    }) + (match autoconnect {
        Some(a) => "autoconnect = "@ + (if a == "yes"@ {
            "true"@
        } else {
            "false"@
        }) + "\n"@,
        None => Seq::<char>::empty(),
    }) + "\n"@
}

/// The `[wifi]` and `[wifi-security]` sections of a WiFi connection.
pub open spec fn wifi_sections_text(ssid: Option<Seq<char>>, password: Option<Seq<char>>) -> Seq<
    char,
> {
    "[wifi]\n"@ + (match ssid {
        Some(s) => quoted_line("ssid"@, s),
        None => Seq::<char>::empty(),
    }) + "mode = \"infrastructure\"\n\n"@ + (match password {
        Some(p) => "[wifi-security]\n"@ + "key-mgmt = \"wpa-psk\"\n"@ + "psk = \""@ + p + "\"\n\n"@,
        None => Seq::<char>::empty(),
    })
}

/// The `[ipv4]` section: automatic, or a manual address with an optional
/// gateway.
pub open spec fn ipv4_section_text(ip4: Option<Seq<char>>, gw4: Option<Seq<char>>) -> Seq<char> {
    match ip4 {
        Some(ip) => "[ipv4]\n"@ + (if ip == "auto"@ {
            "method = \"auto\"\n"@
        } else {
            "method = \"manual\"\n"@ + quoted_line("address"@, ip) + (match gw4 {
                Some(g) => quoted_line("gateway"@, g),
                None => Seq::<char>::empty(),
            })
        }) + "\n"@,
        None => Seq::<char>::empty(),
    }
}

pub open spec fn opt_view(o: Option<&str>) -> Option<Seq<char>> {
    match o {
        Some(s) => Some(s@),
        None => None,
    }
}

/// The text of a new connection file; WiFi connections check the SSID
/// and the password first.
pub open spec fn connection_file_result(
    con_type: Seq<char>,
    name: Seq<char>,
    ifname: Option<Seq<char>>,
    autoconnect: Option<Seq<char>>,
    ssid: Option<Seq<char>>,
    password: Option<Seq<char>>,
    ip4: Option<Seq<char>>,
    gw4: Option<Seq<char>>,
    r: NetctlResult<String>,
) -> bool {
    let wifi = con_type == "wifi"@;
    let ssid_err = match ssid {
        Some(s) => ssid_error(s),
        None => None,
    };
    let pwd_err = match password {
        Some(p) => wifi_password_error(p),
        None => None,
    };
    if wifi && ssid_err is Some {
        r matches Err(NetctlError::InvalidParameter(m)) && m@ == ssid_err->0
    } else if wifi && pwd_err is Some {
        r matches Err(NetctlError::InvalidParameter(m)) && m@ == pwd_err->0
    } else {
        r matches Ok(t) && t@ == connection_section_text(con_type, name, ifname, autoconnect) + (if wifi {
            wifi_sections_text(ssid, password)
        } else {
            Seq::<char>::empty()
        }) + ipv4_section_text(ip4, gw4)
    }
}

fn push_quoted(t: &mut String, key: &str, v: &str)
    ensures
        final(t)@ == old(t)@ + quoted_line(key@, v@),
{
    t.append(key);
    t.append(" = \"");
    t.append(v);
    t.append("\"\n");
}

fn connection_section(con_type: &str, name: &str, ifname: Option<&str>, autoconnect: Option<&str>) -> (t: String)
    ensures
        t@ == connection_section_text(con_type@, name@, opt_view(ifname), opt_view(autoconnect)),
{
    let mut t = "[connection]\n".to_string();
    push_quoted(&mut t, "name", name);
    push_quoted(&mut t, "type", con_type);
    match ifname {
        Some(i) => push_quoted(&mut t, "interface-name", i),
        None => {},
    }
    match autoconnect {
        Some(a) => {
            t.append("autoconnect = ");
            if eq_str(a, "yes") {
                t.append("true");
            } else {
                t.append("false");
            }
            t.append("\n");
        },
        None => {},
    }
    t.append("\n");
    assert(t@ =~= connection_section_text(con_type@, name@, opt_view(ifname), opt_view(autoconnect)));
    t
}

fn wifi_sections(ssid: Option<&str>, password: Option<&str>) -> (r: NetctlResult<String>)
    ensures
        ({
            let ssid_err = match opt_view(ssid) {
                Some(s) => ssid_error(s),
                None => None,
            };
            let pwd_err = match opt_view(password) {
                Some(p) => wifi_password_error(p),
                None => None,
            };
            if ssid_err is Some {
                r matches Err(NetctlError::InvalidParameter(m)) && m@ == ssid_err->0
            } else if pwd_err is Some {
                r matches Err(NetctlError::InvalidParameter(m)) && m@ == pwd_err->0
            } else {
                r matches Ok(t) && t@ == wifi_sections_text(opt_view(ssid), opt_view(password))
            }
        }),
{
    let mut t = "[wifi]\n".to_string();
    match ssid {
        Some(s) => {
            match validate_ssid(s) {
                Err(e) => {
                    return Err(e);
                },
                Ok(()) => {},
            }
            push_quoted(&mut t, "ssid", s);
        },
        None => {},
    }
    t.append("mode = \"infrastructure\"\n\n");
    match password {
        Some(p) => {
            match validate_wifi_password(p) {
                Err(e) => {
                    return Err(e);
                },
                Ok(()) => {},
            }
            t.append("[wifi-security]\n");
            t.append("key-mgmt = \"wpa-psk\"\n");
            t.append("psk = \"");
            t.append(p);
            t.append("\"\n\n");
        },
        None => {},
    }
    assert(t@ =~= wifi_sections_text(opt_view(ssid), opt_view(password)));
    Ok(t)
}

fn ipv4_section(ip4: Option<&str>, gw4: Option<&str>) -> (t: String)
    ensures
        t@ == ipv4_section_text(opt_view(ip4), opt_view(gw4)),
{
    let mut t = String::new();
    match ip4 {
        Some(ip) => {
            t.append("[ipv4]\n");
            if eq_str(ip, "auto") {
                t.append("method = \"auto\"\n");
            } else {
                t.append("method = \"manual\"\n");
                push_quoted(&mut t, "address", ip);
                match gw4 {
                    Some(g) => push_quoted(&mut t, "gateway", g),
                    None => {},
                }
            }
            t.append("\n");
        },
        None => {},
    }
    assert(t@ =~= ipv4_section_text(opt_view(ip4), opt_view(gw4)));
    t
}

/// The text of a new connection file (`connection add`).
pub fn connection_add_config(
    con_type: &str,
    name: &str,
    ifname: Option<&str>,
    autoconnect: Option<&str>,
    ssid: Option<&str>,
    password: Option<&str>,
    ip4: Option<&str>,
    gw4: Option<&str>,
) -> (r: NetctlResult<String>)
    ensures
        connection_file_result(
            con_type@,
            name@,
            opt_view(ifname),
            opt_view(autoconnect),
            opt_view(ssid),
            opt_view(password),
            opt_view(ip4),
            opt_view(gw4),
            r,
        ),
{
    let mut t = connection_section(con_type, name, ifname, autoconnect);
    if eq_str(con_type, "wifi") {
        match wifi_sections(ssid, password) {
            Err(e) => {
                return Err(e);
            },
            Ok(w) => {
                t.append(w.as_str());
            },
        }
    }
    let ip = ipv4_section(ip4, gw4);
    t.append(ip.as_str());
    Ok(t)
}

/// The WiFi channel of a frequency in MHz (0 when unknown).
pub open spec fn channel_of(freq: u32) -> u32 {
    if freq > 5000 {
        ((freq - 5000) / 5) as u32
    } else if freq > 2400 {
        ((freq - 2407) / 5) as u32
    } else {
        0
    }
}

/// The WiFi channel of a frequency in MHz (0 when unknown).
pub fn wifi_channel(freq: u32) -> (c: u32)
    requires
        freq <= 2400 || freq >= 2407,
    ensures
        c == channel_of(freq),
{
    if freq > 5000 {
        (freq - 5000) / 5
    } else if freq > 2400 {
        (freq - 2407) / 5
    } else {
        0
    }
}

/// The signal bars shown for a signal strength in dBm.
pub open spec fn bars_of(signal: i32) -> Seq<char> {
    if signal > -50 {
        "▂▄▆█"@
    } else if signal > -60 {
        "▂▄▆_"@
    } else if signal > -70 {
        "▂▄__"@
    } else if signal > -80 {
        "▂___"@
    } else {
        "____"@
    }
}

/// The signal bars shown for a signal strength in dBm.
pub fn signal_bars(signal: i32) -> (r: &'static str)
    ensures
        r@ == bars_of(signal),
{
    if signal > -50 {
        "▂▄▆█"
    } else if signal > -60 {
        "▂▄▆_"
    } else if signal > -70 {
        "▂▄__"
    } else if signal > -80 {
        "▂___"
    } else {
        "____"
    }
}

/// The strength of a scan result's signal text (such as `-52 dBm`): the
/// number before the ` dBm` suffixes, or -100 when there is none.
pub open spec fn signal_dbm_of(s: Seq<char>) -> int {
    match parsed_i32(trim_suffix_all(s, " dBm"@)) {
        Some(v) => v,
        None => -100,
    }
}

/// The strength of a scan result's signal text.
pub fn scan_signal_dbm(signal: &str) -> (r: i32)
    ensures
        r == signal_dbm_of(signal@),
{
    let mut end: usize = signal.unicode_len();
    proof {
        reveal_strlit(" dBm");
        assert(signal@.subrange(0, end as int) =~= signal@);
    }
    while end >= 4 && ends_with(signal.substring_char(0, end), " dBm")
        invariant
            end <= signal@.len(),
            " dBm"@.len() == 4,
            trim_suffix_all(signal@.subrange(0, end as int), " dBm"@) == trim_suffix_all(signal@, " dBm"@),
        decreases end,
    {
        let ghost cur = signal@.subrange(0, end as int);
        assert(cur.subrange(0, cur.len() - 4) =~= signal@.subrange(0, end - 4));
        end = end - 4;
    }
    proof {
        let cur = signal@.subrange(0, end as int);
        if end < 4 {
            assert(!has_suffix(cur, " dBm"@));
        }
    }
    match parse_i32(signal.substring_char(0, end)) {
        Some(v) => v,
        None => -100,
    }
}

/// The SSID of a hotspot: the one given, else `Hotspot-<interface>`.
pub fn hotspot_ssid(ssid: Option<&str>, interface: &str) -> (r: String)
    ensures
        r@ == match ssid {
            Some(s) => s@,
            None => "Hotspot-"@ + interface@,
        },
{
    match ssid {
        Some(s) => s.to_string(),
        None => {
            let mut r = "Hotspot-".to_string();
            r.append(interface);
            r
        },
    }
}

/// The address and prefix length of an access point's `address/prefix`.
pub open spec fn ap_address_result(ip: Seq<char>, r: NetctlResult<(String, u8)>) -> bool {
    let parts = split_seq(ip, '/');
    if parts.len() != 2 {
        r matches Err(NetctlError::InvalidParameter(m)) && m@
            == "IP must be in format: address/prefix (e.g., 10.255.24.1/24)"@
    } else {
        match parsed_unsigned(parts[1], 255) {
            Some(p) => r matches Ok((a, q)) && a@ == parts[0] && q == p,
            None => r matches Err(NetctlError::InvalidParameter(m)) && m@ == "Invalid prefix length"@,
        }
    }
}

/// Splits an access point's `address/prefix` into the address and the
/// prefix length.
pub fn parse_ap_address(ip: &str) -> (r: NetctlResult<(String, u8)>)
    ensures
        ap_address_result(ip@, r),
{
    let parts = split_char(ip, '/');
    if parts.len() != 2 {
        return Err(
            NetctlError::InvalidParameter(
                "IP must be in format: address/prefix (e.g., 10.255.24.1/24)".to_string(),
            ),
        );
    }
    assert(parts@[1]@ == split_seq(ip@, '/')[1]);
    assert(parts@[0]@ == split_seq(ip@, '/')[0]);
    match parse_unsigned(parts[1].as_str(), 255) {
        Some(p) => Ok((parts[0].clone(), p as u8)),
        None => Err(NetctlError::InvalidParameter("Invalid prefix length".to_string())),
    }
}

/// The identifier of the first VPN connection with the given name, from
/// `(uuid, name)` pairs.
pub fn find_vpn_by_name(connections: &Vec<(String, String)>, name: &str) -> (r: Option<String>)
    ensures
        match r {
            Some(u) => exists|i: int|
                0 <= i < connections@.len() && connections@[i].1@ == name@ && connections@[i].0@
                    == u@ && forall|j: int| 0 <= j < i ==> #[trigger] connections@[j].1@ != name@,
            None => forall|j: int| 0 <= j < connections@.len() ==> #[trigger] connections@[j].1@ != name@,
        },
{
    let mut i: usize = 0;
    while i < connections.len()
        invariant
            i <= connections@.len(),
            forall|j: int| 0 <= j < i ==> #[trigger] connections@[j].1@ != name@,
        decreases connections@.len() - i,
    {
        if eq_str(connections[i].1.as_str(), name) {
            return Some(connections[i].0.clone());
        }
        i += 1;
    }
    None
}

/// The error of a VPN command naming an unknown connection.
pub fn vpn_not_found(name: &str) -> (e: NetctlError)
    ensures
        e matches NetctlError::NotFound(m) && m@ == "VPN connection '"@ + name@ + "' not found"@,
{
    let mut m = "VPN connection '".to_string();
    m.append(name);
    m.append("' not found");
    NetctlError::NotFound(m)
}

/// A setting whose value is a secret: its key mentions a key, a password
/// or a pre-shared key.
pub open spec fn is_secret_key(key: Seq<char>) -> bool {
    has_sub(key, "key"@) || has_sub(key, "password"@) || has_sub(key, "psk"@)
}

/// The value shown for a setting: secrets are masked.
pub fn display_setting_value(key: &str, value: &str) -> (r: String)
    ensures
        r@ == if is_secret_key(key@) {
            "********"@
        } else {
            value@
        },
{
    if contains_str(key, "key") || contains_str(key, "password") || contains_str(key, "psk") {
        "********".to_string()
    } else {
        value.to_string()
    }
}

/// The arguments of a packet capture: `-i <interface>`, then the filter,
/// then `-w <output>`.
pub fn tcpdump_args(interface: &str, filter: Option<&str>, output: Option<&str>) -> (args: Vec<String>)
    ensures
        args@.map_values(|a: String| a@) == seq!["-i"@, interface@] + (match filter {
            Some(f) => seq![f@],
            None => Seq::<Seq<char>>::empty(),
        }) + (match output {
            Some(o) => seq!["-w"@, o@],
            None => Seq::<Seq<char>>::empty(),
        }),
{
    let mut args: Vec<String> = Vec::new();
    args.push("-i".to_string());
    args.push(interface.to_string());
    match filter {
        Some(f) => args.push(f.to_string()),
        None => {},
    }
    match output {
        Some(o) => {
            args.push("-w".to_string());
            args.push(o.to_string());
        },
        None => {},
    }
    assert(args@.map_values(|a: String| a@) =~= seq!["-i"@, interface@] + (match filter {
        Some(f) => seq![f@],
        None => Seq::<Seq<char>>::empty(),
    }) + (match output {
        Some(o) => seq!["-w"@, o@],
        None => Seq::<Seq<char>>::empty(),
    }));
    args
}

/// The arguments of a ping: `-c <count> <host>`.
pub fn ping_args(host: &str, count: u32) -> (args: Vec<String>)
    ensures
        args@.len() == 3,
        args@[0]@ == "-c"@,
        args@[1]@ == decimal(count as nat),
        args@[2]@ == host@,
{
    let mut args: Vec<String> = Vec::new();
    args.push("-c".to_string());
    args.push(decimal_string(count as u64));
    args.push(host.to_string());
    args
}

/// A radio switch state: `on` or `off`.
pub fn parse_radio_state(state: &str) -> (r: NetctlResult<bool>)
    ensures
        state@ == "on"@ ==> r == Ok::<bool, NetctlError>(true),
        state@ == "off"@ ==> r == Ok::<bool, NetctlError>(false),
        state@ != "on"@ && state@ != "off"@ ==> (r matches Err(NetctlError::InvalidParameter(m))
            && m@ == "State must be 'on' or 'off'"@),
{
    proof {
        reveal_strlit("on");
        reveal_strlit("off");
        assert("on"@.len() != "off"@.len());
    }
    if eq_str(state, "on") {
        Ok(true)
    } else if eq_str(state, "off") {
        Ok(false)
    } else {
        Err(NetctlError::InvalidParameter("State must be 'on' or 'off'".to_string()))
    }
}

/// The NetworkManager object path of the device registered at `index`.
pub fn nm_device_path(index: u64) -> (r: String)
    ensures
        r@ == "/org/freedesktop/NetworkManager/Devices/"@ + decimal(index as nat),
{
    let mut p = "/org/freedesktop/NetworkManager/Devices/".to_string();
    crate::text::push_decimal(&mut p, index);
    p
}

} // verus!
