//! NetworkManager keyfile conversion
//!
//! Reads the text of a `.nmconnection` keyfile into its sections and turns
//! them into a netctl connection configuration.  Reading and writing the
//! files is left to the caller.

use vstd::prelude::*;
use vstd::string::*;
use crate::strmap::StrMap;
use crate::text::{
    eq_str, split_char, split_seq, trim, trim_seq, parse_unsigned, parsed_unsigned,
};
use crate::connection_config::{
    NetctlConnectionConfig, ConnectionSection, WifiSection, WifiSecuritySection, VpnSection,
    EthernetSection, IpConfigSection,
};

verus! {

/// A keyfile section: key to value.
pub type SectionView = Map<Seq<char>, Seq<char>>;

/// A keyfile: section name to section.
pub type KeyfileView = Map<Seq<char>, SectionView>;

pub open spec fn section_view(s: Map<Seq<char>, String>) -> SectionView {
    Map::new(|k: Seq<char>| s.contains_key(k), |k: Seq<char>| s[k]@)
}

pub open spec fn keyfile_view(m: Map<Seq<char>, StrMap<String>>) -> KeyfileView {
    Map::new(|k: Seq<char>| m.contains_key(k), |k: Seq<char>| section_view(m[k]@))
}

/// The first position of `c` in `s`, if any.
pub open spec fn first_index_of(s: Seq<char>, c: char) -> Option<int>
    decreases s.len(),
{
    if s.len() == 0 {
        None
    } else if s[0] == c {
        Some(0)
    } else {
        match first_index_of(s.drop_first(), c) {
            Some(i) => Some(i + 1),
            None => None,
        }
    }
}

proof fn lemma_first_index(s: Seq<char>, c: char, i: int)
    requires
        0 <= i <= s.len(),
        forall|j: int| 0 <= j < i ==> s[j] != c,
    ensures
        i < s.len() && s[i] == c ==> first_index_of(s, c) == Some(i),
        i == s.len() ==> first_index_of(s, c) is None,
    decreases s.len(),
{
    if s.len() > 0 && i > 0 {
        lemma_first_index(s.drop_first(), c, i - 1);
    }
}

/// The keyfile state while reading: the sections so far and the current
/// section name.
pub type ReadState = (KeyfileView, Seq<char>);

/// One line of a keyfile, trimmed: blank lines and comments (`#`, `;`) are
/// skipped; `[name]` starts a section (an empty one, replacing a section of
/// the same name); `key=value` sets a key of the current section (both
/// trimmed) when there is one.
pub open spec fn read_line(st: ReadState, raw: Seq<char>) -> ReadState {
    let line = trim_seq(raw);
    let (sections, current) = st;
    if line.len() == 0 || line[0] == '#' || line[0] == ';' {
        st
    } else if line[0] == '[' && line.last() == ']' {
        let name = line.subrange(1, line.len() - 1);
        (sections.insert(name, Map::empty()), name)
    } else {
        match first_index_of(line, '=') {
            Some(pos) => {
                let key = trim_seq(line.subrange(0, pos));
                let value = trim_seq(line.subrange(pos + 1, line.len() as int));
                if current.len() > 0 && sections.contains_key(current) {
                    (sections.insert(current, sections[current].insert(key, value)), current)
                } else {
                    st
                }
            },
            None => st,
        }
    }
}

/// The lines read one after the other.
pub open spec fn read_lines(lines: Seq<Seq<char>>) -> ReadState
    decreases lines.len(),
{
    if lines.len() == 0 {
        (Map::empty(), Seq::empty())
    } else {
        read_line(read_lines(lines.drop_last()), lines.last())
    }
}

/// The sections of a keyfile's text.
pub open spec fn keyfile_sections(content: Seq<char>) -> KeyfileView {
    read_lines(split_seq(content, '\n')).0
}

fn first_eq(line: &str) -> (r: Option<usize>)
    ensures
        r is Some <==> first_index_of(line@, '=') is Some,
        r matches Some(k) ==> first_index_of(line@, '=') == Some(k as int) && k < line@.len(),
{
    let n: usize = line.unicode_len();
    let mut i: usize = 0;
    while i < n
        invariant
            n == line@.len(),
            i <= n,
            forall|j: int| 0 <= j < i ==> line@[j] != '=',
        decreases n - i,
    {
        if line.get_char(i) == '=' {
            proof {
                lemma_first_index(line@, '=', i as int);
            }
            return Some(i);
        }
        i += 1;
    }
    proof {
        lemma_first_index(line@, '=', i as int);
    }
    None
}

/// Reads the sections of a keyfile's text.
pub fn parse_nmconnection(content: &str) -> (r: StrMap<StrMap<String>>)
    ensures
        keyfile_view(r@) == keyfile_sections(content@),
{
    let lines = split_char(content, '\n');
    let ghost lv = split_seq(content@, '\n');
    let mut sections: StrMap<StrMap<String>> = StrMap::new();
    let mut current = String::new();
    let mut i: usize = 0;
    assert(keyfile_view(sections@) =~= Map::<Seq<char>, SectionView>::empty());
    while i < lines.len()
        invariant
            i <= lines@.len(),
            lines.deep_view() == lv,
            (keyfile_view(sections@), current@) == read_lines(lv.take(i as int)),
        decreases lines@.len() - i,
    {
        assert(lv.take(i + 1).drop_last() =~= lv.take(i as int));
        assert(lines@[i as int]@ == lv[i as int]);
        let ghost before = (keyfile_view(sections@), current@);
        let ghost expected = read_line(before, lv[i as int]);
        let line = trim(lines[i].as_str());
        let len: usize = line.unicode_len();
        if len == 0 || line.get_char(0) == '#' || line.get_char(0) == ';' {
        } else if line.get_char(0) == '[' && line.get_char(len - 1) == ']' {
            let name = line.as_str().substring_char(1, len - 1).to_string();
            let empty: StrMap<String> = StrMap::new();
            proof {
                assert(section_view(empty@) =~= Map::<Seq<char>, Seq<char>>::empty());
            }
            sections.insert(name.as_str(), empty);
            current = name;
            proof {
                assert(keyfile_view(sections@) =~= expected.0);
            }
        } else {
            match first_eq(line.as_str()) {
                Some(pos) => {
                    let key = trim(line.as_str().substring_char(0, pos));
                    let value = trim(line.as_str().substring_char(pos + 1, len));
                    if current.unicode_len() > 0 {
                        match sections.remove(current.as_str()) {
                            Some(mut section) => {
                                let ghost old_sec = section@;
                                section.insert(key.as_str(), value);
                                sections.insert(current.as_str(), section);
                                proof {
                                    assert(section_view(old_sec.insert(key@, value)) =~= section_view(
                                        old_sec,
                                    ).insert(key@, value@));
                                    assert(keyfile_view(sections@) =~= expected.0);
                                }
                            },
                            None => {
                                proof {
                                    assert(keyfile_view(sections@) =~= expected.0);
                                }
                            },
                        }
                    }
                },
                None => {},
            }
        }
        assert((keyfile_view(sections@), current@) == expected);
        i += 1;
    }
    assert(lv.take(lines@.len() as int) =~= lv);
    sections
}

/// A section of the keyfile, if it has one of that name.
pub open spec fn lookup(m: KeyfileView, name: Seq<char>) -> Option<SectionView> {
    if m.contains_key(name) {
        Some(m[name])
    } else {
        None
    }
}

/// A key of a section, if it is set.
pub open spec fn key_of(sec: SectionView, key: Seq<char>) -> Option<Seq<char>> {
    if sec.contains_key(key) {
        Some(sec[key])
    } else {
        None
    }
}

pub open spec fn or_else<T>(a: Option<T>, b: Option<T>) -> Option<T> {
    match a {
        Some(x) => Some(x),
        None => b,
    }
}

/// An optional text holds the optional value.
pub open spec fn same_opt(o: Option<String>, v: Option<Seq<char>>) -> bool {
    match v {
        Some(x) => o matches Some(s) && s@ == x,
        None => o is None,
    }
}

/// The number of an optional text, when it parses (up to `max`).
pub open spec fn opt_number(v: Option<Seq<char>>, max: nat) -> Option<nat> {
    match v {
        Some(t) => parsed_unsigned(t, max),
        None => None,
    }
}

fn get_section<'a>(m: &'a StrMap<StrMap<String>>, name: &str) -> (r: Option<&'a StrMap<String>>)
    ensures
        match r {
            Some(sec) => lookup(keyfile_view(m@), name@) == Some(section_view(sec@)),
            None => lookup(keyfile_view(m@), name@) is None,
        },
{
    m.get_ref(name)
}

fn get_key(sec: &StrMap<String>, key: &str) -> (r: Option<String>)
    ensures
        same_opt(r, key_of(section_view(sec@), key@)),
{
    match sec.get_ref(key) {
        Some(v) => Some(v.clone()),
        None => None,
    }
}

fn number_of(v: &Option<String>, max: u64) -> (r: Option<u64>)
    ensures
        match v {
            Some(t) => match parsed_unsigned(t@, max as nat) {
                Some(n) => r == Some(n as u64),
                None => r is None,
            },
            None => r is None,
        },
{
    match v {
        Some(t) => parse_unsigned(t.as_str(), max),
        None => None,
    }
}

/// The WiFi section: `wifi`, else `802-11-wireless`.
pub open spec fn wifi_source(m: KeyfileView) -> Option<SectionView> {
    or_else(lookup(m, "wifi"@), lookup(m, "802-11-wireless"@))
}

/// Why the WiFi settings cannot be read, if they cannot.
pub open spec fn wifi_error(m: KeyfileView) -> Option<Seq<char>> {
    match wifi_source(m) {
        None => Some("Missing wifi section"@),
        Some(sec) => if key_of(sec, "ssid"@) is None {
            Some("Missing SSID"@)
        } else {
            None
        },
    }
}

/// The WiFi settings read: SSID, mode (infrastructure when unset), BSSID,
/// and the channel when it is a number.
pub open spec fn wifi_fields(m: KeyfileView, w: WifiSection) -> bool {
    let sec = wifi_source(m)->0;
    &&& w.ssid@ == key_of(sec, "ssid"@)->0
    &&& w.mode@ == or_else(key_of(sec, "mode"@), Some("infrastructure"@))->0
    &&& same_opt(w.bssid, key_of(sec, "bssid"@))
    &&& w.channel == match opt_number(key_of(sec, "channel"@), 0xffff_ffff) {
        Some(n) => Some(n as u32),
        None => None::<u32>,
    }
}

/// Read the WiFi settings.
pub fn parse_wifi_section(m: &StrMap<StrMap<String>>) -> (r: Result<WifiSection, String>)
    ensures
        match wifi_error(keyfile_view(m@)) {
            Some(e) => r matches Err(x) && x@ == e,
            None => r matches Ok(w) && wifi_fields(keyfile_view(m@), w),
        },
{
    let sec = match get_section(m, "wifi") {
        Some(s) => s,
        None => match get_section(m, "802-11-wireless") {
            Some(s) => s,
            None => {
                return Err("Missing wifi section".to_string());
            },
        },
    };
    let ssid = match get_key(sec, "ssid") {
        Some(s) => s,
        None => {
            return Err("Missing SSID".to_string());
        },
    };
    let mode = match get_key(sec, "mode") {
        Some(m) => m,
        None => "infrastructure".to_string(),
    };
    let bssid = get_key(sec, "bssid");
    let channel = match number_of(&get_key(sec, "channel"), 0xffff_ffff) {
        Some(n) => Some(n as u32),
        None => None,
    };
    Ok(WifiSection { ssid, mode, bssid, channel })
}

/// The WiFi security section: `wifi-security`, else
/// `802-11-wireless-security`.
pub open spec fn security_source(m: KeyfileView) -> Option<SectionView> {
    or_else(lookup(m, "wifi-security"@), lookup(m, "802-11-wireless-security"@))
}

/// Why the WiFi security settings cannot be read, if they cannot.
pub open spec fn security_error(m: KeyfileView) -> Option<Seq<char>> {
    match security_source(m) {
        None => Some("Missing wifi-security section"@),
        Some(sec) => if key_of(sec, "key-mgmt"@) is None {
            Some("Missing key-mgmt"@)
        } else {
            None
        },
    }
}

/// The WiFi security settings read: key management, PSK and password.
pub open spec fn security_fields(m: KeyfileView, s: WifiSecuritySection) -> bool {
    let sec = security_source(m)->0;
    &&& s.key_mgmt@ == key_of(sec, "key-mgmt"@)->0
    &&& same_opt(s.psk, key_of(sec, "psk"@))
    &&& same_opt(s.password, key_of(sec, "password"@))
}

/// Read the WiFi security settings.
pub fn parse_wifi_security_section(m: &StrMap<StrMap<String>>) -> (r: Result<WifiSecuritySection, String>)
    ensures
        match security_error(keyfile_view(m@)) {
            Some(e) => r matches Err(x) && x@ == e,
            None => r matches Ok(s) && security_fields(keyfile_view(m@), s),
        },
{
    let sec = match get_section(m, "wifi-security") {
        Some(s) => s,
        None => match get_section(m, "802-11-wireless-security") {
            Some(s) => s,
            None => {
                return Err("Missing wifi-security section".to_string());
            },
        },
    };
    let key_mgmt = match get_key(sec, "key-mgmt") {
        Some(k) => k,
        None => {
            return Err("Missing key-mgmt".to_string());
        },
    };
    Ok(WifiSecuritySection { key_mgmt, psk: get_key(sec, "psk"), password: get_key(sec, "password") })
}

/// The VPN settings read: the legacy fields (the port when it is a
/// number, the file from `config`) and the connection type from
/// `connection-type`, else `dev`, else openvpn.
pub open spec fn vpn_fields(sec: SectionView, v: VpnSection) -> bool {
    &&& v.connection_type@ == or_else(
        or_else(key_of(sec, "connection-type"@), key_of(sec, "dev"@)),
        Some("openvpn"@),
    )->0
    &&& v.wireguard is None
    &&& v.openvpn is None
    &&& same_opt(v.remote, key_of(sec, "remote"@))
    &&& v.port == match opt_number(key_of(sec, "port"@), 0xffff) {
        Some(n) => Some(n as u16),
        None => None::<u16>,
    }
    &&& same_opt(v.proto, key_of(sec, "proto"@))
    &&& same_opt(v.ca, key_of(sec, "ca"@))
    &&& same_opt(v.cert, key_of(sec, "cert"@))
    &&& same_opt(v.key, key_of(sec, "key"@))
    &&& same_opt(v.config_file, key_of(sec, "config"@))
}

/// Read the VPN settings.
pub fn parse_vpn_section(m: &StrMap<StrMap<String>>) -> (r: Result<VpnSection, String>)
    ensures
        match lookup(keyfile_view(m@), "vpn"@) {
            None => r matches Err(x) && x@ == "Missing vpn section"@,
            Some(sec) => r matches Ok(v) && vpn_fields(sec, v),
        },
{
    let sec = match get_section(m, "vpn") {
        Some(s) => s,
        None => {
            return Err("Missing vpn section".to_string());
        },
    };
    let port = match number_of(&get_key(sec, "port"), 0xffff) {
        Some(n) => Some(n as u16),
        None => None,
    };
    let connection_type = match get_key(sec, "connection-type") {
        Some(t) => t,
        None => match get_key(sec, "dev") {
            Some(t) => t,
            None => "openvpn".to_string(),
        },
    };
    Ok(
        VpnSection {
            connection_type,
            wireguard: None,
            openvpn: None,
            remote: get_key(sec, "remote"),
            port,
            proto: get_key(sec, "proto"),
            ca: get_key(sec, "ca"),
            cert: get_key(sec, "cert"),
            key: get_key(sec, "key"),
            config_file: get_key(sec, "config"),
        },
    )
}

/// The Ethernet settings read from `ethernet` or `802-3-ethernet`, when
/// there is such a section: MAC address and MTU (when it is a number).
pub open spec fn ethernet_fields(m: KeyfileView, e: EthernetSection) -> bool {
    match or_else(lookup(m, "ethernet"@), lookup(m, "802-3-ethernet"@)) {
        Some(sec) => same_opt(e.mac_address, key_of(sec, "mac-address"@)) && e.mtu == match opt_number(
            key_of(sec, "mtu"@),
            0xffff_ffff,
        ) {
            Some(n) => Some(n as u32),
            None => None::<u32>,
        },
        None => e.mac_address is None && e.mtu is None,
    }
}

/// Read the Ethernet settings.
pub fn parse_ethernet_section(m: &StrMap<StrMap<String>>) -> (r: Result<EthernetSection, String>)
    ensures
        r matches Ok(e) && ethernet_fields(keyfile_view(m@), e),
{
    let sec = match get_section(m, "ethernet") {
        Some(s) => Some(s),
        None => get_section(m, "802-3-ethernet"),
    };
    match sec {
        Some(s) => {
            let mtu = match number_of(&get_key(s, "mtu"), 0xffff_ffff) {
                Some(n) => Some(n as u32),
                None => None,
            };
            Ok(EthernetSection { mac_address: get_key(s, "mac-address"), mtu })
        },
        None => Ok(EthernetSection { mac_address: None, mtu: None }),
    }
}

/// The non-empty pieces of `s` between semicolons.
pub open spec fn dns_list(pieces: Seq<Seq<char>>) -> Seq<Seq<char>>
    decreases pieces.len(),
{
    if pieces.len() == 0 {
        Seq::empty()
    } else {
        let rest = dns_list(pieces.drop_last());
        if pieces.last().len() > 0 {
            rest.push(pieces.last())
        } else {
            rest
        }
    }
}

/// The IP settings read from a section: method, the address of
/// `address1` (else `address`), the gateway after the first comma of the
/// address (else `gateway`), and the DNS servers of `dns`.
pub open spec fn ip_fields(sec: SectionView, ip: IpConfigSection) -> bool {
    let address = or_else(key_of(sec, "address1"@), key_of(sec, "address"@));
    &&& ip.method@ == key_of(sec, "method"@)->0
    &&& same_opt(ip.address, address)
    &&& same_opt(
        ip.gateway,
        match address {
            Some(a) => match first_index_of(a, ',') {
                Some(p) => Some(a.subrange(p + 1, a.len() as int)),
                None => key_of(sec, "gateway"@),
            },
            None => key_of(sec, "gateway"@),
        },
    )
    &&& match key_of(sec, "dns"@) {
        Some(d) => ip.dns matches Some(l) && l@.map_values(|x: String| x@) == dns_list(split_seq(d, ';')),
        None => ip.dns is None,
    }
    &&& ip.routes is None
}

fn dns_servers(d: &str) -> (r: Vec<String>)
    ensures
        r@.map_values(|x: String| x@) == dns_list(split_seq(d@, ';')),
{
    let parts = split_char(d, ';');
    let ghost pv = split_seq(d@, ';');
    let mut out: Vec<String> = Vec::new();
    let mut i: usize = 0;
    while i < parts.len()
        invariant
            i <= parts@.len(),
            parts.deep_view() == pv,
            out@.map_values(|x: String| x@) == dns_list(pv.take(i as int)),
        decreases parts@.len() - i,
    {
        assert(pv.take(i + 1).drop_last() =~= pv.take(i as int));
        assert(parts@[i as int]@ == pv[i as int]);
        if parts[i].as_str().unicode_len() > 0 {
            out.push(parts[i].clone());
        }
        assert(out@.map_values(|x: String| x@) =~= dns_list(pv.take(i + 1)));
        i += 1;
    }
    assert(pv.take(parts@.len() as int) =~= pv);
    out
}

fn first_comma(s: &str) -> (r: Option<usize>)
    ensures
        r is Some <==> first_index_of(s@, ',') is Some,
        r matches Some(k) ==> first_index_of(s@, ',') == Some(k as int) && k < s@.len(),
{
    let n: usize = s.unicode_len();
    let mut i: usize = 0;
    while i < n
        invariant
            n == s@.len(),
            i <= n,
            forall|j: int| 0 <= j < i ==> s@[j] != ',',
        decreases n - i,
    {
        if s.get_char(i) == ',' {
            proof {
                lemma_first_index(s@, ',', i as int);
            }
            return Some(i);
        }
        i += 1;
    }
    proof {
        lemma_first_index(s@, ',', i as int);
    }
    None
}

/// Read the IP settings of a section.
pub fn parse_ip_section(section: &StrMap<String>) -> (r: Result<IpConfigSection, String>)
    ensures
        match key_of(section_view(section@), "method"@) {
            None => r matches Err(x) && x@ == "Missing IP method"@,
            Some(_) => r matches Ok(ip) && ip_fields(section_view(section@), ip),
        },
{
    let method = match get_key(section, "method") {
        Some(m) => m,
        None => {
            return Err("Missing IP method".to_string());
        },
    };
    let address = match get_key(section, "address1") {
        Some(a) => Some(a),
        None => get_key(section, "address"),
    };
    let gateway = match &address {
        Some(a) => {
            let a_str = a.as_str();
            let n: usize = a_str.unicode_len();
            match first_comma(a_str) {
                Some(pos) => Some(a_str.substring_char(pos + 1, n).to_string()),
                None => get_key(section, "gateway"),
            }
        },
        None => get_key(section, "gateway"),
    };
    let dns = match get_key(section, "dns") {
        Some(d) => Some(dns_servers(d.as_str())),
        None => None,
    };
    Ok(IpConfigSection { method, address, gateway, dns, routes: None })
}

/// Why the `[connection]` section cannot be read, if it cannot.
pub open spec fn connection_error(m: KeyfileView) -> Option<Seq<char>> {
    match lookup(m, "connection"@) {
        None => Some("Missing [connection] section"@),
        Some(c) => if key_of(c, "type"@) is None {
            Some("Missing connection type"@)
        } else if key_of(c, "uuid"@) is None {
            Some("Missing UUID"@)
        } else if key_of(c, "id"@) is None {
            Some("Missing connection ID"@)
        } else {
            None
        },
    }
}

pub open spec fn conn_type_of(m: KeyfileView) -> Seq<char> {
    key_of(m["connection"@], "type"@)->0
}

pub open spec fn wants_wifi(t: Seq<char>) -> bool {
    t == "wifi"@ || t == "802-11-wireless"@
}

pub open spec fn wants_ethernet(t: Seq<char>) -> bool {
    t == "ethernet"@ || t == "802-3-ethernet"@
}

pub open spec fn has_security(m: KeyfileView) -> bool {
    m.contains_key("wifi-security"@) || m.contains_key("802-11-wireless-security"@)
}

pub open spec fn ip_error(m: KeyfileView, name: Seq<char>) -> Option<Seq<char>> {
    match lookup(m, name) {
        Some(sec) => if key_of(sec, "method"@) is None {
            Some("Missing IP method"@)
        } else {
            None
        },
        None => None,
    }
}

/// Why a keyfile cannot be converted, if it cannot: the connection
/// section first, then the WiFi section of a WiFi connection, the security
/// section when there is one, the VPN section of a VPN connection, and the
/// IPv4 and IPv6 sections.
pub open spec fn conversion_error(m: KeyfileView) -> Option<Seq<char>> {
    if connection_error(m) is Some {
        connection_error(m)
    } else if wants_wifi(conn_type_of(m)) && wifi_error(m) is Some {
        wifi_error(m)
    } else if has_security(m) && security_error(m) is Some {
        security_error(m)
    } else if conn_type_of(m) == "vpn"@ && lookup(m, "vpn"@) is None {
        Some("Missing vpn section"@)
    } else if ip_error(m, "ipv4"@) is Some {
        ip_error(m, "ipv4"@)
    } else {
        ip_error(m, "ipv6"@)
    }
}

/// The configuration converted from a keyfile.
pub open spec fn converted(m: KeyfileView, c: NetctlConnectionConfig) -> bool {
    let conn = m["connection"@];
    let t = conn_type_of(m);
    &&& c.connection.name@ == key_of(conn, "id"@)->0
    &&& c.connection.uuid@ == key_of(conn, "uuid"@)->0
    &&& c.connection.conn_type@ == t
    &&& c.connection.autoconnect == (key_of(conn, "autoconnect"@) == Some("true"@))
    &&& same_opt(c.connection.interface_name, key_of(conn, "interface-name"@))
    &&& c.connection.plugin is None
    &&& if wants_wifi(t) {
        c.wifi matches Some(w) && wifi_fields(m, w)
    } else {
        c.wifi is None
    }
    &&& if has_security(m) {
        c.wifi_security matches Some(s) && security_fields(m, s)
    } else {
        c.wifi_security is None
    }
    &&& if t == "vpn"@ {
        c.vpn matches Some(v) && vpn_fields(m["vpn"@], v)
    } else {
        c.vpn is None
    }
    &&& if wants_ethernet(t) {
        c.ethernet matches Some(e) && ethernet_fields(m, e)
    } else {
        c.ethernet is None
    }
    &&& match lookup(m, "ipv4"@) {
        Some(sec) => c.ipv4 matches Some(ip) && ip_fields(sec, ip),
        None => c.ipv4 is None,
    }
    &&& match lookup(m, "ipv6"@) {
        Some(sec) => c.ipv6 matches Some(ip) && ip_fields(sec, ip),
        None => c.ipv6 is None,
    }
}

fn optional_ip(m: &StrMap<StrMap<String>>, name: &str) -> (r: Result<Option<IpConfigSection>, String>)
    ensures
        match ip_error(keyfile_view(m@), name@) {
            Some(e) => r matches Err(x) && x@ == e,
            None => r matches Ok(o) && match lookup(keyfile_view(m@), name@) {
                Some(sec) => o matches Some(ip) && ip_fields(sec, ip),
                None => o is None,
            },
        },
{
    match get_section(m, name) {
        Some(sec) => match parse_ip_section(sec) {
            Ok(ip) => Ok(Some(ip)),
            Err(e) => Err(e),
        },
        None => Ok(None),
    }
}

/// Convert a keyfile's sections into a netctl connection configuration.
pub fn nm_to_netctl(m: &StrMap<StrMap<String>>) -> (r: Result<NetctlConnectionConfig, String>)
    ensures
        match conversion_error(keyfile_view(m@)) {
            Some(e) => r matches Err(x) && x@ == e,
            None => r matches Ok(c) && converted(keyfile_view(m@), c),
        },
{
    let conn = match get_section(m, "connection") {
        Some(c) => c,
        None => {
            return Err("Missing [connection] section".to_string());
        },
    };
    let conn_type = match get_key(conn, "type") {
        Some(t) => t,
        None => {
            return Err("Missing connection type".to_string());
        },
    };
    let uuid = match get_key(conn, "uuid") {
        Some(u) => u,
        None => {
            return Err("Missing UUID".to_string());
        },
    };
    let name = match get_key(conn, "id") {
        Some(n) => n,
        None => {
            return Err("Missing connection ID".to_string());
        },
    };
    let autoconnect = match get_key(conn, "autoconnect") {
        Some(v) => eq_str(v.as_str(), "true"),
        None => false,
    };
    let interface_name = get_key(conn, "interface-name");
    let connection = ConnectionSection {
        name,
        uuid,
        conn_type: conn_type.clone(),
        autoconnect,
        interface_name,
        plugin: None,
    };
    let t = conn_type.as_str();
    let wifi = if eq_str(t, "wifi") || eq_str(t, "802-11-wireless") {
        match parse_wifi_section(m) {
            Ok(w) => Some(w),
            Err(e) => {
                return Err(e);
            },
        }
    } else {
        None
    };
    let wifi_security = if m.contains_key("wifi-security") || m.contains_key(
        "802-11-wireless-security",
    ) {
        match parse_wifi_security_section(m) {
            Ok(s) => Some(s),
            Err(e) => {
                return Err(e);
            },
        }
    } else {
        None
    };
    let vpn = if eq_str(t, "vpn") {
        match parse_vpn_section(m) {
            Ok(v) => Some(v),
            Err(e) => {
                return Err(e);
            },
        }
    } else {
        None
    };
    let ethernet = if eq_str(t, "ethernet") || eq_str(t, "802-3-ethernet") {
        match parse_ethernet_section(m) {
            Ok(e) => Some(e),
            Err(e) => {
                return Err(e);
            },
        }
    } else {
        None
    };
    let ipv4 = match optional_ip(m, "ipv4") {
        Ok(o) => o,
        Err(e) => {
            return Err(e);
        },
    };
    let ipv6 = match optional_ip(m, "ipv6") {
        Ok(o) => o,
        Err(e) => {
            return Err(e);
        },
    };
    Ok(NetctlConnectionConfig { connection, wifi, wifi_security, vpn, ethernet, ipv4, ipv6 })
}

/// Where the WiFi settings of a keyfile come from: its `[wifi]` section,
/// else its `[802-11-wireless]` section (the name NetworkManager writes).
/// A keyfile with neither has no WiFi settings; a section without `ssid`
/// gives none either; otherwise the SSID is the section's `ssid` and the
/// mode its `mode`, `infrastructure` when unset.
pub proof fn lemma_wifi_section_source(k: KeyfileView, r: Result<WifiSection, String>)
    requires
        match wifi_error(k) {
            Some(e) => r matches Err(x) && x@ == e,
            None => r matches Ok(w) && wifi_fields(k, w),
        },
    ensures
        k.contains_key("wifi"@) && k["wifi"@].contains_key("ssid"@) ==> (r matches Ok(w) && w.ssid@
            == k["wifi"@]["ssid"@]),
        !k.contains_key("wifi"@) && k.contains_key("802-11-wireless"@) && k["802-11-wireless"@].contains_key(
            "ssid"@,
        ) ==> (r matches Ok(w) && w.ssid@ == k["802-11-wireless"@]["ssid"@]),
        !k.contains_key("wifi"@) && k.contains_key("802-11-wireless"@) && k["802-11-wireless"@].contains_key(
            "ssid"@,
        ) && k["802-11-wireless"@].contains_key("mode"@) ==> (r matches Ok(w) && w.mode@
            == k["802-11-wireless"@]["mode"@]),
        !k.contains_key("wifi"@) && k.contains_key("802-11-wireless"@) && k["802-11-wireless"@].contains_key(
            "ssid"@,
        ) && !k["802-11-wireless"@].contains_key("mode"@) ==> (r matches Ok(w) && w.mode@
            == "infrastructure"@),
        !k.contains_key("wifi"@) && !k.contains_key("802-11-wireless"@) ==> (r matches Err(x) && x@
            == "Missing wifi section"@),
        r is Ok ==> k.contains_key("wifi"@) || k.contains_key("802-11-wireless"@),
{
}

} // verus!
