//! CR VPN D-Bus interface
//!
//! The registry behind `org.crrouter.NetworkControl.VPN`: the VPN
//! connections by name, their state, and the import and export requests.

use vstd::prelude::*;
use vstd::string::*;
use crate::error::{NetctlError, NetctlResult};
use crate::strmap::StrMap;
use crate::text::{eq_str, all_ascii, ascii_lower};
use crate::cr_dbus::types::{CRVpnInfo, CRVpnType, CRVpnState, vpn_type_code, vpn_state_code, child_path, CR_VPN_PATH_PREFIX};
use crate::cr_dbus::props::{PropValue, PropView, DbusError, props_view, push_prop};
use crate::cr_dbus::dhcp::{DbusErrorView, error_view};

verus! {

/// What `str::to_lowercase` gives for a string (Unicode case mapping).
pub uninterp spec fn lowercase(s: Seq<char>) -> Seq<char>;

/// `str::to_lowercase`: the lowercase equivalent of the string, by the
/// Unicode case mapping.  The contract names that result and states only
/// what holds of ASCII text: each letter `A`..`Z` becomes `a`..`z`, every
/// other character stays.
#[verifier::external_body]
fn to_lowercase(s: &str) -> (r: String)
    ensures
        r@ == lowercase(s@),
        all_ascii(s@) ==> r@ == s@.map_values(|c: char| ascii_lower(c)),
{
    s.to_lowercase()
}

/// The VPN type a (lowercased) type name stands for.
pub open spec fn vpn_type_named(n: Seq<char>) -> Option<CRVpnType> {
    if n == "openvpn"@ {
        Some(CRVpnType::OpenVpn)
    } else if n == "wireguard"@ {
        Some(CRVpnType::WireGuard)
    } else if n == "ipsec"@ {
        Some(CRVpnType::IPsec)
    } else if n == "arti"@ || n == "tor"@ {
        Some(CRVpnType::Arti)
    } else {
        None
    }
}

/// The name of a VPN type as `Debug` prints it.
pub open spec fn vpn_type_name(t: CRVpnType) -> Seq<char> {
    match t {
        CRVpnType::Unknown => "Unknown"@,
        CRVpnType::OpenVpn => "OpenVpn"@,
        CRVpnType::WireGuard => "WireGuard"@,
        CRVpnType::IPsec => "IPsec"@,
        CRVpnType::Arti => "Arti"@,
    }
}

fn vpn_type_label(t: CRVpnType) -> (r: &'static str)
    ensures
        r@ == vpn_type_name(t),
{
    match t {
        CRVpnType::Unknown => "Unknown",
        CRVpnType::OpenVpn => "OpenVpn",
        CRVpnType::WireGuard => "WireGuard",
        CRVpnType::IPsec => "IPsec",
        CRVpnType::Arti => "Arti",
    }
}

/// The message of an unknown connection.
pub open spec fn vpn_missing(name: Seq<char>) -> Seq<char> {
    "VPN connection "@ + name + " not found"@
}

/// The properties of a VPN connection: name, path, type and state
/// numbers, and the addresses that are known.
pub open spec fn vpn_info_view(v: CRVpnInfo) -> Seq<(Seq<char>, PropView)> {
    seq![
        ("Name"@, PropView::Str(v.name@)),
        ("Path"@, PropView::Str(v.path@)),
        ("Type"@, PropView::U32(vpn_type_code(v.vpn_type))),
        ("State"@, PropView::U32(vpn_state_code(v.state))),
    ] + (match v.local_ip {
        Some(ip) => seq![("LocalIP"@, PropView::Str(ip@))],
        None => Seq::empty(),
    }) + (match v.remote_address {
        Some(a) => seq![("RemoteAddress"@, PropView::Str(a@))],
        None => Seq::empty(),
    })
}

/// Why an import request is refused, if it is.
pub open spec fn import_refusal(vpn_type: Seq<char>, config_file: Seq<char>, name: Seq<char>) -> Option<
    DbusErrorView,
> {
    if vpn_type_named(lowercase(vpn_type)) is None {
        Some(DbusErrorView::InvalidArgs("Unknown VPN type: "@ + vpn_type))
    } else if config_file.len() == 0 {
        Some(DbusErrorView::InvalidArgs("Config file path cannot be empty"@))
    } else if name.len() == 0 {
        Some(DbusErrorView::InvalidArgs("VPN name cannot be empty"@))
    } else {
        None
    }
}

/// VPN connections by name
pub struct CRVPN {
    connections: StrMap<CRVpnInfo>,
}

impl CRVPN {
    /// The connections by name.
    pub closed spec fn conns(&self) -> Map<Seq<char>, CRVpnInfo> {
        self.connections@
    }

    /// No connection.
    pub fn new() -> (v: Self)
        ensures
            v.conns() == Map::<Seq<char>, CRVpnInfo>::empty(),
    {
        CRVPN { connections: StrMap::new() }
    }

    /// Record a connection under its name, replacing one of the same name.
    pub fn add_connection(&mut self, vpn_info: CRVpnInfo)
        ensures
            final(self).conns() == old(self).conns().insert(vpn_info.name@, vpn_info),
    {
        let name = vpn_info.name.clone();
        self.connections.insert(name.as_str(), vpn_info);
    }

    /// Forget a connection.
    pub fn remove_connection(&mut self, name: &str) -> (r: NetctlResult<()>)
        ensures
            final(self).conns() == old(self).conns().remove(name@),
            old(self).conns().contains_key(name@) ==> r is Ok,
            !old(self).conns().contains_key(name@) ==> (r matches Err(NetctlError::NotFound(m)) && m@
                == vpn_missing(name@)),
    {
        match self.connections.remove(name) {
            Some(_) => Ok(()),
            None => Err(NetctlError::NotFound(missing(name))),
        }
    }

    /// Record the state of a connection.
    pub fn update_state(&mut self, name: &str, state: CRVpnState) -> (r: NetctlResult<()>)
        ensures
            old(self).conns().contains_key(name@) ==> r is Ok && final(self).conns() == old(
                self,
            ).conns().insert(name@, CRVpnInfo { state, ..old(self).conns()[name@] }),
            !old(self).conns().contains_key(name@) ==> (r matches Err(NetctlError::NotFound(m)) && m@
                == vpn_missing(name@)) && final(self).conns() == old(self).conns(),
    {
        match self.connections.remove(name) {
            Some(mut vpn) => {
                vpn.state = state;
                self.connections.insert(name, vpn);
                proof {
                    assert(old(self).conns().remove(name@).insert(name@, CRVpnInfo { state, ..old(self).conns()[name@] })
                        =~= old(self).conns().insert(name@, CRVpnInfo { state, ..old(self).conns()[name@] }));
                }
                Ok(())
            },
            None => {
                proof {
                    assert(old(self).conns().remove(name@) =~= old(self).conns());
                }
                Err(NetctlError::NotFound(missing(name)))
            },
        }
    }

    /// The connection of a name.
    pub fn get_connection(&self, name: &str) -> (r: Option<&CRVpnInfo>)
        ensures
            match r {
                Some(v) => self.conns().contains_key(name@) && self.conns()[name@] == *v,
                None => !self.conns().contains_key(name@),
            },
    {
        self.connections.get_ref(name)
    }

    /// GetConnections: the names of the connections.
    pub fn get_connections(&self) -> (r: Vec<String>)
        ensures
            forall|k: Seq<char>|
                #![trigger self.conns().contains_key(k)]
                self.conns().contains_key(k) <==> exists|i: int| 0 <= i < r@.len() && r@[i]@ == k,
            forall|i: int, j: int|
                0 <= i < r@.len() && 0 <= j < r@.len() && i != j ==> #[trigger] r@[i]@ != #[trigger] r@[j]@,
    {
        self.connections.keys()
    }

    /// GetConnectionInfo
    pub fn get_connection_info(&self, name: &str) -> (r: Result<Vec<(String, PropValue)>, DbusError>)
        ensures
            self.conns().contains_key(name@) ==> (r matches Ok(p) && props_view(p@) == vpn_info_view(
                self.conns()[name@],
            )),
            !self.conns().contains_key(name@) ==> (r matches Err(e) && error_view(e)
                == DbusErrorView::Failed(vpn_missing(name@))),
    {
        match self.connections.get_ref(name) {
            Some(vpn) => {
                let mut info: Vec<(String, PropValue)> = Vec::new();
                push_prop(&mut info, "Name", PropValue::Str(vpn.name.clone()));
                push_prop(&mut info, "Path", PropValue::Str(vpn.path.clone()));
                push_prop(&mut info, "Type", PropValue::U32(vpn.vpn_type.code()));
                push_prop(&mut info, "State", PropValue::U32(vpn.state.code()));
                match &vpn.local_ip {
                    Some(ip) => push_prop(&mut info, "LocalIP", PropValue::Str(ip.clone())),
                    None => {},
                }
                match &vpn.remote_address {
                    Some(a) => push_prop(&mut info, "RemoteAddress", PropValue::Str(a.clone())),
                    None => {},
                }
                assert(props_view(info@) =~= vpn_info_view(self.conns()[name@]));
                Ok(info)
            },
            None => Err(DbusError::Failed(missing(name))),
        }
    }

    /// GetState: the state number of a connection.
    pub fn get_state(&self, name: &str) -> (r: Result<u32, DbusError>)
        ensures
            self.conns().contains_key(name@) ==> r == Ok::<u32, DbusError>(
                vpn_state_code(self.conns()[name@].state),
            ),
            !self.conns().contains_key(name@) ==> (r matches Err(e) && error_view(e)
                == DbusErrorView::Failed(vpn_missing(name@))),
    {
        match self.connections.get_ref(name) {
            Some(vpn) => Ok(vpn.state.code()),
            None => Err(DbusError::Failed(missing(name))),
        }
    }

    /// GetStatistics: zero counters for a known connection (the counters
    /// are filled in by the service that runs it).
    pub fn get_statistics(&self, name: &str) -> (r: Result<Vec<(String, PropValue)>, DbusError>)
        ensures
            self.conns().contains_key(name@) ==> (r matches Ok(p) && props_view(p@) == seq![
                ("BytesReceived"@, PropView::U64(0)),
                ("BytesSent"@, PropView::U64(0)),
                ("Duration"@, PropView::U64(0)),
            ]),
            !self.conns().contains_key(name@) ==> (r matches Err(e) && error_view(e)
                == DbusErrorView::Failed(vpn_missing(name@))),
    {
        if self.connections.contains_key(name) {
            let mut stats: Vec<(String, PropValue)> = Vec::new();
            push_prop(&mut stats, "BytesReceived", PropValue::U64(0));
            push_prop(&mut stats, "BytesSent", PropValue::U64(0));
            push_prop(&mut stats, "Duration", PropValue::U64(0));
            assert(props_view(stats@) =~= seq![
                ("BytesReceived"@, PropView::U64(0)),
                ("BytesSent"@, PropView::U64(0)),
                ("Duration"@, PropView::U64(0)),
            ]);
            Ok(stats)
        } else {
            Err(DbusError::Failed(missing(name)))
        }
    }

    /// ImportConfig: the type name (any case) must be known, the file and
    /// the name given; the connection is then recorded and its name
    /// returned.
    pub fn import_config(&mut self, vpn_type: &str, config_file: &str, name: &str) -> (r: Result<
        String,
        DbusError,
    >)
        ensures
            match import_refusal(vpn_type@, config_file@, name@) {
                Some(e) => r matches Err(err) && error_view(err) == e && final(self).conns() == old(
                    self,
                ).conns(),
                None => r matches Ok(n) && n@ == name@ && final(self).conns().dom() == old(
                    self,
                ).conns().dom().insert(name@) && final(self).conns()[name@].name@ == name@
                    && final(self).conns()[name@].vpn_type == vpn_type_named(lowercase(vpn_type@))->0
                    && final(self).conns()[name@].path@ == child_path(CR_VPN_PATH_PREFIX@, name@)
                    && final(self).conns()[name@].state == CRVpnState::Disconnected
                    && forall|k: Seq<char>| k != name@ && #[trigger] old(self).conns().contains_key(k) ==> final(self).conns()[k] == old(self).conns()[k],
            },
    {
        let lower = to_lowercase(vpn_type);
        proof {
            reveal_strlit("arti");
            reveal_strlit("tor");
            assert("arti"@.len() != "tor"@.len());
        }
        let vtype = if eq_str(lower.as_str(), "openvpn") {
            CRVpnType::OpenVpn
        } else if eq_str(lower.as_str(), "wireguard") {
            CRVpnType::WireGuard
        } else if eq_str(lower.as_str(), "ipsec") {
            CRVpnType::IPsec
        } else if eq_str(lower.as_str(), "arti") || eq_str(lower.as_str(), "tor") {
            CRVpnType::Arti
        } else {
            let mut m = "Unknown VPN type: ".to_string();
            m.append(vpn_type);
            return Err(DbusError::InvalidArgs(m));
        };
        if config_file.unicode_len() == 0 {
            return Err(DbusError::InvalidArgs("Config file path cannot be empty".to_string()));
        }
        if name.unicode_len() == 0 {
            return Err(DbusError::InvalidArgs("VPN name cannot be empty".to_string()));
        }
        let info = CRVpnInfo::new(name.to_string(), vtype);
        self.add_connection(info);
        Ok(name.to_string())
    }

    /// ExportConfig: a header naming the connection and its type.
    pub fn export_config(&self, name: &str) -> (r: Result<String, DbusError>)
        ensures
            self.conns().contains_key(name@) ==> (r matches Ok(t) && t@ == "# VPN Configuration for "@
                + name@ + "\n# Type: "@ + vpn_type_name(self.conns()[name@].vpn_type) + "\n"@),
            !self.conns().contains_key(name@) ==> (r matches Err(e) && error_view(e)
                == DbusErrorView::Failed(vpn_missing(name@))),
    {
        match self.connections.get_ref(name) {
            Some(vpn) => {
                let mut t = "# VPN Configuration for ".to_string();
                t.append(name);
                t.append("\n# Type: ");
                t.append(vpn_type_label(vpn.vpn_type));
                t.append("\n");
                Ok(t)
            },
            None => Err(DbusError::Failed(missing(name))),
        }
    }

    /// CreateFromConfig: refuses an empty configuration; the connection
    /// is named `imported_vpn`.
    pub fn create_from_config(&self, config_toml: &str) -> (r: Result<String, DbusError>)
        ensures
            config_toml@.len() == 0 ==> (r matches Err(e) && error_view(e)
                == DbusErrorView::InvalidArgs("Config cannot be empty"@)),
            config_toml@.len() != 0 ==> (r matches Ok(n) && n@ == "imported_vpn"@),
    {
        if config_toml.unicode_len() == 0 {
            return Err(DbusError::InvalidArgs("Config cannot be empty".to_string()));
        }
        Ok("imported_vpn".to_string())
    }
}

fn missing(name: &str) -> (r: String)
    ensures
        r@ == vpn_missing(name@),
{
    let mut m = "VPN connection ".to_string();
    m.append(name);
    m.append(" not found");
    m
}

impl Default for CRVPN {
    fn default() -> (v: Self)
        ensures
            v.conns() == Map::<Seq<char>, CRVpnInfo>::empty(),
    {
        CRVPN::new()
    }
}

} // verus!
