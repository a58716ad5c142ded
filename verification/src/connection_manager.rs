//! Connection manager: the decisions of activating and deactivating a
//! connection (which interface, which credentials, which IP setup, what to
//! undo) and the active connections by interface.  Running the WiFi, DHCP,
//! VPN and interface commands is left to the caller.

use vstd::prelude::*;
use crate::error::{NetctlError, NetctlResult};
use crate::strmap::StrMap;
use crate::text::{eq_str, split_char, split_seq, parse_unsigned, parsed_unsigned};
use crate::connection_config::NetctlConnectionConfig;

verus! {

/// An active connection
#[derive(Debug, Clone)]
pub struct ActiveConnection {
    /// Connection name
    pub name: String,
    /// Connection UUID
    pub uuid: String,
    /// Interface name
    pub interface: String,
    /// Connection type
    pub conn_type: String,
    /// Whether DHCP client is running
    pub dhcp_active: bool,
    /// Configuration
    pub config: NetctlConnectionConfig,
}

/// How the IPv4 address of an interface is set up.
#[derive(Debug, Clone)]
pub enum IpPlan {
    /// Run the DHCP client.
    StartDhcp,
    /// Set a static address.
    Static { address: String, prefix: u8 },
    /// Leave the address alone.
    NoAction,
}

/// What deactivating a connection undoes before the interface goes down.
#[derive(Debug, Clone)]
pub struct DeactivationPlan {
    /// Release the lease and stop the DHCP client.
    pub stop_dhcp: bool,
    /// Disconnect from the WiFi network.
    pub disconnect_wifi: bool,
    /// Disconnect the VPN of this UUID.
    pub disconnect_vpn: Option<String>,
}

/// The IPv4 setup a connection file asks for: DHCP without an `[ipv4]`
/// section or with method `auto`; with method `manual`, the static address
/// `ip/prefix` when one is given; nothing for other methods.
pub open spec fn ip_plan_result(c: NetctlConnectionConfig, r: NetctlResult<IpPlan>) -> bool {
    match c.ipv4 {
        None => r matches Ok(IpPlan::StartDhcp),
        Some(ip) => if ip.method@ == "auto"@ {
            r matches Ok(IpPlan::StartDhcp)
        } else if ip.method@ == "manual"@ {
            match ip.address {
                None => r matches Ok(IpPlan::NoAction),
                Some(a) => {
                    let parts = split_seq(a@, '/');
                    if parts.len() != 2 {
                        r matches Err(NetctlError::ConfigError(m)) && m@
                            == "Invalid IP address format: "@ + a@
                    } else {
                        match parsed_unsigned(parts[1], 255) {
                            Some(p) => r matches Ok(IpPlan::Static { address, prefix }) && address@
                                == parts[0] && prefix == p,
                            None => r matches Err(NetctlError::ConfigError(m)) && m@
                                == "Invalid prefix length: "@ + parts[1],
                        }
                    }
                },
            }
        } else {
            r matches Ok(IpPlan::NoAction)
        },
    }
}

/// The IPv4 setup of a connection.
pub fn ipv4_plan(config: &NetctlConnectionConfig) -> (r: NetctlResult<IpPlan>)
    ensures
        ip_plan_result(*config, r),
{
    match &config.ipv4 {
        None => Ok(IpPlan::StartDhcp),
        Some(ip) => {
            if eq_str(ip.method.as_str(), "auto") {
                Ok(IpPlan::StartDhcp)
            } else if eq_str(ip.method.as_str(), "manual") {
                match &ip.address {
                    None => Ok(IpPlan::NoAction),
                    Some(a) => {
                        let parts = split_char(a.as_str(), '/');
                        if parts.len() != 2 {
                            let mut m = "Invalid IP address format: ".to_string();
                            m.append(a.as_str());
                            return Err(NetctlError::ConfigError(m));
                        }
                        assert(parts@[0]@ == split_seq(a@, '/')[0]);
                        assert(parts@[1]@ == split_seq(a@, '/')[1]);
                        match parse_unsigned(parts[1].as_str(), 255) {
                            Some(p) => Ok(IpPlan::Static { address: parts[0].clone(), prefix: p as u8 }),
                            None => {
                                let mut m = "Invalid prefix length: ".to_string();
                                m.append(parts[1].as_str());
                                Err(NetctlError::ConfigError(m))
                            },
                        }
                    },
                }
            } else {
                Ok(IpPlan::NoAction)
            }
        },
    }
}

/// The network and password of a WiFi connection: the `[wifi]` SSID and
/// the PSK, else the password, of `[wifi-security]`.
pub fn wifi_credentials(config: &NetctlConnectionConfig) -> (r: NetctlResult<(String, Option<String>)>)
    ensures
        match config.wifi {
            None => r matches Err(NetctlError::ConfigError(m)) && m@
                == "WiFi connection must have [wifi] section"@,
            Some(w) => r matches Ok((ssid, pwd)) && ssid@ == w.ssid@ && match config.wifi_security {
                Some(sec) => match sec.psk {
                    Some(p) => pwd matches Some(x) && x@ == p@,
                    None => match sec.password {
                        Some(p) => pwd matches Some(x) && x@ == p@,
                        None => pwd is None,
                    },
                },
                None => pwd is None,
            },
        },
{
    let wifi = match &config.wifi {
        Some(w) => w,
        None => {
            return Err(
                NetctlError::ConfigError("WiFi connection must have [wifi] section".to_string()),
            );
        },
    };
    let password = match &config.wifi_security {
        Some(sec) => match &sec.psk {
            Some(p) => Some(p.clone()),
            None => match &sec.password {
                Some(p) => Some(p.clone()),
                None => None,
            },
        },
        None => None,
    };
    Ok((wifi.ssid.clone(), password))
}

/// A VPN connection needs a `[vpn]` section.
pub fn vpn_section_check(config: &NetctlConnectionConfig) -> (r: NetctlResult<()>)
    ensures
        config.vpn is Some ==> r is Ok,
        config.vpn is None ==> (r matches Err(NetctlError::ConfigError(m)) && m@
            == "VPN connection must have [vpn] section"@),
{
    match &config.vpn {
        Some(_) => Ok(()),
        None => Err(NetctlError::ConfigError("VPN connection must have [vpn] section".to_string())),
    }
}

/// What deactivating a connection undoes: the DHCP client when it runs,
/// the WiFi association of a WiFi connection, the VPN of a VPN
/// connection.
pub fn deactivation_plan(conn: &ActiveConnection) -> (p: DeactivationPlan)
    ensures
        p.stop_dhcp == conn.dhcp_active,
        p.disconnect_wifi == (conn.conn_type@ == "wifi"@),
        conn.conn_type@ == "vpn"@ ==> (p.disconnect_vpn matches Some(u) && u@ == conn.uuid@),
        conn.conn_type@ != "vpn"@ ==> p.disconnect_vpn is None,
{
    DeactivationPlan {
        stop_dhcp: conn.dhcp_active,
        disconnect_wifi: eq_str(conn.conn_type.as_str(), "wifi"),
        disconnect_vpn: if eq_str(conn.conn_type.as_str(), "vpn") {
            Some(conn.uuid.clone())
        } else {
            None
        },
    }
}

/// The active connections by interface.
pub struct ActiveConnections {
    active: StrMap<ActiveConnection>,
}

impl ActiveConnections {
    pub closed spec fn by_interface(&self) -> Map<Seq<char>, ActiveConnection> {
        self.active@
    }

    /// None active.
    pub fn new() -> (a: Self)
        ensures
            a.by_interface() == Map::<Seq<char>, ActiveConnection>::empty(),
    {
        ActiveConnections { active: StrMap::new() }
    }

    /// The interface a connection is activated on: the one its file
    /// names, which must not carry an active connection already.
    pub fn activation_interface(&self, config: &NetctlConnectionConfig) -> (r: NetctlResult<String>)
        ensures
            r is Err <==> activation_refused(self.by_interface(), *config),
            match config.connection.interface_name {
                None => r matches Err(NetctlError::ConfigError(m)) && m@
                    == "Connection must specify interface-name"@,
                Some(i) => if self.by_interface().contains_key(i@) {
                    r matches Err(NetctlError::AlreadyExists(m)) && m@ == "Connection already active on "@
                        + i@
                } else {
                    r matches Ok(s) && s@ == i@
                },
            },
    {
        let interface = match &config.connection.interface_name {
            Some(i) => i,
            None => {
                return Err(
                    NetctlError::ConfigError("Connection must specify interface-name".to_string()),
                );
            },
        };
        if self.active.contains_key(interface.as_str()) {
            let mut m = "Connection already active on ".to_string();
            m.append(interface.as_str());
            return Err(NetctlError::AlreadyExists(m));
        }
        Ok(interface.clone())
    }

    /// Record a connection as active on its interface.
    pub fn record(&mut self, conn: ActiveConnection)
        ensures
            final(self).by_interface() == old(self).by_interface().insert(conn.interface@, conn),
    {
        let iface = conn.interface.clone();
        self.active.insert(iface.as_str(), conn);
    }

    /// Take the active connection of an interface out of the record.
    pub fn take(&mut self, interface: &str) -> (r: Option<ActiveConnection>)
        ensures
            final(self).by_interface() == old(self).by_interface().remove(interface@),
            match r {
                Some(c) => old(self).by_interface().contains_key(interface@) && old(
                    self,
                ).by_interface()[interface@] == c,
                None => !old(self).by_interface().contains_key(interface@),
            },
    {
        self.active.remove(interface)
    }

    /// The active connection of an interface.
    pub fn get(&self, interface: &str) -> (r: Option<&ActiveConnection>)
        ensures
            match r {
                Some(c) => self.by_interface().contains_key(interface@) && self.by_interface()[interface@]
                    == *c,
                None => !self.by_interface().contains_key(interface@),
            },
    {
        self.active.get_ref(interface)
    }

    /// The interfaces with an active connection.
    pub fn interfaces(&self) -> (r: Vec<String>)
        ensures
            forall|k: Seq<char>|
                #![trigger self.by_interface().contains_key(k)]
                self.by_interface().contains_key(k) <==> exists|i: int| 0 <= i < r@.len() && r@[i]@ == k,
    {
        self.active.keys()
    }
}

/// Whether activating the connection of `config` is refused while
/// `active` holds the active connections: it names no interface, or its
/// interface carries an active connection.
pub open spec fn activation_refused(
    active: Map<Seq<char>, ActiveConnection>,
    config: NetctlConnectionConfig,
) -> bool {
    match config.connection.interface_name {
        None => true,
        Some(i) => active.contains_key(i@),
    }
}

/// An interface carries at most one active connection: once a connection
/// is recorded on an interface, activating any connection there is
/// refused; taking the interface's connection gives back the one recorded
/// and frees the interface again.
pub proof fn lemma_one_connection_per_interface(
    before: Map<Seq<char>, ActiveConnection>,
    conn: ActiveConnection,
    config: NetctlConnectionConfig,
)
    requires
        config.connection.interface_name matches Some(i) && i@ == conn.interface@,
    ensures
        activation_refused(before.insert(conn.interface@, conn), config),
        before.insert(conn.interface@, conn)[conn.interface@] == conn,
        !activation_refused(before.insert(conn.interface@, conn).remove(conn.interface@), config),
{
}

} // verus!
