//! CRActiveConnection - Active network connection (libnm NMActiveConnection equivalent)

use vstd::prelude::*;
use crate::error::NetctlResult;
use crate::strmap::StrMap;
use crate::text::{remove_char, without_char};
use crate::libnm_compat::connection::{CRConnection, fresh_uuid_text};
use crate::libnm_compat::device::{CRDevice, CRDeviceState, cr_state_of};
use crate::libnm_compat::enums::CRActiveConnectionState;
use crate::libnm_compat::ip_config::CRIPConfig;

verus! {

/// An active connection (equivalent to NMActiveConnection)
#[derive(Debug, Clone)]
pub struct CRActiveConnection {
    connection: CRConnection,
    device: Option<CRDevice>,
    state: CRActiveConnectionState,
    default4: bool,
    default6: bool,
    vpn: bool,
    id: String,
    uuid: String,
    connection_type: String,
    specific_object: Option<String>,
}

impl CRActiveConnection {
    pub closed spec fn conn(&self) -> CRConnection {
        self.connection
    }

    pub closed spec fn dev(&self) -> Option<CRDevice> {
        self.device
    }

    pub closed spec fn state(&self) -> CRActiveConnectionState {
        self.state
    }

    pub closed spec fn default4(&self) -> bool {
        self.default4
    }

    pub closed spec fn default6(&self) -> bool {
        self.default6
    }

    pub closed spec fn vpn(&self) -> bool {
        self.vpn
    }

    pub closed spec fn id(&self) -> Seq<char> {
        self.id@
    }

    pub closed spec fn uuid(&self) -> Seq<char> {
        self.uuid@
    }

    pub closed spec fn connection_type(&self) -> Seq<char> {
        self.connection_type@
    }

    pub closed spec fn specific_object(&self) -> Option<String> {
        self.specific_object
    }

    /// An activated connection on a device: it takes the ID, UUID and type
    /// of the connection, is not a default route or a VPN.
    pub fn new(connection: CRConnection, device: Option<CRDevice>) -> (r: NetctlResult<Self>)
        ensures
            r matches Ok(a) && a.conn() == connection && a.dev() == device && a.state()
                == CRActiveConnectionState::Activated && !a.default4() && !a.default6() && !a.vpn()
                && a.id() == connection.connection.id@ && a.uuid() == connection.connection.uuid@
                && a.connection_type() == connection.connection.connection_type@
                && a.specific_object() is None,
    {
        let id = connection.get_id().to_string();
        let uuid = connection.get_uuid().to_string();
        let connection_type = connection.get_connection_type().to_string();
        Ok(
            CRActiveConnection {
                id,
                uuid,
                connection_type,
                connection,
                device,
                state: CRActiveConnectionState::Activated,
                default4: false,
                default6: false,
                vpn: false,
                specific_object: None,
            },
        )
    }

    pub fn get_connection(&self) -> (r: &CRConnection)
        ensures
            *r == self.conn(),
    {
        &self.connection
    }

    pub fn get_id(&self) -> (r: &str)
        ensures
            r@ == self.id(),
    {
        self.id.as_str()
    }

    pub fn get_uuid(&self) -> (r: &str)
        ensures
            r@ == self.uuid(),
    {
        self.uuid.as_str()
    }

    pub fn get_connection_type(&self) -> (r: &str)
        ensures
            r@ == self.connection_type(),
    {
        self.connection_type.as_str()
    }

    pub fn get_specific_object(&self) -> (r: Option<&str>)
        ensures
            match self.specific_object() {
                Some(s) => r matches Some(t) && t@ == s@,
                None => r is None,
            },
    {
        match &self.specific_object {
            Some(s) => Some(s.as_str()),
            None => None,
        }
    }

    pub fn get_device(&self) -> (r: Option<&CRDevice>)
        ensures
            match self.dev() {
                Some(d) => r == Some(&d),
                None => r is None,
            },
    {
        self.device.as_ref()
    }

    /// The devices of the connection: its device, if it has one.
    pub fn get_devices(&self) -> (r: Vec<&CRDevice>)
        ensures
            match self.dev() {
                Some(d) => r@.len() == 1 && *r@[0] == d,
                None => r@.len() == 0,
            },
    {
        let mut v: Vec<&CRDevice> = Vec::new();
        match &self.device {
            Some(d) => v.push(d),
            None => {},
        }
        v
    }

    pub fn get_state(&self) -> (r: CRActiveConnectionState)
        ensures
            r == self.state(),
    {
        self.state
    }

    pub(crate) fn set_state(&mut self, state: CRActiveConnectionState)
        ensures
            final(self).state() == state,
            final(self).conn() == old(self).conn(),
            final(self).uuid() == old(self).uuid(),
    {
        self.state = state;
    }

    pub fn get_default(&self) -> (r: bool)
        ensures
            r == self.default4(),
    {
        self.default4
    }

    pub fn get_default6(&self) -> (r: bool)
        ensures
            r == self.default6(),
    {
        self.default6
    }

    pub(crate) fn set_default(&mut self, is_default: bool)
        ensures
            final(self).default4() == is_default,
            final(self).default6() == old(self).default6(),
            final(self).state() == old(self).state(),
    {
        self.default4 = is_default;
    }

    pub(crate) fn set_default6(&mut self, is_default: bool)
        ensures
            final(self).default6() == is_default,
            final(self).default4() == old(self).default4(),
            final(self).state() == old(self).state(),
    {
        self.default6 = is_default;
    }

    pub fn get_vpn(&self) -> (r: bool)
        ensures
            r == self.vpn(),
    {
        self.vpn
    }

    /// The IPv4 configuration of the device, when it is activated.
    pub fn get_ip4_config(&self) -> (r: Option<CRIPConfig>)
        ensures
            r is Some <==> (self.dev() matches Some(d) && cr_state_of(d.dev().state)
                == CRDeviceState::Activated),
    {
        match &self.device {
            Some(d) => d.get_ip4_config(),
            None => None,
        }
    }

    /// The IPv6 configuration of the device, when it is activated.
    pub fn get_ip6_config(&self) -> (r: Option<CRIPConfig>)
        ensures
            r is Some <==> (self.dev() matches Some(d) && cr_state_of(d.dev().state)
                == CRDeviceState::Activated),
    {
        match &self.device {
            Some(d) => d.get_ip6_config(),
            None => None,
        }
    }

    /// No DHCPv4 details are kept.
    pub fn get_dhcp4_config(&self) -> (r: Option<CRDhcpConfig>)
        ensures
            r is None,
    {
        None
    }

    /// No DHCPv6 details are kept.
    pub fn get_dhcp6_config(&self) -> (r: Option<CRDhcpConfig>)
        ensures
            r is None,
    {
        None
    }

    /// No master device is kept.
    pub fn get_master(&self) -> (r: Option<&CRDevice>)
        ensures
            r is None,
    {
        None
    }

    /// The D-Bus object path: the UUID without its hyphens.
    pub fn get_path(&self) -> (r: String)
        ensures
            r@ == "/org/freedesktop/NetworkManager/ActiveConnection/"@ + without_char(self.uuid(), '-'),
    {
        let mut p = "/org/freedesktop/NetworkManager/ActiveConnection/".to_string();
        let u = remove_char(self.uuid.as_str(), '-');
        p.append(u.as_str());
        p
    }
}

impl CRDevice {
    /// The active connection of an activated device: its connection as
    /// `CRConnection::new_from_device` makes it.
    pub fn get_active_connection(&self) -> (r: Option<CRActiveConnection>)
        ensures
            (cr_state_of(self.dev().state) == CRDeviceState::Activated) <==> r is Some,
            r matches Some(a) ==> a.id() == self.dev().name@ + " active"@ && fresh_uuid_text(a.uuid())
                && a.state() == CRActiveConnectionState::Activated && a.dev() is Some && cloned(*self, a.dev()->0),
    {
        if self.get_state() == CRDeviceState::Activated {
            let conn = CRConnection::new_from_device(self);
            match CRActiveConnection::new(conn, Some(self.clone())) {
                Ok(a) => Some(a),
                Err(_) => None,
            }
        } else {
            None
        }
    }
}

/// DHCP options of a connection (NMDhcpConfig)
#[derive(Debug, Clone)]
pub struct CRDhcpConfig {
    pub options: StrMap<String>,
}

impl CRDhcpConfig {
    /// No options.
    pub fn new() -> (c: Self)
        ensures
            c.options@ == Map::<Seq<char>, String>::empty(),
    {
        CRDhcpConfig { options: StrMap::new() }
    }

    /// All options.
    pub fn get_options(&self) -> (r: &StrMap<String>)
        ensures
            r@ == self.options@,
    {
        &self.options
    }

    /// The value of one option.
    pub fn get_one_option(&self, option: &str) -> (r: Option<&str>)
        ensures
            match r {
                Some(v) => self.options@.contains_key(option@) && self.options@[option@]@ == v@,
                None => !self.options@.contains_key(option@),
            },
    {
        match self.options.get_ref(option) {
            Some(v) => Some(v.as_str()),
            None => None,
        }
    }
}

impl Default for CRDhcpConfig {
    fn default() -> (c: Self)
        ensures
            c.options@ == Map::<Seq<char>, String>::empty(),
    {
        CRDhcpConfig::new()
    }
}

} // verus!
