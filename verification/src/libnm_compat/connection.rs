//! CRConnection - Network connection configuration (libnm NMConnection equivalent)

use vstd::prelude::*;
use crate::error::{NetctlError, NetctlResult};
use crate::strmap::StrMap;
use crate::text::{eq_str, remove_char, without_char};
use crate::libnm_compat::settings::{
    CRSetting, CRSettingConnection, CRSettingWired, CRSettingWireless, CRSettingIP4Config,
    CRSettingIP6Config,
};
use crate::libnm_compat::device::{CRDevice, CRDeviceType, cr_type_of};

verus! {

/// A lowercase hexadecimal digit.
pub open spec fn is_lower_hex(c: char) -> bool {
    ('0' <= c && c <= '9') || ('a' <= c && c <= 'f')
}

/// The text of a random (version 4) UUID in hyphenated form: 36
/// characters, hyphens at positions 8, 13, 18 and 23, lowercase hex digits
/// elsewhere, the version digit `4` at position 14 and the variant digit
/// (8, 9, a or b) at position 19.
pub open spec fn uuid_v4_text(s: Seq<char>) -> bool {
    &&& s.len() == 36
    &&& forall|i: int|
        0 <= i < 36 ==> if i == 8 || i == 13 || i == 18 || i == 23 {
            s[i] == '-'
        } else {
            is_lower_hex(#[trigger] s[i])
        }
    &&& s[14] == '4'
    &&& (s[19] == '8' || s[19] == '9' || s[19] == 'a' || s[19] == 'b')
}

/// The lowercase hexadecimal digits, by value.
pub open spec fn hex_digits() -> Seq<char> {
    seq!['0', '1', '2', '3', '4', '5', '6', '7', '8', '9', 'a', 'b', 'c', 'd', 'e', 'f']
}

/// A byte as two lowercase hex digits, high nibble first.
pub open spec fn hex_byte(b: u8) -> Seq<char> {
    seq![hex_digits()[(b / 16) as int], hex_digits()[(b % 16) as int]]
}

/// Bytes as lowercase hex, two digits each.
pub open spec fn hex_bytes(b: Seq<u8>) -> Seq<char>
    decreases b.len(),
{
    if b.len() == 0 {
        Seq::empty()
    } else {
        hex_byte(b[0]) + hex_bytes(b.drop_first())
    }
}

/// Random bytes with the version (4, in the high nibble of byte 6) and the
/// variant (binary 10, in the top bits of byte 8) of a random UUID set.
pub open spec fn with_v4_bits(b: Seq<u8>) -> Seq<u8> {
    b.update(6, (b[6] & 0x0f) | 0x40).update(8, (b[8] & 0x3f) | 0x80)
}

/// The hyphenated lowercase text of the random UUID made from 16 random
/// bytes: groups of 4, 2, 2, 2 and 6 bytes.
pub open spec fn v4_uuid_text(b: Seq<u8>) -> Seq<char> {
    let v = with_v4_bits(b);
    hex_bytes(v.subrange(0, 4)) + seq!['-'] + hex_bytes(v.subrange(4, 6)) + seq!['-'] + hex_bytes(
        v.subrange(6, 8),
    ) + seq!['-'] + hex_bytes(v.subrange(8, 10)) + seq!['-'] + hex_bytes(v.subrange(10, 16))
}

/// The UUID of a freshly made connection: a random version 4 UUID, or
/// empty when the system's random source failed.
pub open spec fn fresh_uuid_text(s: Seq<char>) -> bool {
    uuid_v4_text(s) || s.len() == 0
}

/// `getrandom::fill` on 16 bytes: the bytes the system's random source
/// gave, or `None` when it reported an error.  Which bytes come back is
/// left open (they are random).
#[verifier::external_body]
fn random_uuid_bytes() -> (r: Option<[u8; 16]>) {
    let mut bytes = [0u8; 16];
    match getrandom::fill(&mut bytes) {
        Ok(()) => Some(bytes),
        Err(_) => None,
    }
}

/// `uuid::Builder::from_random_bytes(bytes).into_uuid().to_string()`: the
/// source sets the variant bits of byte 8 to binary 10 and the version
/// nibble of byte 6 to 4, and `Display` writes the 16 bytes as lowercase
/// hex in hyphenated groups of 4, 2, 2, 2 and 6 bytes.  So the text is a
/// version 4 UUID text.
#[verifier::external_body]
fn uuid_text_of_bytes(bytes: [u8; 16]) -> (s: String)
    ensures
        s@ == v4_uuid_text(bytes@),
        uuid_v4_text(s@),
{
    uuid::Builder::from_random_bytes(bytes).into_uuid().to_string()
}

/// The text of the random UUID made from 16 random bytes, or `None` when
/// there are none.
pub fn uuid_from_random(random: Option<[u8; 16]>) -> (r: Option<String>)
    ensures
        match random {
            Some(b) => r matches Some(s) && s@ == v4_uuid_text(b@) && uuid_v4_text(s@),
            None => r is None,
        },
{
    match random {
        Some(b) => Some(uuid_text_of_bytes(b)),
        None => None,
    }
}

/// A fresh random UUID text, or `None` when the system's random source
/// fails.
fn fresh_uuid() -> (r: Option<String>)
    ensures
        r matches Some(s) ==> uuid_v4_text(s@),
{
    uuid_from_random(random_uuid_bytes())
}

/// A fresh random UUID text, or the empty text when the system's random
/// source fails.
fn fresh_uuid_or_empty() -> (s: String)
    ensures
        fresh_uuid_text(s@),
{
    match fresh_uuid() {
        Some(u) => u,
        None => String::new(),
    }
}

/// Network connection configuration (equivalent to NMConnection)
#[derive(Debug, Clone)]
pub struct CRConnection {
    pub connection: CRSettingConnection,
    pub wired: Option<CRSettingWired>,
    pub wireless: Option<CRSettingWireless>,
    pub ipv4: Option<CRSettingIP4Config>,
    pub ipv6: Option<CRSettingIP6Config>,
    pub settings: StrMap<CRSetting>,
}

/// The connection type name of a device type.
pub open spec fn connection_type_for(t: CRDeviceType) -> Seq<char> {
    match t {
        CRDeviceType::Ethernet => "802-3-ethernet"@,
        CRDeviceType::Wifi => "802-11-wireless"@,
        _ => "generic"@,
    }
}

impl CRConnection {
    /// A new Ethernet connection named "New Connection", with a fresh
    /// random UUID, connecting automatically, with no settings.
    pub fn new() -> (c: Self)
        ensures
            c.connection.id@ == "New Connection"@,
            fresh_uuid_text(c.connection.uuid@),
            c.connection.connection_type@ == "802-3-ethernet"@,
            c.connection.interface_name is None,
            c.connection.autoconnect,
            c.connection.timestamp == 0,
            c.wired is None,
            c.wireless is None,
            c.ipv4 is None,
            c.ipv6 is None,
            c.settings@ == Map::<Seq<char>, CRSetting>::empty(),
    {
        CRConnection {
            connection: CRSettingConnection {
                id: "New Connection".to_string(),
                uuid: fresh_uuid_or_empty(),
                connection_type: "802-3-ethernet".to_string(),
                interface_name: None,
                autoconnect: true,
                timestamp: 0,
            },
            wired: None,
            wireless: None,
            ipv4: None,
            ipv6: None,
            settings: StrMap::new(),
        }
    }

    /// A new connection for a device: named "<interface> connection",
    /// bound to the interface, typed after the device with default wired
    /// or wireless settings.
    pub fn new_for_device(device: &CRDevice) -> (r: NetctlResult<Self>)
        ensures
            r matches Ok(c) && c.connection.id@ == device.dev().name@ + " connection"@
                && (c.connection.interface_name matches Some(n) && n@ == device.dev().name@)
                && c.connection.connection_type@ == connection_type_for(cr_type_of(device.dev().device_type))
                && (cr_type_of(device.dev().device_type) == CRDeviceType::Ethernet <==> c.wired is Some)
                && (cr_type_of(device.dev().device_type) == CRDeviceType::Wifi <==> c.wireless is Some)
                && fresh_uuid_text(c.connection.uuid@),
    {
        let mut conn = CRConnection::new();
        let mut id = device.get_iface().to_string();
        id.append(" connection");
        conn.connection.id = id;
        conn.connection.interface_name = Some(device.get_iface().to_string());
        match device.get_device_type() {
            CRDeviceType::Ethernet => {
                conn.connection.connection_type = "802-3-ethernet".to_string();
                conn.wired = Some(CRSettingWired::default());
            },
            CRDeviceType::Wifi => {
                conn.connection.connection_type = "802-11-wireless".to_string();
                conn.wireless = Some(CRSettingWireless::default());
            },
            _ => {
                conn.connection.connection_type = "generic".to_string();
            },
        }
        Ok(conn)
    }

    /// The connection an active device is shown with: as
    /// `new_for_device`, named "<interface> active".
    pub fn new_from_device(device: &CRDevice) -> (c: Self)
        ensures
            c.connection.id@ == device.dev().name@ + " active"@,
            c.connection.interface_name matches Some(n) && n@ == device.dev().name@,
            c.connection.connection_type@ == connection_type_for(cr_type_of(device.dev().device_type)),
            fresh_uuid_text(c.connection.uuid@),
    {
        let mut conn = match CRConnection::new_for_device(device) {
            Ok(c) => c,
            Err(_) => CRConnection::new(),
        };
        let mut id = device.get_iface().to_string();
        id.append(" active");
        conn.connection.id = id;
        conn
    }

    /// The D-Bus object path: the UUID without its hyphens.
    pub fn get_path(&self) -> (r: String)
        ensures
            r@ == "/org/freedesktop/NetworkManager/Settings/"@ + without_char(self.connection.uuid@, '-'),
    {
        let mut p = "/org/freedesktop/NetworkManager/Settings/".to_string();
        let u = remove_char(self.connection.uuid.as_str(), '-');
        p.append(u.as_str());
        p
    }

    pub fn get_uuid(&self) -> (r: &str)
        ensures
            r@ == self.connection.uuid@,
    {
        self.connection.uuid.as_str()
    }

    pub fn get_id(&self) -> (r: &str)
        ensures
            r@ == self.connection.id@,
    {
        self.connection.id.as_str()
    }

    pub fn get_connection_type(&self) -> (r: &str)
        ensures
            r@ == self.connection.connection_type@,
    {
        self.connection.connection_type.as_str()
    }

    pub fn get_interface_name(&self) -> (r: Option<&str>)
        ensures
            match self.connection.interface_name {
                Some(n) => r matches Some(s) && s@ == n@,
                None => r is None,
            },
    {
        match &self.connection.interface_name {
            Some(n) => Some(n.as_str()),
            None => None,
        }
    }

    /// The setting stored under a name.
    pub fn get_setting_by_name(&self, name: &str) -> (r: Option<&CRSetting>)
        ensures
            match r {
                Some(s) => self.settings@.contains_key(name@) && self.settings@[name@] == *s,
                None => !self.settings@.contains_key(name@),
            },
    {
        self.settings.get_ref(name)
    }

    pub fn get_setting_connection(&self) -> (r: &CRSettingConnection)
        ensures
            *r == self.connection,
    {
        &self.connection
    }

    pub fn get_setting_wired(&self) -> (r: Option<&CRSettingWired>)
        ensures
            match self.wired {
                Some(w) => r == Some(&w),
                None => r is None,
            },
    {
        self.wired.as_ref()
    }

    pub fn get_setting_wireless(&self) -> (r: Option<&CRSettingWireless>)
        ensures
            match self.wireless {
                Some(w) => r == Some(&w),
                None => r is None,
            },
    {
        self.wireless.as_ref()
    }

    pub fn get_setting_ip4_config(&self) -> (r: Option<&CRSettingIP4Config>)
        ensures
            match self.ipv4 {
                Some(w) => r == Some(&w),
                None => r is None,
            },
    {
        self.ipv4.as_ref()
    }

    pub fn get_setting_ip6_config(&self) -> (r: Option<&CRSettingIP6Config>)
        ensures
            match self.ipv6 {
                Some(w) => r == Some(&w),
                None => r is None,
            },
    {
        self.ipv6.as_ref()
    }

    /// Stores a setting under a name, replacing what was there.
    pub fn add_setting(&mut self, name: String, setting: CRSetting)
        ensures
            final(self).settings@ == old(self).settings@.insert(name@, setting),
            final(self).connection == old(self).connection,
            final(self).wired == old(self).wired,
            final(self).wireless == old(self).wireless,
            final(self).ipv4 == old(self).ipv4,
            final(self).ipv6 == old(self).ipv6,
    {
        self.settings.insert(name.as_str(), setting);
    }

    /// Removes the setting stored under a name, returning it.
    pub fn remove_setting(&mut self, name: &str) -> (r: Option<CRSetting>)
        ensures
            final(self).settings@ == old(self).settings@.remove(name@),
            final(self).connection == old(self).connection,
            final(self).wired == old(self).wired,
            final(self).wireless == old(self).wireless,
            final(self).ipv4 == old(self).ipv4,
            final(self).ipv6 == old(self).ipv6,
            match r {
                Some(s) => old(self).settings@.contains_key(name@) && old(self).settings@[name@] == s,
                None => !old(self).settings@.contains_key(name@),
            },
    {
        self.settings.remove(name)
    }

    /// A connection needs an ID and a UUID.
    pub fn verify(&self) -> (r: NetctlResult<()>)
        ensures
            self.connection.id@.len() == 0 ==> (r matches Err(NetctlError::InvalidParameter(m))
                && m@ == "Connection ID cannot be empty"@),
            self.connection.id@.len() != 0 && self.connection.uuid@.len() == 0 ==> (r matches Err(
                NetctlError::InvalidParameter(m),
            ) && m@ == "Connection UUID cannot be empty"@),
            self.connection.id@.len() != 0 && self.connection.uuid@.len() != 0 ==> r is Ok,
    {
        if self.connection.id.as_str().is_empty() {
            return Err(NetctlError::InvalidParameter("Connection ID cannot be empty".to_string()));
        }
        if self.connection.uuid.as_str().is_empty() {
            return Err(
                NetctlError::InvalidParameter("Connection UUID cannot be empty".to_string()),
            );
        }
        Ok(())
    }

    /// Fills a missing UUID with a fresh one and a missing ID with
    /// "Connection"; everything else stays.  When a UUID is missing and the
    /// system's random source fails, nothing changes and a service error
    /// is returned.
    pub fn normalize(&mut self) -> (r: NetctlResult<()>)
        ensures
            old(self).connection.uuid@.len() != 0 ==> r is Ok,
            r is Ok ==> {
                &&& old(self).connection.uuid@.len() == 0 ==> uuid_v4_text(final(self).connection.uuid@)
                &&& old(self).connection.uuid@.len() != 0 ==> final(self).connection.uuid
                    == old(self).connection.uuid
                &&& old(self).connection.id@.len() == 0 ==> final(self).connection.id@ == "Connection"@
                &&& old(self).connection.id@.len() != 0 ==> final(self).connection.id
                    == old(self).connection.id
            },
            r matches Err(e) ==> old(self).connection.uuid@.len() == 0 && (e matches NetctlError::ServiceError(m)
                && m@ == "could not retrieve random bytes for uuid"@) && final(self).connection
                == old(self).connection,
            final(self).connection.connection_type == old(self).connection.connection_type,
            final(self).settings == old(self).settings,
    {
        if self.connection.uuid.as_str().is_empty() {
            match fresh_uuid() {
                Some(u) => {
                    self.connection.uuid = u;
                },
                None => {
                    return Err(
                        NetctlError::ServiceError("could not retrieve random bytes for uuid".to_string()),
                    );
                },
            }
        }
        if self.connection.id.as_str().is_empty() {
            self.connection.id = "Connection".to_string();
        }
        Ok(())
    }

    /// Two connections are the same when their UUIDs are.
    pub fn compare(&self, other: &CRConnection) -> (r: bool)
        ensures
            r == (self.connection.uuid@ == other.connection.uuid@),
    {
        eq_str(self.connection.uuid.as_str(), other.connection.uuid.as_str())
    }

    /// A copy under a fresh UUID, named "<id> copy": the type, interface,
    /// autoconnect flag and timestamp are kept, each setting group and
    /// named setting is a clone of the one it copies.
    pub fn duplicate(&self) -> (d: Self)
        ensures
            fresh_uuid_text(d.connection.uuid@),
            d.connection.id@ == self.connection.id@ + " copy"@,
            d.connection.connection_type == self.connection.connection_type,
            d.connection.interface_name == self.connection.interface_name,
            d.connection.autoconnect == self.connection.autoconnect,
            d.connection.timestamp == self.connection.timestamp,
            self.wired is Some ==> d.wired is Some && cloned(self.wired->0, d.wired->0),
            self.wired is None ==> d.wired is None,
            self.wireless is Some ==> d.wireless is Some && cloned(self.wireless->0, d.wireless->0),
            self.wireless is None ==> d.wireless is None,
            self.ipv4 is Some ==> d.ipv4 is Some && cloned(self.ipv4->0, d.ipv4->0),
            self.ipv4 is None ==> d.ipv4 is None,
            self.ipv6 is Some ==> d.ipv6 is Some && cloned(self.ipv6->0, d.ipv6->0),
            self.ipv6 is None ==> d.ipv6 is None,
            d.settings@.dom() == self.settings@.dom(),
            forall|k: Seq<char>|
                #[trigger] d.settings@.contains_key(k) ==> cloned(self.settings@[k], d.settings@[k]),
    {
        let mut id = self.connection.id.clone();
        id.append(" copy");
        let interface_name = match &self.connection.interface_name {
            Some(n) => Some(n.clone()),
            None => None,
        };
        CRConnection {
            connection: CRSettingConnection {
                id,
                uuid: fresh_uuid_or_empty(),
                connection_type: self.connection.connection_type.clone(),
                interface_name,
                autoconnect: self.connection.autoconnect,
                timestamp: self.connection.timestamp,
            },
            wired: self.wired.clone(),
            wireless: self.wireless.clone(),
            ipv4: self.ipv4.clone(),
            ipv6: self.ipv6.clone(),
            settings: self.settings.clone(),
        }
    }

    pub fn is_type_ethernet(&self) -> (r: bool)
        ensures
            r == (self.connection.connection_type@ == "802-3-ethernet"@),
    {
        eq_str(self.connection.connection_type.as_str(), "802-3-ethernet")
    }

    pub fn is_type_wifi(&self) -> (r: bool)
        ensures
            r == (self.connection.connection_type@ == "802-11-wireless"@),
    {
        eq_str(self.connection.connection_type.as_str(), "802-11-wireless")
    }

    pub fn is_type_vpn(&self) -> (r: bool)
        ensures
            r == (self.connection.connection_type@ == "vpn"@),
    {
        eq_str(self.connection.connection_type.as_str(), "vpn")
    }
}

impl Default for CRConnection {
    fn default() -> (c: Self)
        ensures
            c.connection.id@ == "New Connection"@,
            fresh_uuid_text(c.connection.uuid@),
            c.connection.connection_type@ == "802-3-ethernet"@,
    {
        CRConnection::new()
    }
}

impl CRDevice {
    /// Whether a connection suits the device: Ethernet connections for
    /// Ethernet devices, WiFi connections for WiFi devices.
    pub fn connection_compatible(&self, connection: &CRConnection) -> (r: bool)
        ensures
            r == match cr_type_of(self.dev().device_type) {
                CRDeviceType::Ethernet => connection.connection.connection_type@ == "802-3-ethernet"@,
                CRDeviceType::Wifi => connection.connection.connection_type@ == "802-11-wireless"@,
                _ => false,
            },
    {
        match self.get_device_type() {
            CRDeviceType::Ethernet => connection.is_type_ethernet(),
            CRDeviceType::Wifi => connection.is_type_wifi(),
            _ => false,
        }
    }
}

/// A connection as stored by the settings service (NMRemoteConnection)
#[derive(Debug, Clone)]
pub struct CRRemoteConnection {
    connection: CRConnection,
    unsaved: bool,
    visible: bool,
}

impl CRRemoteConnection {
    pub closed spec fn conn(&self) -> CRConnection {
        self.connection
    }

    pub closed spec fn unsaved(&self) -> bool {
        self.unsaved
    }

    pub closed spec fn visible(&self) -> bool {
        self.visible
    }

    /// A saved, visible connection.
    pub fn new(connection: CRConnection) -> (r: Self)
        ensures
            r.conn() == connection,
            !r.unsaved(),
            r.visible(),
    {
        CRRemoteConnection { connection, unsaved: false, visible: true }
    }

    pub fn get_connection(&self) -> (r: &CRConnection)
        ensures
            *r == self.conn(),
    {
        &self.connection
    }

    pub fn get_unsaved(&self) -> (r: bool)
        ensures
            r == self.unsaved(),
    {
        self.unsaved
    }

    pub fn get_visible(&self) -> (r: bool)
        ensures
            r == self.visible(),
    {
        self.visible
    }

    /// Commits the connection: it must pass `verify`; it is then saved.
    pub fn commit_changes(&mut self) -> (r: NetctlResult<()>)
        ensures
            final(self).conn() == old(self).conn(),
            final(self).visible() == old(self).visible(),
            (old(self).conn().connection.id@.len() != 0 && old(self).conn().connection.uuid@.len()
                != 0) ==> r is Ok && !final(self).unsaved(),
            !(old(self).conn().connection.id@.len() != 0 && old(self).conn().connection.uuid@.len()
                != 0) ==> r is Err && final(self).unsaved() == old(self).unsaved(),
    {
        match self.connection.verify() {
            Err(e) => {
                return Err(e);
            },
            Ok(()) => {},
        }
        self.unsaved = false;
        Ok(())
    }

    /// Saves the connection (as `commit_changes`).
    pub fn save(&mut self) -> (r: NetctlResult<()>)
        ensures
            final(self).conn() == old(self).conn(),
            (old(self).conn().connection.id@.len() != 0 && old(self).conn().connection.uuid@.len()
                != 0) ==> r is Ok && !final(self).unsaved(),
            !(old(self).conn().connection.id@.len() != 0 && old(self).conn().connection.uuid@.len()
                != 0) ==> r is Err && final(self).unsaved() == old(self).unsaved(),
    {
        self.commit_changes()
    }

    /// Replaces the connection; it is then unsaved.
    pub fn update(&mut self, new_connection: CRConnection)
        ensures
            final(self).conn() == new_connection,
            final(self).unsaved(),
            final(self).visible() == old(self).visible(),
    {
        self.connection = new_connection;
        self.unsaved = true;
    }
}

} // verus!
