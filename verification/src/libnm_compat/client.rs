//! CRClient - Main NetworkManager client (libnm NMClient equivalent)
//!
//! The overall state and connectivity, and the client's queries over the
//! devices the device layer lists.  Listing the devices and bringing
//! interfaces up and down are left to the caller.

use vstd::prelude::*;
use crate::error::{NetctlError, NetctlResult};
use crate::text::eq_str;
use crate::connection_config::last_char_index;
use crate::dbus::last_segment;
use crate::cr_dbus::VERSION;
use crate::libnm_compat::device::{CRDevice, CRDeviceState, cr_state_of};
use crate::libnm_compat::connection::{CRConnection, fresh_uuid_text};
use crate::libnm_compat::active_connection::CRActiveConnection;
use crate::libnm_compat::enums::{CRState, CRConnectivityState};

verus! {

/// Whether a device is activated (its link is up).
pub open spec fn is_activated(d: CRDevice) -> bool {
    cr_state_of(d.dev().state) == CRDeviceState::Activated
}

/// The positions of the activated devices, in order.
pub open spec fn activated_indices(devices: Seq<CRDevice>) -> Seq<int>
    decreases devices.len(),
{
    if devices.len() == 0 {
        Seq::empty()
    } else {
        let rest = activated_indices(devices.drop_last());
        if is_activated(devices.last()) {
            rest.push(devices.len() - 1)
        } else {
            rest
        }
    }
}

proof fn lemma_activated_indices(devices: Seq<CRDevice>)
    ensures
        forall|k: int|
            0 <= k < activated_indices(devices).len() ==> 0 <= #[trigger] activated_indices(devices)[k]
                < devices.len() && is_activated(devices[activated_indices(devices)[k]]),
        forall|k: int, l: int|
            0 <= k < l < activated_indices(devices).len() ==> #[trigger] activated_indices(devices)[k]
                < #[trigger] activated_indices(devices)[l],
        activated_indices(devices).len() == 0 <==> forall|i: int|
            0 <= i < devices.len() ==> !is_activated(#[trigger] devices[i]),
        activated_indices(devices).len() > 0 ==> forall|i: int|
            0 <= i < activated_indices(devices)[0] ==> !is_activated(#[trigger] devices[i]),
    decreases devices.len(),
{
    if devices.len() > 0 {
        let init = devices.drop_last();
        lemma_activated_indices(init);
        assert forall|i: int| 0 <= i < init.len() implies init[i] == devices[i] by {}
        if activated_indices(init).len() == 0 && is_activated(devices.last()) {
            assert forall|i: int| 0 <= i < activated_indices(devices)[0] implies !is_activated(
                #[trigger] devices[i],
            ) by {
                assert(devices[i] == init[i]);
            }
        }
        if !is_activated(devices.last()) && activated_indices(init).len() == 0 {
            assert forall|i: int| 0 <= i < devices.len() implies !is_activated(#[trigger] devices[i]) by {
                if i < init.len() {
                    assert(devices[i] == init[i]);
                }
            }
        }
        if activated_indices(devices).len() == 0 {
            assert forall|i: int| 0 <= i < devices.len() implies !is_activated(#[trigger] devices[i]) by {
                if i < init.len() {
                    assert(devices[i] == init[i]);
                }
            }
        }
    }
}

/// The active connection reported for an activated device.
pub open spec fn active_connection_of(d: CRDevice, a: CRActiveConnection) -> bool {
    &&& a.id() == d.dev().name@ + " active"@
    &&& fresh_uuid_text(a.uuid())
    &&& a.dev() is Some
    &&& cloned(d, a.dev()->0)
}

/// Main NetworkManager client (equivalent to NMClient)
pub struct CRClient {
    state: CRState,
    connectivity: CRConnectivityState,
}

impl CRClient {
    pub closed spec fn state(&self) -> CRState {
        self.state
    }

    pub closed spec fn connectivity(&self) -> CRConnectivityState {
        self.connectivity
    }

    /// A client of a connected system: globally connected, full
    /// connectivity.
    pub fn new() -> (c: Self)
        ensures
            c.state() == CRState::ConnectedGlobal,
            c.connectivity() == CRConnectivityState::Full,
    {
        CRClient { state: CRState::ConnectedGlobal, connectivity: CRConnectivityState::Full }
    }

    /// As `new`.
    pub fn new_async() -> (c: Self)
        ensures
            c.state() == CRState::ConnectedGlobal,
            c.connectivity() == CRConnectivityState::Full,
    {
        CRClient::new()
    }

    /// The first of the devices with the interface name.
    pub fn get_device_by_iface(&self, devices: Vec<CRDevice>, iface: &str) -> (r: Option<CRDevice>)
        ensures
            match r {
                Some(d) => exists|i: int|
                    0 <= i < devices@.len() && devices@[i] == d && d.dev().name@ == iface@ && forall|j: int|
                        0 <= j < i ==> (#[trigger] devices@[j]).dev().name@ != iface@,
                None => forall|j: int| 0 <= j < devices@.len() ==> (#[trigger] devices@[j]).dev().name@ != iface@,
            },
    {
        let ghost all = devices@;
        let mut list = devices;
        let mut i: usize = 0;
        while i < list.len()
            invariant
                list@ == all,
                all == devices@,
                i <= all.len(),
                forall|j: int| 0 <= j < i ==> (#[trigger] all[j]).dev().name@ != iface@,
            decreases all.len() - i,
        {
            if eq_str(list[i].get_iface(), iface) {
                let d = list.remove(i);
                assert(all[i as int] == d);
                return Some(d);
            }
            i += 1;
        }
        None
    }

    /// The device of an object path: the device whose interface name is the
    /// last segment of the path.
    pub fn get_device_by_path(&self, devices: Vec<CRDevice>, path: &str) -> (r: Option<CRDevice>)
        ensures
            match r {
                Some(d) => exists|i: int|
                    0 <= i < devices@.len() && devices@[i] == d && d.dev().name@ == last_segment(path@)
                        && forall|j: int|
                        0 <= j < i ==> (#[trigger] devices@[j]).dev().name@ != last_segment(path@),
                None => forall|j: int|
                    0 <= j < devices@.len() ==> (#[trigger] devices@[j]).dev().name@ != last_segment(path@),
            },
    {
        let n: usize = path.unicode_len();
        let iface = match last_char_index(path, '/') {
            Some(k) => path.substring_char(k + 1, n),
            None => path,
        };
        self.get_device_by_iface(devices, iface)
    }

    /// The active connections of the activated devices, in order.
    pub fn get_active_connections(&self, devices: &Vec<CRDevice>) -> (r: Vec<CRActiveConnection>)
        ensures
            r@.len() == activated_indices(devices@).len(),
            forall|k: int|
                0 <= k < r@.len() ==> active_connection_of(
                    devices@[activated_indices(devices@)[k]],
                    #[trigger] r@[k],
                ),
    {
        let mut r: Vec<CRActiveConnection> = Vec::new();
        let mut i: usize = 0;
        while i < devices.len()
            invariant
                i <= devices@.len(),
                r@.len() == activated_indices(devices@.take(i as int)).len(),
                forall|k: int|
                    0 <= k < r@.len() ==> active_connection_of(
                        devices@.take(i as int)[activated_indices(devices@.take(i as int))[k]],
                        #[trigger] r@[k],
                    ),
            decreases devices@.len() - i,
        {
            let ghost pre = devices@.take(i as int);
            let ghost next = devices@.take(i + 1);
            proof {
                lemma_activated_indices(pre);
                assert(next.drop_last() =~= pre);
                assert(next.last() == devices@[i as int]);
                assert forall|j: int| 0 <= j < pre.len() implies pre[j] == next[j] by {}
            }
            match devices[i].get_active_connection() {
                Some(a) => {
                    r.push(a);
                },
                None => {},
            }
            i += 1;
        }
        assert(devices@.take(devices@.len() as int) =~= devices@);
        r
    }

    /// The first active connection.
    pub fn get_primary_connection(&self, devices: &Vec<CRDevice>) -> (r: Option<CRActiveConnection>)
        ensures
            match r {
                Some(a) => exists|i: int|
                    0 <= i < devices@.len() && is_activated(devices@[i]) && active_connection_of(
                        devices@[i],
                        a,
                    ) && forall|j: int| 0 <= j < i ==> !is_activated(#[trigger] devices@[j]),
                None => forall|j: int| 0 <= j < devices@.len() ==> !is_activated(#[trigger] devices@[j]),
            },
    {
        let mut all = self.get_active_connections(devices);
        proof {
            lemma_activated_indices(devices@);
        }
        if all.len() == 0 {
            None
        } else {
            let ghost first = activated_indices(devices@)[0];
            let a = all.remove(0);
            assert(active_connection_of(devices@[first], a));
            Some(a)
        }
    }

    /// The connection activated on a device (the device's interface was
    /// brought up): a device is required.
    pub fn activate_connection(&self, connection: &CRConnection, device: Option<&CRDevice>) -> (r:
        NetctlResult<CRActiveConnection>)
        ensures
            device is None ==> (r matches Err(NetctlError::InvalidParameter(m)) && m@
                == "Device required for activation"@),
            device matches Some(d) ==> (r is Ok && cloned(*connection, r->Ok_0.conn())
                && r->Ok_0.dev() is Some && cloned(*d, r->Ok_0.dev()->0) && r->Ok_0.id()
                == r->Ok_0.conn().connection.id@),
    {
        match device {
            None => Err(NetctlError::InvalidParameter("Device required for activation".to_string())),
            Some(d) => CRActiveConnection::new(connection.clone(), Some(d.clone())),
        }
    }

    /// Activates the given connection, or a new one made for the device.
    pub fn add_and_activate_connection(&self, connection: Option<&CRConnection>, device: &CRDevice) -> (r:
        NetctlResult<CRActiveConnection>)
        ensures
            r is Ok && r->Ok_0.dev() is Some && cloned(*device, r->Ok_0.dev()->0),
            connection matches Some(c) ==> (r matches Ok(a) && cloned(*c, a.conn())),
            connection is None ==> (r matches Ok(a) && a.id() == device.dev().name@ + " connection"@
                && fresh_uuid_text(a.uuid())),
    {
        let conn = match connection {
            Some(c) => c.clone(),
            None => match CRConnection::new_for_device(device) {
                Ok(c) => c,
                Err(e) => {
                    return Err(e);
                },
            },
        };
        CRActiveConnection::new(conn, Some(device.clone()))
    }

    /// The interface to bring down for an active connection: its
    /// device's, if it has one.
    pub fn deactivate_connection(&self, active_connection: &CRActiveConnection) -> (r: Option<String>)
        ensures
            match active_connection.dev() {
                Some(d) => r matches Some(i) && i@ == d.dev().name@,
                None => r is None,
            },
    {
        match active_connection.get_device() {
            Some(d) => Some(d.get_iface().to_string()),
            None => None,
        }
    }

    pub fn get_state(&self) -> (r: CRState)
        ensures
            r == self.state(),
    {
        self.state
    }

    pub fn get_connectivity(&self) -> (r: CRConnectivityState)
        ensures
            r == self.connectivity(),
    {
        self.connectivity
    }

    /// The connectivity last known (no check is made).
    pub fn check_connectivity(&self) -> (r: NetctlResult<CRConnectivityState>)
        ensures
            r == Ok::<CRConnectivityState, NetctlError>(self.connectivity()),
    {
        Ok(self.connectivity)
    }

    pub fn networking_get_enabled(&self) -> (r: bool)
        ensures
            r,
    {
        true
    }

    /// Enabling networking makes the state connected (global); disabling
    /// it puts it asleep.
    pub fn networking_set_enabled(&mut self, enabled: bool) -> (r: NetctlResult<()>)
        ensures
            r is Ok,
            final(self).state() == if enabled {
                CRState::ConnectedGlobal
            } else {
                CRState::Asleep
            },
            final(self).connectivity() == old(self).connectivity(),
    {
        self.state = if enabled {
            CRState::ConnectedGlobal
        } else {
            CRState::Asleep
        };
        Ok(())
    }

    pub fn wireless_get_enabled(&self) -> (r: bool)
        ensures
            r,
    {
        true
    }

    /// Accepted; the switch itself is the device layer's.
    pub fn wireless_set_enabled(&mut self, enabled: bool) -> (r: NetctlResult<()>)
        ensures
            r is Ok,
            final(self).state() == old(self).state(),
            final(self).connectivity() == old(self).connectivity(),
    {
        Ok(())
    }

    pub fn get_version(&self) -> (r: String)
        ensures
            r@ == VERSION@,
    {
        VERSION.to_string()
    }

    pub fn get_nm_running(&self) -> (r: bool)
        ensures
            r,
    {
        true
    }
}

impl Default for CRClient {
    fn default() -> (c: Self)
        ensures
            c.state() == CRState::ConnectedGlobal,
            c.connectivity() == CRConnectivityState::Full,
    {
        CRClient::new()
    }
}

} // verus!
