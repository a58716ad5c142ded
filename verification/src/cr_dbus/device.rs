//! CR Device D-Bus interface
//!
//! The state behind `org.crrouter.NetworkControl.Device`: one device, its
//! properties and its autoconnect and managed switches.

use vstd::prelude::*;
use crate::cr_dbus::types::{CRDeviceInfo, CRDeviceState, CRDeviceType, device_type_code, device_state_code};
use crate::cr_dbus::props::{PropValue, PropView, DbusError, props_view, push_prop};

verus! {

/// The text of an optional property, empty when unset.
pub open spec fn or_empty(o: Option<String>) -> Seq<char> {
    match o {
        Some(s) => s@,
        None => Seq::empty(),
    }
}

fn text_or_empty(o: &Option<String>) -> (r: String)
    ensures
        r@ == or_empty(*o),
{
    match o {
        Some(s) => s.clone(),
        None => String::new(),
    }
}

/// All properties of a device: interface, type and state numbers, MTU,
/// then the addresses that are known.
pub open spec fn all_properties_view(d: CRDeviceInfo) -> Seq<(Seq<char>, PropView)> {
    seq![
        ("Interface"@, PropView::Str(d.interface@)),
        ("DeviceType"@, PropView::U32(device_type_code(d.device_type))),
        ("State"@, PropView::U32(device_state_code(d.state))),
        ("Mtu"@, PropView::U32(d.mtu)),
    ] + (match d.ipv4_address {
        Some(a) => seq![("IPv4Address"@, PropView::Str(a@))],
        None => Seq::empty(),
    }) + (match d.ipv6_address {
        Some(a) => seq![("IPv6Address"@, PropView::Str(a@))],
        None => Seq::empty(),
    }) + (match d.hw_address {
        Some(a) => seq![("HwAddress"@, PropView::Str(a@))],
        None => Seq::empty(),
    })
}

/// One device on the bus
pub struct CRDevice {
    info: CRDeviceInfo,
    autoconnect: bool,
    managed: bool,
}

impl CRDevice {
    pub closed spec fn info(&self) -> CRDeviceInfo {
        self.info
    }

    pub closed spec fn autoconnect(&self) -> bool {
        self.autoconnect
    }

    pub closed spec fn managed(&self) -> bool {
        self.managed
    }

    /// A device that connects automatically and is managed.
    pub fn new(info: CRDeviceInfo) -> (d: Self)
        ensures
            d.info() == info,
            d.autoconnect(),
            d.managed(),
    {
        CRDevice { info, autoconnect: true, managed: true }
    }

    pub fn set_state(&mut self, state: CRDeviceState)
        ensures
            final(self).info() == (CRDeviceInfo { state, ..old(self).info() }),
            final(self).autoconnect() == old(self).autoconnect(),
            final(self).managed() == old(self).managed(),
    {
        self.info.state = state;
    }

    pub fn set_ipv4_address(&mut self, address: Option<String>)
        ensures
            final(self).info() == (CRDeviceInfo { ipv4_address: address, ..old(self).info() }),
            final(self).autoconnect() == old(self).autoconnect(),
            final(self).managed() == old(self).managed(),
    {
        self.info.ipv4_address = address;
    }

    pub fn set_ipv6_address(&mut self, address: Option<String>)
        ensures
            final(self).info() == (CRDeviceInfo { ipv6_address: address, ..old(self).info() }),
            final(self).autoconnect() == old(self).autoconnect(),
            final(self).managed() == old(self).managed(),
    {
        self.info.ipv6_address = address;
    }

    pub fn get_info(&self) -> (r: &CRDeviceInfo)
        ensures
            *r == self.info(),
    {
        &self.info
    }

    pub fn get_interface(&self) -> (r: String)
        ensures
            r@ == self.info().interface@,
    {
        self.info.interface.clone()
    }

    pub fn get_device_type(&self) -> (r: u32)
        ensures
            r == device_type_code(self.info().device_type),
    {
        self.info.device_type.code()
    }

    pub fn get_state(&self) -> (r: u32)
        ensures
            r == device_state_code(self.info().state),
    {
        self.info.state.code()
    }

    pub fn get_ipv4_address(&self) -> (r: String)
        ensures
            r@ == or_empty(self.info().ipv4_address),
    {
        text_or_empty(&self.info.ipv4_address)
    }

    pub fn get_ipv6_address(&self) -> (r: String)
        ensures
            r@ == or_empty(self.info().ipv6_address),
    {
        text_or_empty(&self.info.ipv6_address)
    }

    pub fn get_hw_address(&self) -> (r: String)
        ensures
            r@ == or_empty(self.info().hw_address),
    {
        text_or_empty(&self.info.hw_address)
    }

    pub fn get_mtu(&self) -> (r: u32)
        ensures
            r == self.info().mtu,
    {
        self.info.mtu
    }

    /// GetAllProperties
    pub fn get_all_properties(&self) -> (r: Vec<(String, PropValue)>)
        ensures
            props_view(r@) == all_properties_view(self.info()),
    {
        let mut props: Vec<(String, PropValue)> = Vec::new();
        push_prop(&mut props, "Interface", PropValue::Str(self.info.interface.clone()));
        push_prop(&mut props, "DeviceType", PropValue::U32(self.info.device_type.code()));
        push_prop(&mut props, "State", PropValue::U32(self.info.state.code()));
        push_prop(&mut props, "Mtu", PropValue::U32(self.info.mtu));
        match &self.info.ipv4_address {
            Some(a) => push_prop(&mut props, "IPv4Address", PropValue::Str(a.clone())),
            None => {},
        }
        match &self.info.ipv6_address {
            Some(a) => push_prop(&mut props, "IPv6Address", PropValue::Str(a.clone())),
            None => {},
        }
        match &self.info.hw_address {
            Some(a) => push_prop(&mut props, "HwAddress", PropValue::Str(a.clone())),
            None => {},
        }
        assert(props_view(props@) =~= all_properties_view(self.info()));
        props
    }

    /// SetMtu: the MTU is recorded.
    pub fn set_mtu(&mut self, mtu: u32) -> (r: Result<(), DbusError>)
        ensures
            r is Ok,
            final(self).info() == (CRDeviceInfo { mtu, ..old(self).info() }),
            final(self).autoconnect() == old(self).autoconnect(),
            final(self).managed() == old(self).managed(),
    {
        self.info.mtu = mtu;
        Ok(())
    }

    /// SetAutoconnect
    pub fn set_autoconnect(&mut self, enabled: bool) -> (r: Result<(), DbusError>)
        ensures
            r is Ok,
            final(self).autoconnect() == enabled,
            final(self).info() == old(self).info(),
            final(self).managed() == old(self).managed(),
    {
        self.autoconnect = enabled;
        Ok(())
    }

    pub fn get_autoconnect(&self) -> (r: bool)
        ensures
            r == self.autoconnect(),
    {
        self.autoconnect
    }

    /// SetManaged
    pub fn set_managed(&mut self, managed: bool) -> (r: Result<(), DbusError>)
        ensures
            r is Ok,
            final(self).managed() == managed,
            final(self).info() == old(self).info(),
            final(self).autoconnect() == old(self).autoconnect(),
    {
        self.managed = managed;
        Ok(())
    }

    pub fn get_managed(&self) -> (r: bool)
        ensures
            r == self.managed(),
    {
        self.managed
    }
}

impl Default for CRDevice {
    /// An unknown device named "unknown".
    fn default() -> (d: Self)
        ensures
            d.info().interface@ == "unknown"@,
            d.info().device_type == CRDeviceType::Unknown,
            d.autoconnect(),
            d.managed(),
    {
        CRDevice::new(CRDeviceInfo::new("unknown".to_string(), CRDeviceType::Unknown))
    }
}

} // verus!
