//! CR WiFi D-Bus interface
//!
//! The state behind `org.crrouter.NetworkControl.WiFi`: the access points
//! of the last scan, the current network and the radio and scan switches.

use vstd::prelude::*;
use crate::text::{decimal, push_decimal};
use crate::cr_dbus::types::{CRAccessPointInfo, CRWiFiSecurity, wifi_security_code, wifi_mode_code};
use crate::cr_dbus::props::{PropValue, PropView, DbusError, props_view, push_prop};
use crate::cr_dbus::dhcp::{DbusErrorView, error_view};

verus! {

/// The properties of an access point: SSID, BSSID, strength, security
/// number, frequency and mode number.
pub open spec fn access_point_view(ap: CRAccessPointInfo) -> Seq<(Seq<char>, PropView)> {
    seq![
        ("SSID"@, PropView::Str(ap.ssid@)),
        ("BSSID"@, PropView::Str(ap.bssid@)),
        ("Strength"@, PropView::U32(ap.strength as u32)),
        ("Security"@, PropView::U32(wifi_security_code(ap.security))),
        ("Frequency"@, PropView::U32(ap.frequency)),
        ("Mode"@, PropView::U32(wifi_mode_code(ap.mode))),
    ]
}

/// The security type a bus number stands for.
pub open spec fn security_of_code(n: u32) -> Option<CRWiFiSecurity> {
    if n == 0 {
        Some(CRWiFiSecurity::Open)
    } else if n == 1 {
        Some(CRWiFiSecurity::Wep)
    } else if n == 2 {
        Some(CRWiFiSecurity::Wpa)
    } else if n == 3 {
        Some(CRWiFiSecurity::Wpa2)
    } else if n == 4 {
        Some(CRWiFiSecurity::Wpa3)
    } else if n == 5 {
        Some(CRWiFiSecurity::Enterprise)
    } else {
        None
    }
}

/// WiFi state
pub struct CRWiFi {
    access_points: Vec<CRAccessPointInfo>,
    current_ssid: Option<String>,
    enabled: bool,
    scanning: bool,
}

impl CRWiFi {
    pub closed spec fn access_points(&self) -> Seq<CRAccessPointInfo> {
        self.access_points@
    }

    pub closed spec fn current_ssid(&self) -> Option<Seq<char>> {
        match self.current_ssid {
            Some(s) => Some(s@),
            None => None,
        }
    }

    pub closed spec fn enabled(&self) -> bool {
        self.enabled
    }

    pub closed spec fn scanning(&self) -> bool {
        self.scanning
    }

    /// No access point, not connected, radio on, not scanning.
    pub fn new() -> (w: Self)
        ensures
            w.access_points().len() == 0,
            w.current_ssid() is None,
            w.enabled(),
            !w.scanning(),
    {
        CRWiFi { access_points: Vec::new(), current_ssid: None, enabled: true, scanning: false }
    }

    /// Replace the access points with those of a scan.
    pub fn update_access_points(&mut self, aps: Vec<CRAccessPointInfo>)
        ensures
            final(self).access_points() == aps@,
            final(self).current_ssid() == old(self).current_ssid(),
            final(self).enabled() == old(self).enabled(),
            final(self).scanning() == old(self).scanning(),
    {
        self.access_points = aps;
    }

    /// Record the network connected to (none when disconnected).
    pub fn set_current_ssid(&mut self, ssid: Option<String>)
        ensures
            final(self).current_ssid() == match ssid {
                Some(s) => Some(s@),
                None => None::<Seq<char>>,
            },
            final(self).access_points() == old(self).access_points(),
            final(self).enabled() == old(self).enabled(),
    {
        self.current_ssid = ssid;
    }

    pub fn set_enabled_internal(&mut self, enabled: bool)
        ensures
            final(self).enabled() == enabled,
            final(self).scanning() == old(self).scanning(),
            final(self).current_ssid() == old(self).current_ssid(),
            final(self).access_points() == old(self).access_points(),
    {
        self.enabled = enabled;
    }

    pub fn set_scanning(&mut self, scanning: bool)
        ensures
            final(self).scanning() == scanning,
            final(self).enabled() == old(self).enabled(),
            final(self).current_ssid() == old(self).current_ssid(),
            final(self).access_points() == old(self).access_points(),
    {
        self.scanning = scanning;
    }

    pub fn get_enabled(&self) -> (r: bool)
        ensures
            r == self.enabled(),
    {
        self.enabled
    }

    /// Scan: the scan is marked as running (the scan itself is done by
    /// the service).
    pub fn scan(&mut self) -> (r: Result<(), DbusError>)
        ensures
            r is Ok,
            final(self).scanning(),
            final(self).enabled() == old(self).enabled(),
            final(self).access_points() == old(self).access_points(),
    {
        self.set_scanning(true);
        Ok(())
    }

    /// GetAccessPoints
    pub fn get_access_points(&self) -> (r: Vec<Vec<(String, PropValue)>>)
        ensures
            r@.len() == self.access_points().len(),
            forall|i: int|
                0 <= i < r@.len() ==> props_view(#[trigger] r@[i]@) == access_point_view(self.access_points()[i]),
    {
        let mut result: Vec<Vec<(String, PropValue)>> = Vec::new();
        let mut i: usize = 0;
        while i < self.access_points.len()
            invariant
                i <= self.access_points@.len(),
                result@.len() == i,
                forall|j: int|
                    0 <= j < i ==> props_view(#[trigger] result@[j]@) == access_point_view(self.access_points@[j]),
            decreases self.access_points@.len() - i,
        {
            let ap = &self.access_points[i];
            let mut info: Vec<(String, PropValue)> = Vec::new();
            push_prop(&mut info, "SSID", PropValue::Str(ap.ssid.clone()));
            push_prop(&mut info, "BSSID", PropValue::Str(ap.bssid.clone()));
            push_prop(&mut info, "Strength", PropValue::U32(ap.strength as u32));
            push_prop(&mut info, "Security", PropValue::U32(ap.security.code()));
            push_prop(&mut info, "Frequency", PropValue::U32(ap.frequency));
            push_prop(&mut info, "Mode", PropValue::U32(ap.mode.code()));
            assert(props_view(info@) =~= access_point_view(self.access_points@[i as int]));
            result.push(info);
            i += 1;
        }
        result
    }

    /// GetCurrentSsid: the current network, empty when disconnected.
    pub fn get_current_ssid(&self) -> (r: String)
        ensures
            r@ == match self.current_ssid() {
                Some(s) => s,
                None => Seq::<char>::empty(),
            },
    {
        match &self.current_ssid {
            Some(s) => s.clone(),
            None => String::new(),
        }
    }

    /// Connect: the security number must name a security type (the
    /// connection itself is made by the service).
    pub fn connect(&self, ssid: &str, password: &str, security: u32) -> (r: Result<(), DbusError>)
        ensures
            security_of_code(security) is Some ==> r is Ok,
            security_of_code(security) is None ==> (r matches Err(e) && error_view(e)
                == DbusErrorView::InvalidArgs("Invalid security type: "@ + decimal(security as nat))),
    {
        if security > 5 {
            let mut m = "Invalid security type: ".to_string();
            push_decimal(&mut m, security as u64);
            return Err(DbusError::InvalidArgs(m));
        }
        Ok(())
    }

    pub fn is_scanning(&self) -> (r: bool)
        ensures
            r == self.scanning(),
    {
        self.scanning
    }
}

impl Default for CRWiFi {
    fn default() -> (w: Self)
        ensures
            w.access_points().len() == 0,
            w.current_ssid() is None,
            w.enabled(),
            !w.scanning(),
    {
        CRWiFi::new()
    }
}

} // verus!
