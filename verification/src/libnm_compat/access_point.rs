//! CRAccessPoint - WiFi access point (libnm NMAccessPoint equivalent)

use vstd::prelude::*;
use vstd::string::*;
use vstd::utf8::encode_utf8;
use crate::text::{has_sub, contains_str, remove_char, without_char};
use crate::clock::unix_now_secs;

verus! {

/// Access point operating mode (NM80211Mode)
#[derive(Debug, Clone, Copy, PartialEq, Eq, Structural)]
pub enum CRAccessPointMode {
    Unknown,
    Adhoc,
    Infra,
    Ap,
    Mesh,
}

/// The libnm number of each mode.
pub open spec fn access_point_mode_code(m: CRAccessPointMode) -> u32 {
    match m {
        CRAccessPointMode::Unknown => 0,
        CRAccessPointMode::Adhoc => 1,
        CRAccessPointMode::Infra => 2,
        CRAccessPointMode::Ap => 3,
        CRAccessPointMode::Mesh => 4,
    }
}

impl CRAccessPointMode {
    /// The libnm number of the mode.
    pub fn code(&self) -> (r: u32)
        ensures
            r == access_point_mode_code(*self),
    {
        match self {
            CRAccessPointMode::Unknown => 0,
            CRAccessPointMode::Adhoc => 1,
            CRAccessPointMode::Infra => 2,
            CRAccessPointMode::Ap => 3,
            CRAccessPointMode::Mesh => 4,
        }
    }
}

/// WiFi access point (equivalent to NMAccessPoint)
#[derive(Debug, Clone)]
pub struct CRAccessPoint {
    ssid: String,
    bssid: String,
    frequency: u32,
    channel: u32,
    strength: u8,
    flags: u32,
    wpa_flags: u32,
    rsn_flags: u32,
    mode: CRAccessPointMode,
    max_bitrate: u32,
    last_seen: i64,
}

/// The channel of a frequency, as NetworkManager numbers them: 14 at 2484
/// MHz, 2.4 GHz channels from 2412 MHz in steps of 5 MHz, 5 GHz channels
/// from 5170 to 5825 MHz, 0 otherwise.
pub open spec fn ap_channel(freq: u32) -> u32 {
    if freq == 2484 {
        14
    } else if 2412 <= freq && freq < 2484 {
        ((freq - 2407) / 5) as u32
    } else if 5170 <= freq && freq <= 5825 {
        ((freq - 5000) / 5) as u32
    } else {
        0
    }
}

/// Some capability mentions `word`.
pub open spec fn mentions(caps: Seq<String>, word: Seq<char>) -> bool {
    exists|i: int| 0 <= i < caps.len() && has_sub(#[trigger] caps[i]@, word)
}

/// The RSN/WPA flags set for a protected network: in NetworkManager's
/// flag bits, pairwise TKIP (0x4), group TKIP (0x40), PSK key management
/// (0x100) and 802.1X key management (0x200).
pub const SECURITY_FLAGS: u32 = 0x344;

/// NetworkManager's SAE key management bit, the mark of WPA3.
pub const KEY_MGMT_SAE: u32 = 0x400;

/// The RSN flags set for a WPA3 network: those of `SECURITY_FLAGS` and SAE
/// key management (0x400).
pub const WPA3_FLAGS: u32 = 0x744;

fn any_mentions(caps: &Vec<String>, word: &str) -> (r: bool)
    ensures
        r == mentions(caps@, word@),
{
    let mut i: usize = 0;
    while i < caps.len()
        invariant
            i <= caps@.len(),
            forall|j: int| 0 <= j < i ==> !has_sub(#[trigger] caps@[j]@, word@),
        decreases caps@.len() - i,
    {
        if contains_str(caps[i].as_str(), word) {
            return true;
        }
        i += 1;
    }
    false
}

impl CRAccessPoint {
    pub closed spec fn ssid_text(&self) -> Seq<char> {
        self.ssid@
    }

    pub closed spec fn bssid_text(&self) -> Seq<char> {
        self.bssid@
    }

    pub closed spec fn frequency(&self) -> u32 {
        self.frequency
    }

    pub closed spec fn channel(&self) -> u32 {
        self.channel
    }

    pub closed spec fn strength(&self) -> u8 {
        self.strength
    }

    pub closed spec fn flags(&self) -> u32 {
        self.flags
    }

    pub closed spec fn wpa_flags(&self) -> u32 {
        self.wpa_flags
    }

    pub closed spec fn rsn_flags(&self) -> u32 {
        self.rsn_flags
    }

    pub closed spec fn mode(&self) -> CRAccessPointMode {
        self.mode
    }

    pub closed spec fn max_bitrate(&self) -> u32 {
        self.max_bitrate
    }

    pub closed spec fn last_seen(&self) -> i64 {
        self.last_seen
    }

    /// An access point from a scan result: its SSID (empty when hidden),
    /// BSSID, frequency (0 when unknown), capabilities, the signal strength
    /// in percent and the time it was seen.  WPA, WPA2/RSN, WPA3 and
    /// WEP/Privacy capabilities set the security flags; the mode is
    /// infrastructure and the bit rate 54 Mbit/s.
    pub fn from_scan_data(
        ssid: Option<String>,
        bssid: String,
        frequency: Option<u32>,
        capabilities: &Vec<String>,
        strength: u8,
        last_seen: i64,
    ) -> (ap: Self)
        ensures
            ap.ssid_text() == match ssid {
                Some(s) => s@,
                None => Seq::<char>::empty(),
            },
            ap.bssid_text() == bssid@,
            ap.frequency() == match frequency {
                Some(f) => f,
                None => 0,
            },
            ap.channel() == ap_channel(ap.frequency()),
            ap.strength() == strength,
            ap.flags() == if mentions(capabilities@, "WPA"@) || mentions(capabilities@, "WEP"@)
                || mentions(capabilities@, "Privacy"@) {
                1u32
            } else {
                0u32
            },
            ap.wpa_flags() == if mentions(capabilities@, "WPA"@) && !(mentions(capabilities@, "WPA2"@)
                || mentions(capabilities@, "RSN"@)) {
                SECURITY_FLAGS
            } else {
                0u32
            },
            ap.rsn_flags() == if mentions(capabilities@, "WPA3"@) {
                WPA3_FLAGS
            } else if mentions(capabilities@, "WPA2"@) || mentions(capabilities@, "RSN"@) {
                SECURITY_FLAGS
            } else {
                0u32
            },
            ap.mode() == CRAccessPointMode::Infra,
            ap.max_bitrate() == 54000,
            ap.last_seen() == last_seen,
    {
        let freq: u32 = match frequency {
            Some(f) => f,
            None => 0,
        };
        let channel: u32 = if freq == 2484 {
            14
        } else if 2412 <= freq && freq < 2484 {
            (freq - 2407) / 5
        } else if 5170 <= freq && freq <= 5825 {
            (freq - 5000) / 5
        } else {
            0
        };
        let has_wpa = any_mentions(capabilities, "WPA");
        let has_wpa2 = any_mentions(capabilities, "WPA2") || any_mentions(capabilities, "RSN");
        let has_wpa3 = any_mentions(capabilities, "WPA3");
        let has_wep = any_mentions(capabilities, "WEP") || any_mentions(capabilities, "Privacy");
        let text = match ssid {
            Some(s) => s,
            None => String::new(),
        };
        CRAccessPoint {
            ssid: text,
            bssid,
            frequency: freq,
            channel,
            strength,
            flags: if has_wpa || has_wep {
                1
            } else {
                0
            },
            wpa_flags: if has_wpa && !has_wpa2 {
                SECURITY_FLAGS
            } else {
                0
            },
            rsn_flags: if has_wpa3 {
                WPA3_FLAGS
            } else if has_wpa2 {
                SECURITY_FLAGS
            } else {
                0
            },
            mode: CRAccessPointMode::Infra,
            max_bitrate: 54000,
            last_seen,
        }
    }

    /// An access point from a scan result seen now: as `from_scan_data`,
    /// with the clock's reading in seconds since the Unix epoch as the time
    /// it was seen (whatever the clock gives; only that it is not negative
    /// is stated).  A clock set before the epoch is recorded as 0, and one
    /// beyond the range of `i64` as `i64::MAX`.
    pub fn from_scan_result(
        ssid: Option<String>,
        bssid: String,
        frequency: Option<u32>,
        capabilities: &Vec<String>,
        strength: u8,
    ) -> (ap: Self)
        ensures
            ap.ssid_text() == match ssid {
                Some(s) => s@,
                None => Seq::<char>::empty(),
            },
            ap.bssid_text() == bssid@,
            ap.frequency() == match frequency {
                Some(f) => f,
                None => 0,
            },
            ap.channel() == ap_channel(ap.frequency()),
            ap.strength() == strength,
            ap.flags() == if mentions(capabilities@, "WPA"@) || mentions(capabilities@, "WEP"@)
                || mentions(capabilities@, "Privacy"@) {
                1u32
            } else {
                0u32
            },
            ap.wpa_flags() == if mentions(capabilities@, "WPA"@) && !(mentions(capabilities@, "WPA2"@)
                || mentions(capabilities@, "RSN"@)) {
                SECURITY_FLAGS
            } else {
                0u32
            },
            ap.rsn_flags() == if mentions(capabilities@, "WPA3"@) {
                WPA3_FLAGS
            } else if mentions(capabilities@, "WPA2"@) || mentions(capabilities@, "RSN"@) {
                SECURITY_FLAGS
            } else {
                0u32
            },
            ap.mode() == CRAccessPointMode::Infra,
            ap.max_bitrate() == 54000,
            ap.last_seen() >= 0,
    {
        let now: i64 = match unix_now_secs() {
            Some(secs) => if secs <= i64::MAX as u64 {
                secs as i64
            } else {
                i64::MAX
            },
            None => 0,
        };
        CRAccessPoint::from_scan_data(ssid, bssid, frequency, capabilities, strength, now)
    }

    /// The SSID bytes.
    pub fn get_ssid(&self) -> (r: &[u8])
        ensures
            r@ == encode_utf8(self.ssid_text()),
    {
        self.ssid.as_str().as_bytes()
    }

    /// The SSID as text.
    pub fn get_ssid_string(&self) -> (r: String)
        ensures
            r@ == self.ssid_text(),
    {
        self.ssid.clone()
    }

    pub fn get_bssid(&self) -> (r: &str)
        ensures
            r@ == self.bssid_text(),
    {
        self.bssid.as_str()
    }

    pub fn get_frequency(&self) -> (r: u32)
        ensures
            r == self.frequency(),
    {
        self.frequency
    }

    pub fn get_channel(&self) -> (r: u32)
        ensures
            r == self.channel(),
    {
        self.channel
    }

    pub fn get_strength(&self) -> (r: u8)
        ensures
            r == self.strength(),
    {
        self.strength
    }

    pub fn get_flags(&self) -> (r: u32)
        ensures
            r == self.flags(),
    {
        self.flags
    }

    pub fn get_wpa_flags(&self) -> (r: u32)
        ensures
            r == self.wpa_flags(),
    {
        self.wpa_flags
    }

    pub fn get_rsn_flags(&self) -> (r: u32)
        ensures
            r == self.rsn_flags(),
    {
        self.rsn_flags
    }

    pub fn get_mode(&self) -> (r: CRAccessPointMode)
        ensures
            r == self.mode(),
    {
        self.mode
    }

    pub fn get_max_bitrate(&self) -> (r: u32)
        ensures
            r == self.max_bitrate(),
    {
        self.max_bitrate
    }

    pub fn get_last_seen(&self) -> (r: i64)
        ensures
            r == self.last_seen(),
    {
        self.last_seen
    }

    /// The D-Bus object path: the BSSID without its colons.
    pub fn get_path(&self) -> (r: String)
        ensures
            r@ == "/org/freedesktop/NetworkManager/AccessPoint/"@ + without_char(self.bssid_text(), ':'),
    {
        let mut p = "/org/freedesktop/NetworkManager/AccessPoint/".to_string();
        let b = remove_char(self.bssid.as_str(), ':');
        p.append(b.as_str());
        p
    }

    /// Whether any security flag is set.
    pub fn is_secured(&self) -> (r: bool)
        ensures
            r == (self.wpa_flags() != 0 || self.rsn_flags() != 0 || self.flags() != 0),
    {
        self.wpa_flags != 0 || self.rsn_flags != 0 || self.flags != 0
    }

    /// The security of the network, read from NetworkManager's flag bits:
    /// with RSN flags, WPA3 when SAE key management (0x400) is among them,
    /// else WPA2; then WPA, WEP, or Open.
    pub fn get_security_type(&self) -> (r: String)
        ensures
            r@ == if self.rsn_flags() != 0 {
                if self.rsn_flags() & KEY_MGMT_SAE != 0 {
                    "WPA3"@
                } else {
                    "WPA2"@
                }
            } else if self.wpa_flags() != 0 {
                "WPA"@
            } else if self.flags() != 0 {
                "WEP"@
            } else {
                "Open"@
            },
    {
        if self.rsn_flags != 0 {
            if self.rsn_flags & KEY_MGMT_SAE != 0 {
                "WPA3".to_string()
            } else {
                "WPA2".to_string()
            }
        } else if self.wpa_flags != 0 {
            "WPA".to_string()
        } else if self.flags != 0 {
            "WEP".to_string()
        } else {
            "Open".to_string()
        }
    }
}

} // verus!
