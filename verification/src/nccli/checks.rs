//! Input checks of the command-line tool: connection names (which become
//! file names), WiFi SSIDs and passwords.

use vstd::prelude::*;
use vstd::string::*;
use vstd::utf8::encode_utf8;
use crate::error::{NetctlError, NetctlResult};
use crate::text::{is_ascii_alphanumeric, has_sub, is_control, is_control_exec, contains_char, contains_str, utf8_len_at_most};

verus! {

/// What `char::is_alphanumeric` says of a character (Unicode alphabetic or
/// numeric).
pub uninterp spec fn unicode_alphanumeric(c: char) -> bool;

/// `char::is_alphanumeric`: whether the character is Unicode alphabetic or
/// numeric.  The contract names that result and states only what holds of
/// ASCII: its letters and digits are alphanumeric, its other characters
/// (punctuation, space, controls) are not.
#[verifier::external_body]
fn char_is_alphanumeric(c: char) -> (r: bool)
    ensures
        r == unicode_alphanumeric(c),
        is_ascii_alphanumeric(c) ==> r,
        (c as u32) < 128 && !is_ascii_alphanumeric(c) ==> !r,
{
    c.is_alphanumeric()
}

/// Number of bytes of the UTF-8 encoding (what `str::len` counts).
pub open spec fn byte_len(s: Seq<char>) -> nat {
    encode_utf8(s).len()
}

pub open spec fn connection_name_char(c: char) -> bool {
    unicode_alphanumeric(c) || c == '-' || c == '_' || c == '.'
}

/// Why a connection name is refused, if it is: it becomes a file name, so
/// it must be 1 to 64 bytes, hold no path separator or `..`, and only
/// alphanumeric characters, `-`, `_` and `.`.
pub open spec fn connection_name_error(name: Seq<char>) -> Option<Seq<char>> {
    if name.len() == 0 {
        Some("Connection name cannot be empty"@)
    } else if byte_len(name) > 64 {
        Some("Connection name too long (max 64 chars)"@)
    } else if name.contains('/') || name.contains('\\') || has_sub(name, ".."@) {
        Some("Connection name contains invalid path characters"@)
    } else if exists|i: int| 0 <= i < name.len() && !connection_name_char(#[trigger] name[i]) {
        Some("Connection name can only contain alphanumeric, dash, underscore, or dot"@)
    } else {
        None
    }
}

/// The check result for a refusal message.
pub open spec fn checked(err: Option<Seq<char>>, r: NetctlResult<()>) -> bool {
    match err {
        None => r is Ok,
        Some(msg) => r matches Err(NetctlError::InvalidParameter(m)) && m@ == msg,
    }
}

/// Validate connection name to prevent path traversal attacks
pub fn validate_connection_name(name: &str) -> (r: NetctlResult<()>)
    ensures
        checked(connection_name_error(name@), r),
{
    let n: usize = name.unicode_len();
    if n == 0 {
        return Err(NetctlError::InvalidParameter("Connection name cannot be empty".to_string()));
    }
    if utf8_len_at_most(name, 64).is_none() {
        return Err(
            NetctlError::InvalidParameter("Connection name too long (max 64 chars)".to_string()),
        );
    }
    if contains_char(name, '/') || contains_char(name, '\\') || contains_str(name, "..") {
        return Err(
            NetctlError::InvalidParameter(
                "Connection name contains invalid path characters".to_string(),
            ),
        );
    }
    let mut i: usize = 0;
    while i < n
        invariant
            n == name@.len(),
            i <= n,
            connection_name_error(name@) == (if exists|j: int|
                0 <= j < name@.len() && !connection_name_char(#[trigger] name@[j]) {
                Some("Connection name can only contain alphanumeric, dash, underscore, or dot"@)
            } else {
                None::<Seq<char>>
            }),
            forall|j: int| 0 <= j < i ==> connection_name_char(#[trigger] name@[j]),
        decreases n - i,
    {
        let c: char = name.get_char(i);
        if !(char_is_alphanumeric(c) || c == '-' || c == '_' || c == '.') {
            assert(!connection_name_char(name@[i as int]));
            return Err(
                NetctlError::InvalidParameter(
                    "Connection name can only contain alphanumeric, dash, underscore, or dot".to_string(),
                ),
            );
        }
        i += 1;
    }
    Ok(())
}

/// Why an SSID is refused, if it is: it must be 1 to 32 bytes (IEEE
/// 802.11) and hold no control character.
pub open spec fn ssid_error(ssid: Seq<char>) -> Option<Seq<char>> {
    if ssid.len() == 0 {
        Some("SSID cannot be empty"@)
    } else if byte_len(ssid) > 32 {
        Some("SSID too long (max 32 bytes)"@)
    } else if exists|i: int| 0 <= i < ssid.len() && is_control(#[trigger] ssid[i]) {
        Some("SSID contains invalid control characters"@)
    } else {
        None
    }
}

/// Validate WiFi SSID according to IEEE 802.11 standards
pub fn validate_ssid(ssid: &str) -> (r: NetctlResult<()>)
    ensures
        checked(ssid_error(ssid@), r),
{
    let n: usize = ssid.unicode_len();
    if n == 0 {
        return Err(NetctlError::InvalidParameter("SSID cannot be empty".to_string()));
    }
    if utf8_len_at_most(ssid, 32).is_none() {
        return Err(NetctlError::InvalidParameter("SSID too long (max 32 bytes)".to_string()));
    }
    let mut i: usize = 0;
    while i < n
        invariant
            n == ssid@.len(),
            i <= n,
            ssid_error(ssid@) == (if exists|j: int| 0 <= j < ssid@.len() && is_control(#[trigger] ssid@[j]) {
                Some("SSID contains invalid control characters"@)
            } else {
                None::<Seq<char>>
            }),
            forall|j: int| 0 <= j < i ==> !is_control(#[trigger] ssid@[j]),
        decreases n - i,
    {
        if is_control_exec(ssid.get_char(i)) {
            return Err(
                NetctlError::InvalidParameter("SSID contains invalid control characters".to_string()),
            );
        }
        i += 1;
    }
    Ok(())
}

/// Every character is ASCII.
pub open spec fn all_ascii(s: Seq<char>) -> bool {
    forall|i: int| 0 <= i < s.len() ==> (#[trigger] s[i] as u32) < 0x80
}

/// Why a WiFi password is refused, if it is: WPA2/WPA3 passphrases are 8
/// to 63 bytes of ASCII.
pub open spec fn wifi_password_error(p: Seq<char>) -> Option<Seq<char>> {
    if byte_len(p) < 8 {
        Some("WiFi password must be at least 8 characters"@)
    } else if byte_len(p) > 63 {
        Some("WiFi password too long (max 63 characters)"@)
    } else if !all_ascii(p) {
        Some("WiFi password must contain only ASCII characters"@)
    } else {
        None
    }
}

/// Validate WiFi password according to WPA2/WPA3 requirements
pub fn validate_wifi_password(password: &str) -> (r: NetctlResult<()>)
    ensures
        checked(wifi_password_error(password@), r),
{
    match utf8_len_at_most(password, 63) {
        None => {
            return Err(
                NetctlError::InvalidParameter("WiFi password too long (max 63 characters)".to_string()),
            );
        },
        Some(len) => {
            if len < 8 {
                return Err(
                    NetctlError::InvalidParameter(
                        "WiFi password must be at least 8 characters".to_string(),
                    ),
                );
            }
        },
    }
    let n: usize = password.unicode_len();
    let mut i: usize = 0;
    while i < n
        invariant
            n == password@.len(),
            i <= n,
            8 <= byte_len(password@) <= 63,
            forall|j: int| 0 <= j < i ==> (#[trigger] password@[j] as u32) < 0x80,
        decreases n - i,
    {
        let c: char = password.get_char(i);
        if (c as u32) >= 0x80 {
            assert(!all_ascii(password@));
            return Err(
                NetctlError::InvalidParameter(
                    "WiFi password must contain only ASCII characters".to_string(),
                ),
            );
        }
        i += 1;
    }
    Ok(())
}

} // verus!
