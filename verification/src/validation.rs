//! Input validation for values that reach commands and configuration files.

use vstd::prelude::*;
use vstd::string::*;
use crate::error::{NetctlError, NetctlResult};
use crate::text::{is_ascii_alphanumeric, is_control, split_seq, eq_str, is_ascii_alphanumeric_exec, is_control_exec, split_char};
use crate::ipaddr::{ip_version, ip_version_of};

verus! {

/// Longest interface name the kernel accepts (IFNAMSIZ - 1).
pub const MAX_INTERFACE_NAME_LEN: usize = 15;

/// A character allowed in an interface name.
pub open spec fn is_interface_name_char(c: char) -> bool {
    is_ascii_alphanumeric(c) || c == '-' || c == '_' || c == '.'
}

/// Why an interface name is refused, if it is.
pub open spec fn interface_name_error(name: Seq<char>) -> Option<Seq<char>> {
    if name.len() == 0 {
        Some("Interface name cannot be empty"@)
    } else if name.len() > MAX_INTERFACE_NAME_LEN {
        Some("Interface name too long (max 15 characters)"@)
    } else if name == "."@ || name == ".."@ {
        Some("Invalid interface name"@)
    } else if exists|i: int| 0 <= i < name.len() && !is_interface_name_char(#[trigger] name[i]) {
        Some("Interface name contains invalid characters"@)
    } else {
        None
    }
}

pub open spec fn valid_interface_name(name: Seq<char>) -> bool {
    interface_name_error(name) is None
}

/// Validates a network interface name: 1 to 15 characters, each an ASCII
/// letter or digit, `-`, `_` or `.`, and neither `.` nor `..`.
pub fn validate_interface_name(name: &str) -> (r: NetctlResult<()>)
    ensures
        match interface_name_error(name@) {
            None => r is Ok,
            Some(msg) => r matches Err(NetctlError::InvalidParameter(m)) && m@ == msg,
        },
{
    let n: usize = name.unicode_len();
    if n == 0 {
        return Err(NetctlError::InvalidParameter("Interface name cannot be empty".to_string()));
    }
    if n > MAX_INTERFACE_NAME_LEN {
        return Err(
            NetctlError::InvalidParameter("Interface name too long (max 15 characters)".to_string()),
        );
    }
    if eq_str(name, ".") || eq_str(name, "..") {
        return Err(NetctlError::InvalidParameter("Invalid interface name".to_string()));
    }
    let mut i: usize = 0;
    while i < n
        invariant
            n == name@.len(),
            0 < n <= MAX_INTERFACE_NAME_LEN,
            name@ != "."@ && name@ != ".."@,
            i <= n,
            forall|k: int| 0 <= k < i ==> is_interface_name_char(#[trigger] name@[k]),
        decreases n - i,
    {
        let c: char = name.get_char(i);
        if !(is_ascii_alphanumeric_exec(c) || c == '-' || c == '_' || c == '.') {
            assert(!is_interface_name_char(name@[i as int]));
            assert(interface_name_error(name@) == Some(
                "Interface name contains invalid characters"@,
            ));
            return Err(
                NetctlError::InvalidParameter(
                    "Interface name contains invalid characters".to_string(),
                ),
            );
        }
        i += 1;
    }
    Ok(())
}

pub open spec fn valid_ip_address(s: Seq<char>) -> bool {
    ip_version(s) != 0
}

/// Validates an IPv4 or IPv6 address literal.
pub fn validate_ip_address(ip: &str) -> (r: NetctlResult<()>)
    ensures
        valid_ip_address(ip@) ==> r is Ok,
        !valid_ip_address(ip@) ==> (r matches Err(NetctlError::InvalidParameter(m)) && m@
            == "Invalid IP address: "@ + ip@),
{
    if ip_version_of(ip) == 0 {
        let mut m = "Invalid IP address: ".to_string();
        m.append(ip);
        return Err(NetctlError::InvalidParameter(m));
    }
    Ok(())
}

/// A value may go into a generated configuration file only when it holds
/// no control character (which could start a new line or directive).
pub open spec fn safe_config_value(v: Seq<char>) -> bool {
    forall|i: int| 0 <= i < v.len() ==> !is_control(#[trigger] v[i])
}

/// Returns the value unchanged when it is safe to write into a
/// configuration file, and an error when it holds a control character.
pub fn sanitize_config_value(value: &str) -> (r: NetctlResult<String>)
    ensures
        safe_config_value(value@) ==> (r matches Ok(s) && s@ == value@),
        !safe_config_value(value@) ==> (r matches Err(NetctlError::InvalidParameter(m)) && m@
            == "Configuration value contains control characters"@),
{
    let n: usize = value.unicode_len();
    let mut i: usize = 0;
    while i < n
        invariant
            n == value@.len(),
            i <= n,
            forall|k: int| 0 <= k < i ==> !is_control(#[trigger] value@[k]),
        decreases n - i,
    {
        if is_control_exec(value.get_char(i)) {
            return Err(
                NetctlError::InvalidParameter(
                    "Configuration value contains control characters".to_string(),
                ),
            );
        }
        i += 1;
    }
    Ok(value.to_string())
}

/// A character allowed in a host name label.
pub open spec fn is_hostname_char(c: char) -> bool {
    is_ascii_alphanumeric(c) || c == '-'
}

/// One dot-separated label of a host name (RFC 1123).
pub open spec fn valid_hostname_label(l: Seq<char>) -> bool {
    1 <= l.len() <= 63 && (forall|i: int| 0 <= i < l.len() ==> is_hostname_char(#[trigger] l[i]))
        && l[0] != '-' && l.last() != '-'
}

/// A host name: at most 253 characters, made of valid labels.
pub open spec fn valid_hostname(h: Seq<char>) -> bool {
    1 <= h.len() <= 253 && (forall|i: int|
        0 <= i < split_seq(h, '.').len() ==> valid_hostname_label(#[trigger] split_seq(h, '.')[i]))
}

fn valid_label_exec(l: &str) -> (r: bool)
    ensures
        r == valid_hostname_label(l@),
{
    let n: usize = l.unicode_len();
    if n < 1 || n > 63 {
        return false;
    }
    let mut i: usize = 0;
    while i < n
        invariant
            n == l@.len(),
            i <= n,
            forall|k: int| 0 <= k < i ==> is_hostname_char(#[trigger] l@[k]),
        decreases n - i,
    {
        let c: char = l.get_char(i);
        if !(is_ascii_alphanumeric_exec(c) || c == '-') {
            return false;
        }
        i += 1;
    }
    l.get_char(0) != '-' && l.get_char(n - 1) != '-'
}

/// Validates a host name (RFC 1123): 1 to 253 characters, dot-separated
/// labels of 1 to 63 letters, digits or hyphens, no label starting or
/// ending with a hyphen.
pub fn validate_hostname(hostname: &str) -> (r: NetctlResult<()>)
    ensures
        valid_hostname(hostname@) ==> r is Ok,
        !valid_hostname(hostname@) ==> (r matches Err(NetctlError::InvalidParameter(m)) && m@
            == "Invalid hostname: "@ + hostname@),
{
    let n: usize = hostname.unicode_len();
    let mut ok: bool = 1 <= n && n <= 253;
    if ok {
        let labels = split_char(hostname, '.');
        let mut i: usize = 0;
        let mut all: bool = true;
        while i < labels.len() && all
            invariant
                labels.deep_view() == split_seq(hostname@, '.'),
                i <= labels.len(),
                forall|k: int| 0 <= k < i - (if all { 0int } else { 1int }) ==> valid_hostname_label(
                    #[trigger] split_seq(hostname@, '.')[k],
                ),
                !all ==> i >= 1 && !valid_hostname_label(split_seq(hostname@, '.')[i - 1]),
            decreases labels.len() - i,
        {
            assert(labels.deep_view()[i as int] == labels[i as int]@);
            if !valid_label_exec(labels[i].as_str()) {
                all = false;
            }
            i += 1;
        }
        ok = all;
        assert(ok ==> valid_hostname(hostname@));
        assert(!ok ==> !valid_hostname(hostname@));
    }
    if !ok {
        let mut m = "Invalid hostname: ".to_string();
        m.append(hostname);
        return Err(NetctlError::InvalidParameter(m));
    }
    Ok(())
}

} // verus!
