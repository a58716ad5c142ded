//! DHCP server management via dora
//!
//! Generates the dora configuration of a DHCP server after checking every
//! value that goes into it.  Writing the file is left to the caller.

use vstd::prelude::*;
use crate::error::{NetctlError, NetctlResult};
use crate::validation::{
    interface_name_error, validate_interface_name, valid_ip_address, validate_ip_address,
    safe_config_value, sanitize_config_value,
};
use crate::text::{decimal, push_decimal};
use crate::nccli::format::{join_seq, join_strings};

verus! {

#[derive(Debug, Clone)]
pub struct DhcpConfig {
    pub interface: String,
    pub range_start: String,
    pub range_end: String,
    pub gateway: String,
    pub dns_servers: Vec<String>,
    pub lease_time: u32,
    pub domain: Option<String>,
}

impl Default for DhcpConfig {
    fn default() -> (c: Self)
        ensures
            c.interface@ == "wlan0"@,
            c.range_start@ == "10.255.24.10"@,
            c.range_end@ == "10.255.24.250"@,
            c.gateway@ == "10.255.24.1"@,
            c.dns_servers@.len() == 1,
            c.dns_servers@[0]@ == "10.255.24.1"@,
            c.lease_time == 3600,
            c.domain matches Some(d) && d@ == "local"@,
    {
        let mut dns_servers: Vec<String> = Vec::new();
        dns_servers.push("10.255.24.1".to_string());
        DhcpConfig {
            interface: "wlan0".to_string(),
            range_start: "10.255.24.10".to_string(),
            range_end: "10.255.24.250".to_string(),
            gateway: "10.255.24.1".to_string(),
            dns_servers,
            lease_time: 3600,
            domain: Some("local".to_string()),
        }
    }
}

pub open spec fn strings_of(v: Seq<String>) -> Seq<Seq<char>> {
    v.map_values(|s: String| s@)
}

/// The first address of a list that is not an IP address literal.
pub open spec fn first_invalid_ip(s: Seq<Seq<char>>) -> Option<Seq<char>>
    decreases s.len(),
{
    if s.len() == 0 {
        None
    } else if !valid_ip_address(s[0]) {
        Some(s[0])
    } else {
        first_invalid_ip(s.drop_first())
    }
}

/// The message for a value that is not an IP address.
pub open spec fn invalid_ip_message(ip: Seq<char>) -> Seq<char> {
    "Invalid IP address: "@ + ip
}

/// Why a DHCP server configuration is refused, if it is: the interface
/// name, the range bounds, the gateway and every DNS server are checked in
/// that order, then every value is checked for control characters.
pub open spec fn dhcp_config_error(c: DhcpConfig) -> Option<Seq<char>> {
    let dns = strings_of(c.dns_servers@);
    if interface_name_error(c.interface@) is Some {
        interface_name_error(c.interface@)
    } else if !valid_ip_address(c.range_start@) {
        Some(invalid_ip_message(c.range_start@))
    } else if !valid_ip_address(c.range_end@) {
        Some(invalid_ip_message(c.range_end@))
    } else if !valid_ip_address(c.gateway@) {
        Some(invalid_ip_message(c.gateway@))
    } else if first_invalid_ip(dns) is Some {
        Some(invalid_ip_message(first_invalid_ip(dns)->0))
    } else if !safe_config_value(c.interface@) || !safe_config_value(c.range_start@)
        || !safe_config_value(c.range_end@) || !safe_config_value(c.gateway@) || exists|i: int|
        0 <= i < dns.len() && !safe_config_value(#[trigger] dns[i]) {
        Some("Configuration value contains control characters"@)
    } else {
        None
    }
}

/// The dora configuration of a DHCP server.
pub open spec fn dora_yaml(c: DhcpConfig) -> Seq<char> {
    let dns = strings_of(c.dns_servers@);
    c.interface@ + ":\n"@ + "  interfaces:\n    - "@ + c.interface@ + "\n"@ + "  ranges:\n"@
        + "    - start: "@ + c.range_start@ + "\n"@ + "      end: "@ + c.range_end@ + "\n"@
        + "  options:\n"@ + "    - opt: 1\n      val: !ip 255.255.255.0\n"@
        + "    - opt: 3\n      val: !ip "@ + c.gateway@ + "\n"@ + (if dns.len() > 0 {
        "    - opt: 6\n      val: !ips ["@ + join_seq(dns, ", "@) + "]\n"@
    } else {
        Seq::<char>::empty()
    }) + "    - opt: 51\n      val: !u32 "@ + decimal(c.lease_time as nat) + "\n"@
        + "  ping_check: false\n  probe_check: false\n"@
}

pub struct DhcpController {
    config_path: String,
    dora_bin: String,
}

impl DhcpController {
    /// Where the configuration is written.
    pub closed spec fn path(&self) -> Seq<char> {
        self.config_path@
    }

    /// The dora program.
    pub closed spec fn dora(&self) -> Seq<char> {
        self.dora_bin@
    }

    pub fn new(config_path: String) -> (c: Self)
        ensures
            c.path() == config_path@,
            c.dora() == "/usr/local/bin/dora"@,
    {
        DhcpController { config_path, dora_bin: "/usr/local/bin/dora".to_string() }
    }

    /// Where the configuration is written.
    pub fn config_path(&self) -> (r: &str)
        ensures
            r@ == self.path(),
    {
        self.config_path.as_str()
    }

    fn check_dns(dns: &Vec<String>) -> (r: NetctlResult<()>)
        ensures
            match first_invalid_ip(strings_of(dns@)) {
                Some(ip) => r matches Err(NetctlError::InvalidParameter(m)) && m@
                    == invalid_ip_message(ip),
                None => r is Ok,
            },
    {
        let ghost sv = strings_of(dns@);
        assert(sv.skip(0) =~= sv);
        let mut i: usize = 0;
        while i < dns.len()
            invariant
                i <= dns@.len(),
                sv == strings_of(dns@),
                first_invalid_ip(sv) == first_invalid_ip(sv.skip(i as int)),
            decreases dns@.len() - i,
        {
            let ghost rest = sv.skip(i as int);
            assert(rest[0] == dns@[i as int]@);
            assert(rest.drop_first() =~= sv.skip(i + 1));
            match validate_ip_address(dns[i].as_str()) {
                Err(e) => {
                    return Err(e);
                },
                Ok(()) => {},
            }
            i += 1;
        }
        assert(sv.skip(i as int).len() == 0);
        Ok(())
    }

    fn check_dns_values(dns: &Vec<String>) -> (r: NetctlResult<()>)
        ensures
            (exists|i: int| 0 <= i < dns@.len() && !safe_config_value(#[trigger] strings_of(dns@)[i]))
                ==> (r matches Err(NetctlError::InvalidParameter(m)) && m@
                == "Configuration value contains control characters"@),
            !(exists|i: int| 0 <= i < dns@.len() && !safe_config_value(#[trigger] strings_of(dns@)[i]))
                ==> r is Ok,
    {
        let mut i: usize = 0;
        while i < dns.len()
            invariant
                i <= dns@.len(),
                forall|j: int| 0 <= j < i ==> safe_config_value(#[trigger] strings_of(dns@)[j]),
            decreases dns@.len() - i,
        {
            assert(strings_of(dns@)[i as int] == dns@[i as int]@);
            match sanitize_config_value(dns[i].as_str()) {
                Err(e) => {
                    return Err(e);
                },
                Ok(_) => {},
            }
            i += 1;
        }
        Ok(())
    }

    fn check_values(config: &DhcpConfig) -> (r: NetctlResult<()>)
        ensures
            match dhcp_config_error(*config) {
                Some(msg) => r matches Err(NetctlError::InvalidParameter(m)) && m@ == msg,
                None => r is Ok,
            },
    {
        match validate_interface_name(config.interface.as_str()) {
            Err(e) => {
                return Err(e);
            },
            Ok(()) => {},
        }
        match validate_ip_address(config.range_start.as_str()) {
            Err(e) => {
                return Err(e);
            },
            Ok(()) => {},
        }
        match validate_ip_address(config.range_end.as_str()) {
            Err(e) => {
                return Err(e);
            },
            Ok(()) => {},
        }
        match validate_ip_address(config.gateway.as_str()) {
            Err(e) => {
                return Err(e);
            },
            Ok(()) => {},
        }
        match DhcpController::check_dns(&config.dns_servers) {
            Err(e) => {
                return Err(e);
            },
            Ok(()) => {},
        }
        match sanitize_config_value(config.interface.as_str()) {
            Err(e) => {
                return Err(e);
            },
            Ok(_) => {},
        }
        match sanitize_config_value(config.range_start.as_str()) {
            Err(e) => {
                return Err(e);
            },
            Ok(_) => {},
        }
        match sanitize_config_value(config.range_end.as_str()) {
            Err(e) => {
                return Err(e);
            },
            Ok(_) => {},
        }
        match sanitize_config_value(config.gateway.as_str()) {
            Err(e) => {
                return Err(e);
            },
            Ok(_) => {},
        }
        DhcpController::check_dns_values(&config.dns_servers)
    }

    /// The dora configuration of a DHCP server, once every value passed
    /// its checks.
    pub fn generate_config(&self, config: &DhcpConfig) -> (r: NetctlResult<String>)
        ensures
            match dhcp_config_error(*config) {
                Some(msg) => r matches Err(NetctlError::InvalidParameter(m)) && m@ == msg,
                None => r matches Ok(t) && t@ == dora_yaml(*config),
            },
    {
        match DhcpController::check_values(config) {
            Err(e) => {
                return Err(e);
            },
            Ok(()) => {},
        }
        let mut yaml = config.interface.clone();
        yaml.append(":\n");
        yaml.append("  interfaces:\n    - ");
        yaml.append(config.interface.as_str());
        yaml.append("\n");
        yaml.append("  ranges:\n");
        yaml.append("    - start: ");
        yaml.append(config.range_start.as_str());
        yaml.append("\n");
        yaml.append("      end: ");
        yaml.append(config.range_end.as_str());
        yaml.append("\n");
        yaml.append("  options:\n");
        yaml.append("    - opt: 1\n      val: !ip 255.255.255.0\n");
        yaml.append("    - opt: 3\n      val: !ip ");
        yaml.append(config.gateway.as_str());
        yaml.append("\n");
        let ghost head = yaml@;
        if config.dns_servers.len() > 0 {
            yaml.append("    - opt: 6\n      val: !ips [");
            let joined = join_strings(&config.dns_servers, ", ");
            yaml.append(joined.as_str());
            yaml.append("]\n");
        }
        let ghost with_dns = yaml@;
        yaml.append("    - opt: 51\n      val: !u32 ");
        push_decimal(&mut yaml, config.lease_time as u64);
        yaml.append("\n");
        yaml.append("  ping_check: false\n  probe_check: false\n");
        assert(yaml@ =~= dora_yaml(*config));
        Ok(yaml)
    }
}

/// The first invalid address of a list is absent exactly when every
/// address of the list is valid.
proof fn lemma_first_invalid_ip(s: Seq<Seq<char>>)
    ensures
        first_invalid_ip(s) is None <==> forall|i: int| 0 <= i < s.len() ==> valid_ip_address(#[trigger] s[i]),
    decreases s.len(),
{
    if s.len() > 0 {
        lemma_first_invalid_ip(s.drop_first());
        if first_invalid_ip(s) is None {
            assert forall|i: int| 0 <= i < s.len() implies valid_ip_address(#[trigger] s[i]) by {
                if i > 0 {
                    assert(s[i] == s.drop_first()[i - 1]);
                }
            }
        } else if valid_ip_address(s[0]) {
            let j = choose|j: int| 0 <= j < s.drop_first().len() && !valid_ip_address(#[trigger] s.drop_first()[j]);
            assert(s[j + 1] == s.drop_first()[j]);
        }
    }
}

/// A dora configuration is written only when every value that goes into
/// it is sound: the interface is a valid interface name, the range start,
/// range end, gateway and every DNS server are IP address literals, and
/// none holds a control character.  Otherwise the request is refused as
/// an invalid parameter, and nothing is written.
pub proof fn lemma_dhcp_config_only_of_valid_values(c: DhcpConfig, r: NetctlResult<String>)
    requires
        match dhcp_config_error(c) {
            Some(msg) => r matches Err(NetctlError::InvalidParameter(m)) && m@ == msg,
            None => r matches Ok(t) && t@ == dora_yaml(c),
        },
    ensures
        r is Ok <==> {
            &&& interface_name_error(c.interface@) is None
            &&& valid_ip_address(c.range_start@)
            &&& valid_ip_address(c.range_end@)
            &&& valid_ip_address(c.gateway@)
            &&& forall|i: int| 0 <= i < c.dns_servers@.len() ==> valid_ip_address(#[trigger] c.dns_servers@[i]@)
            &&& safe_config_value(c.interface@)
            &&& safe_config_value(c.range_start@)
            &&& safe_config_value(c.range_end@)
            &&& safe_config_value(c.gateway@)
            &&& forall|i: int| 0 <= i < c.dns_servers@.len() ==> safe_config_value(#[trigger] c.dns_servers@[i]@)
        },
        r is Err ==> r matches Err(NetctlError::InvalidParameter(_)),
        !valid_ip_address(c.range_start@) ==> r is Err,
        !valid_ip_address(c.range_end@) ==> r is Err,
        !valid_ip_address(c.gateway@) ==> r is Err,
{
    let dns = strings_of(c.dns_servers@);
    lemma_first_invalid_ip(dns);
    assert forall|i: int| 0 <= i < c.dns_servers@.len() implies #[trigger] c.dns_servers@[i]@ == dns[i] by {}
    if forall|i: int| 0 <= i < c.dns_servers@.len() ==> valid_ip_address(#[trigger] c.dns_servers@[i]@) {
        assert forall|i: int| 0 <= i < dns.len() implies valid_ip_address(#[trigger] dns[i]) by {
            assert(c.dns_servers@[i]@ == dns[i]);
        }
    }
    if exists|i: int| 0 <= i < dns.len() && !safe_config_value(#[trigger] dns[i]) {
        let j = choose|i: int| 0 <= i < dns.len() && !safe_config_value(#[trigger] dns[i]);
        assert(c.dns_servers@[j]@ == dns[j]);
    }
}

} // verus!
