//! DHCP testing and diagnostics
//!
//! Validation of DHCP test requests (mocked DHCP messages sent to test a
//! DHCP server without touching the network configuration).

use vstd::prelude::*;
use vstd::string::*;
use vstd::utf8::encode_utf8;
use crate::error::{NetctlError, NetctlResult};
use crate::text::{utf8_len_at_most, split_seq, split_char, is_ascii_hexdigit, is_ascii_hexdigit_exec};
use crate::validation::{interface_name_error, validate_interface_name, validate_ip_address, valid_ip_address};

verus! {

/// DHCP message type
#[derive(Debug, Clone, Copy, PartialEq, Eq, Structural)]
pub enum DhcpMessageType {
    /// DHCP Discover - Client broadcast to find servers
    Discover,
    /// DHCP Request - Client requests IP address
    Request,
    /// DHCP Release - Client releases IP address
    Release,
    /// DHCP Inform - Client requests configuration parameters
    Inform,
    /// DHCP Decline - Client declines offered IP
    Decline,
}

/// DHCP option
#[derive(Debug, Clone)]
pub struct DhcpOption {
    /// Option code (e.g., 53 for message type, 50 for requested IP)
    pub code: u8,
    /// Option value as hex string
    pub value: String,
}

/// Configuration for DHCP testing
#[derive(Debug, Clone)]
pub struct DhcpTestConfig {
    /// Network interface to use
    pub interface: String,
    /// Message type to send
    pub message_type: DhcpMessageType,
    /// Client MAC address (optional, will generate random if not provided)
    pub client_mac: Option<String>,
    /// Server IP address (optional, uses broadcast if not provided)
    pub server_ip: Option<String>,
    /// Server port (default: 67)
    pub server_port: Option<u16>,
    /// Client IP address for RELEASE/INFORM messages
    pub client_ip: Option<String>,
    /// Requested IP address for REQUEST messages
    pub requested_ip: Option<String>,
    /// Use broadcast instead of unicast
    pub broadcast: bool,
    /// Custom DHCP options (option number -> value)
    pub options: Option<Vec<DhcpOption>>,
}

/// DHCP response information
#[derive(Debug, Clone)]
pub struct DhcpResponse {
    /// Message type of the response
    pub message_type: String,
    /// Offered/assigned IP address
    pub your_ip: Option<String>,
    /// Server identifier
    pub server_ip: Option<String>,
    /// Lease time in seconds
    pub lease_time: Option<u32>,
    /// Subnet mask
    pub subnet_mask: Option<String>,
    /// Router/gateway
    pub router: Option<String>,
    /// DNS servers
    pub dns_servers: Option<Vec<String>>,
    /// Domain name
    pub domain_name: Option<String>,
}

/// Result from DHCP test
#[derive(Debug, Clone)]
pub struct DhcpTestResult {
    /// Whether the test was successful
    pub success: bool,
    /// Response received (if any)
    pub response: Option<DhcpResponse>,
    /// Error message (if any)
    pub error: Option<String>,
    /// Round-trip time in milliseconds
    pub rtt_ms: Option<u64>,
}

impl Default for DhcpTestConfig {
    fn default() -> (r: Self)
        ensures
            r.interface@ == "eth0"@,
            r.message_type == DhcpMessageType::Discover,
            r.client_mac is None,
            r.server_ip is None,
            r.server_port == Some(67u16),
            r.client_ip is None,
            r.requested_ip is None,
            r.broadcast,
            r.options is None,
    {
        DhcpTestConfig {
            interface: "eth0".to_string(),
            message_type: DhcpMessageType::Discover,
            client_mac: None,
            server_ip: None,
            server_port: Some(67),
            client_ip: None,
            requested_ip: None,
            broadcast: true,
            options: None,
        }
    }
}

/// The first of the colon-separated octets `parts[i..]` that is refused,
/// with the reason: not two bytes long, or not made of hex digits.
pub open spec fn mac_octets_error(parts: Seq<Seq<char>>, i: int) -> Option<Seq<char>>
    decreases parts.len() - i,
{
    if i < 0 || i >= parts.len() {
        None
    } else if encode_utf8(parts[i]).len() != 2 {
        Some("Each MAC address octet must be 2 hex digits"@)
    } else if !(forall|k: int| 0 <= k < parts[i].len() ==> is_ascii_hexdigit(#[trigger] parts[i][k])) {
        Some("MAC address must contain only hex digits"@)
    } else {
        mac_octets_error(parts, i + 1)
    }
}

/// Why a MAC address text is refused, if it is: it must be six
/// colon-separated octets of two hex digits each.
pub open spec fn mac_address_error(mac: Seq<char>) -> Option<Seq<char>> {
    let parts = split_seq(mac, ':');
    if parts.len() != 6 {
        Some("MAC address must have 6 octets separated by colons"@)
    } else {
        mac_octets_error(parts, 0)
    }
}

/// Message of the error for a zero server port.
pub open spec fn zero_port_message() -> Seq<char> {
    "Port must be non-zero"@
}

/// Why an optional IP address is refused, if it is.
pub open spec fn optional_ip_error(ip: Option<String>) -> Option<Seq<char>> {
    match ip {
        Some(a) => if valid_ip_address(a@) {
            None
        } else {
            Some("Invalid IP address: "@ + a@)
        },
        None => None,
    }
}

/// The first reason, in the order the checks are made, why a DHCP test
/// configuration is refused: interface name, client MAC, server IP, client
/// IP, requested IP, server port.
pub open spec fn test_config_error(c: DhcpTestConfig) -> Option<Seq<char>> {
    if interface_name_error(c.interface@) is Some {
        interface_name_error(c.interface@)
    } else if c.client_mac is Some && mac_address_error(c.client_mac->0@) is Some {
        mac_address_error(c.client_mac->0@)
    } else if optional_ip_error(c.server_ip) is Some {
        optional_ip_error(c.server_ip)
    } else if optional_ip_error(c.client_ip) is Some {
        optional_ip_error(c.client_ip)
    } else if optional_ip_error(c.requested_ip) is Some {
        optional_ip_error(c.requested_ip)
    } else if c.server_port == Some(0u16) {
        Some(zero_port_message())
    } else {
        None
    }
}

/// The result is `Ok` exactly when `err` is `None`, and otherwise an
/// `InvalidParameter` error carrying that message.
pub open spec fn reports<T>(r: NetctlResult<T>, err: Option<Seq<char>>) -> bool {
    match err {
        None => r is Ok,
        Some(msg) => r matches Err(NetctlError::InvalidParameter(m)) && m@ == msg,
    }
}

/// The message every test currently reports, as no DHCP client is wired in.
pub open spec fn not_implemented_message() -> Seq<char> {
    "dhcpm integration not yet implemented - requires dhcpm CLI"@
}

/// The result reported for a test that was validated and could not be sent.
pub open spec fn is_unsent_result(r: DhcpTestResult) -> bool {
    &&& !r.success
    &&& r.response is None
    &&& r.error matches Some(e) && e@ == not_implemented_message()
    &&& r.rtt_ms is None
}

fn unsent_result() -> (r: DhcpTestResult)
    ensures
        is_unsent_result(r),
{
    DhcpTestResult {
        success: false,
        response: None,
        error: Some("dhcpm integration not yet implemented - requires dhcpm CLI".to_string()),
        rtt_ms: None,
    }
}

fn validate_optional_ip(ip: &Option<String>) -> (r: NetctlResult<()>)
    ensures
        reports(r, optional_ip_error(*ip)),
{
    match ip {
        Some(a) => validate_ip_address(a.as_str()),
        None => Ok(()),
    }
}

/// Controller for DHCP testing operations
pub struct DhcpmController {
    /// Default interface to use
    default_interface: String,
}

impl DhcpmController {
    /// Create a new DHCP testing controller
    pub fn new(default_interface: String) -> (r: NetctlResult<Self>)
        ensures
            reports(r, interface_name_error(default_interface@)),
            r matches Ok(c) ==> c.default_interface()@ == default_interface@,
    {
        validate_interface_name(default_interface.as_str())?;
        Ok(DhcpmController { default_interface })
    }

    pub closed spec fn default_interface(&self) -> String {
        self.default_interface
    }

    /// The interface used when a request names none.
    pub fn get_default_interface(&self) -> (r: &str)
        ensures
            r@ == self.default_interface()@,
    {
        self.default_interface.as_str()
    }

    /// Validate DHCP test configuration
    pub fn validate_config(&self, config: &DhcpTestConfig) -> (r: NetctlResult<()>)
        ensures
            reports(r, test_config_error(*config)),
    {
        validate_interface_name(config.interface.as_str())?;
        match &config.client_mac {
            Some(mac) => {
                Self::validate_mac_address(mac.as_str())?;
            },
            None => {},
        }
        validate_optional_ip(&config.server_ip)?;
        validate_optional_ip(&config.client_ip)?;
        validate_optional_ip(&config.requested_ip)?;
        match config.server_port {
            Some(port) => {
                if port == 0 {
                    return Err(NetctlError::InvalidParameter("Port must be non-zero".to_string()));
                }
            },
            None => {},
        }
        Ok(())
    }

    /// Validate MAC address format: six colon-separated octets of two hex digits.
    pub fn validate_mac_address(mac: &str) -> (r: NetctlResult<()>)
        ensures
            reports(r, mac_address_error(mac@)),
    {
        let parts = split_char(mac, ':');
        if parts.len() != 6 {
            return Err(
                NetctlError::InvalidParameter(
                    "MAC address must have 6 octets separated by colons".to_string(),
                ),
            );
        }
        let ghost ps = parts.deep_view();
        let mut i: usize = 0;
        while i < parts.len()
            invariant
                ps == parts.deep_view(),
                ps == split_seq(mac@, ':'),
                ps.len() == 6,
                i <= parts.len(),
                mac_octets_error(ps, 0) == mac_octets_error(ps, i as int),
            decreases parts.len() - i,
        {
            let part: &str = parts[i].as_str();
            assert(ps[i as int] == part@);
            if utf8_len_at_most(part, 2) != Some(2usize) {
                return Err(
                    NetctlError::InvalidParameter(
                        "Each MAC address octet must be 2 hex digits".to_string(),
                    ),
                );
            }
            let n: usize = part.unicode_len();
            let mut k: usize = 0;
            while k < n
                invariant
                    n == part@.len(),
                    k <= n,
                    forall|j: int| 0 <= j < k ==> is_ascii_hexdigit(#[trigger] part@[j]),
                    ps == split_seq(mac@, ':'),
                    ps.len() == 6,
                    i < 6,
                    part@ == ps[i as int],
                    encode_utf8(ps[i as int]).len() == 2,
                    mac_octets_error(ps, 0) == mac_octets_error(ps, i as int),
                decreases n - k,
            {
                if !is_ascii_hexdigit_exec(part.get_char(k)) {
                    return Err(
                        NetctlError::InvalidParameter(
                            "MAC address must contain only hex digits".to_string(),
                        ),
                    );
                }
                k += 1;
            }
            assert(mac_octets_error(ps, i as int) == mac_octets_error(ps, i + 1));
            i += 1;
        }
        Ok(())
    }

    /// Send DHCP discovery message
    pub fn send_discover(&self, config: &DhcpTestConfig) -> (r: NetctlResult<DhcpTestResult>)
        ensures
            reports(r, test_config_error(*config)),
            r matches Ok(res) ==> is_unsent_result(res),
    {
        self.validate_config(config)?;
        Ok(unsent_result())
    }

    /// Send DHCP request message; a requested IP is required.
    pub fn send_request(&self, config: &DhcpTestConfig) -> (r: NetctlResult<DhcpTestResult>)
        ensures
            reports(
                r,
                if test_config_error(*config) is Some {
                    test_config_error(*config)
                } else if config.requested_ip is None {
                    Some("Requested IP is required for REQUEST messages"@)
                } else {
                    None
                },
            ),
            r matches Ok(res) ==> is_unsent_result(res),
    {
        self.validate_config(config)?;
        if config.requested_ip.is_none() {
            return Err(
                NetctlError::InvalidParameter(
                    "Requested IP is required for REQUEST messages".to_string(),
                ),
            );
        }
        Ok(unsent_result())
    }

    /// Send DHCP release message; a client IP is required.
    pub fn send_release(&self, config: &DhcpTestConfig) -> (r: NetctlResult<DhcpTestResult>)
        ensures
            reports(
                r,
                if test_config_error(*config) is Some {
                    test_config_error(*config)
                } else if config.client_ip is None {
                    Some("Client IP is required for RELEASE messages"@)
                } else {
                    None
                },
            ),
            r matches Ok(res) ==> is_unsent_result(res),
    {
        self.validate_config(config)?;
        if config.client_ip.is_none() {
            return Err(
                NetctlError::InvalidParameter(
                    "Client IP is required for RELEASE messages".to_string(),
                ),
            );
        }
        Ok(unsent_result())
    }

    /// Send DHCP inform message
    pub fn send_inform(&self, config: &DhcpTestConfig) -> (r: NetctlResult<DhcpTestResult>)
        ensures
            reports(r, test_config_error(*config)),
            r matches Ok(res) ==> is_unsent_result(res),
    {
        self.validate_config(config)?;
        Ok(unsent_result())
    }

    /// Run a comprehensive DHCP test sequence: currently one discover on
    /// `interface` with the default test settings.
    pub fn run_test_sequence(&self, interface: &str) -> (r: NetctlResult<Vec<DhcpTestResult>>)
        ensures
            reports(r, interface_name_error(interface@)),
            r matches Ok(v) ==> v.len() == 1 && is_unsent_result(v[0]),
    {
        validate_interface_name(interface)?;
        let mut discover_config = DhcpTestConfig::default();
        discover_config.interface = interface.to_string();
        discover_config.message_type = DhcpMessageType::Discover;
        let res = self.send_discover(&discover_config);
        let mut results: Vec<DhcpTestResult> = Vec::new();
        match res {
            Ok(x) => {
                results.push(x);
            },
            Err(e) => {
                return Err(e);
            },
        }
        Ok(results)
    }
}

} // verus!
