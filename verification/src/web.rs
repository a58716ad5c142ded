//! The HTTP API's decisions: the status and text an error is answered
//! with, and which DHCP test a request runs.

use vstd::prelude::*;
use crate::error::{NetctlError, NetctlResult, error_message, io_error_text};
use crate::dhcpm::{
    DhcpmController, DhcpTestConfig, DhcpTestResult, DhcpMessageType, reports, test_config_error,
    is_unsent_result,
};

verus! {

/// The HTTP status an error is answered with: 400 for refused input
/// (invalid parameter, parse and configuration errors), 404 for what is
/// not found, 403 for a refused permission, 408 for a timeout, 409 for
/// what already exists, 503 for a failing service, 501 for what is not
/// supported, and 500 for a failed command, an I/O error, and the invalid
/// state and failed connection errors, which the table has no row for.
pub open spec fn http_status(e: NetctlError) -> u16 {
    match e {
        NetctlError::InvalidParameter(_) => 400,
        NetctlError::NotFound(_) => 404,
        NetctlError::InterfaceNotFound(_) => 404,
        NetctlError::DeviceNotFound(_) => 404,
        NetctlError::PermissionDenied(_) => 403,
        NetctlError::CommandFailed { .. } => 500,
        NetctlError::Io(_) => 500,
        NetctlError::ParseError(_) => 400,
        NetctlError::Timeout(_) => 408,
        NetctlError::AlreadyExists(_) => 409,
        NetctlError::ConfigError(_) => 400,
        NetctlError::ServiceError(_) => 503,
        NetctlError::NotSupported(_) => 501,
        NetctlError::InvalidState(_) => 500,
        NetctlError::ConnectionFailed { .. } => 500,
    }
}

/// The text of an error answer: the error's own message, without the
/// label its display puts in front; a failed command as its display
/// writes it.  (An I/O error is answered with its operating-system text.)
pub open spec fn http_text(e: NetctlError) -> Seq<char> {
    match e {
        NetctlError::InvalidParameter(m) => m@,
        NetctlError::NotFound(m) => m@,
        NetctlError::InterfaceNotFound(m) => m@,
        NetctlError::DeviceNotFound(m) => m@,
        NetctlError::PermissionDenied(m) => m@,
        NetctlError::CommandFailed { .. } => error_message(e),
        NetctlError::Io(_) => Seq::empty(),
        NetctlError::ParseError(m) => m@,
        NetctlError::Timeout(m) => m@,
        NetctlError::AlreadyExists(m) => m@,
        NetctlError::ConfigError(m) => m@,
        NetctlError::ServiceError(m) => m@,
        NetctlError::NotSupported(m) => m@,
        NetctlError::InvalidState(m) => m@,
        NetctlError::ConnectionFailed { reason } => reason@,
    }
}

/// The HTTP status and error text an error is answered with.
pub fn http_error_of(e: &NetctlError) -> (r: (u16, String))
    ensures
        r.0 == http_status(*e),
        !(*e is Io) ==> r.1@ == http_text(*e),
{
    match e {
        NetctlError::InvalidParameter(m) => (400, m.clone()),
        NetctlError::NotFound(m) => (404, m.clone()),
        NetctlError::InterfaceNotFound(m) => (404, m.clone()),
        NetctlError::DeviceNotFound(m) => (404, m.clone()),
        NetctlError::PermissionDenied(m) => (403, m.clone()),
        NetctlError::CommandFailed { .. } => (500, e.message()),
        NetctlError::Io(io) => (500, io_error_text(io)),
        NetctlError::ParseError(m) => (400, m.clone()),
        NetctlError::Timeout(m) => (408, m.clone()),
        NetctlError::AlreadyExists(m) => (409, m.clone()),
        NetctlError::ConfigError(m) => (400, m.clone()),
        NetctlError::ServiceError(m) => (503, m.clone()),
        NetctlError::NotSupported(m) => (501, m.clone()),
        NetctlError::InvalidState(m) => (500, m.clone()),
        NetctlError::ConnectionFailed { reason } => (500, reason.clone()),
    }
}

/// Why a DHCP test of the given configuration is refused, by its message
/// type: the configuration's own error first, then a missing requested IP
/// (REQUEST) or client IP (RELEASE).
pub open spec fn dhcp_test_error(c: DhcpTestConfig) -> Option<Seq<char>> {
    if test_config_error(c) is Some {
        test_config_error(c)
    } else {
        match c.message_type {
            DhcpMessageType::Request => if c.requested_ip is None {
                Some("Requested IP is required for REQUEST messages"@)
            } else {
                None
            },
            DhcpMessageType::Release => if c.client_ip is None {
                Some("Client IP is required for RELEASE messages"@)
            } else {
                None
            },
            _ => None,
        }
    }
}

/// Runs the DHCP test a request asks for, by its message type; DECLINE is
/// not supported.
pub fn run_dhcp_test(ctrl: &DhcpmController, config: &DhcpTestConfig) -> (r: NetctlResult<DhcpTestResult>)
    ensures
        config.message_type == DhcpMessageType::Decline ==> (r matches Err(NetctlError::NotSupported(m))
            && m@ == "DECLINE message type not yet supported"@),
        config.message_type != DhcpMessageType::Decline ==> reports(r, dhcp_test_error(*config)),
        r matches Ok(res) ==> is_unsent_result(res),
{
    match config.message_type {
        DhcpMessageType::Discover => ctrl.send_discover(config),
        DhcpMessageType::Request => ctrl.send_request(config),
        DhcpMessageType::Release => ctrl.send_release(config),
        DhcpMessageType::Inform => ctrl.send_inform(config),
        DhcpMessageType::Decline => Err(
            NetctlError::NotSupported("DECLINE message type not yet supported".to_string()),
        ),
    }
}

/// The configuration of a DISCOVER request: the settings given (the
/// defaults when none are) on the named interface, with the message type
/// set to DISCOVER.
pub fn discover_config(interface: String, config: Option<DhcpTestConfig>) -> (c: DhcpTestConfig)
    ensures
        c.interface == interface,
        c.message_type == DhcpMessageType::Discover,
        match config {
            Some(given) => c.client_mac == given.client_mac && c.server_ip == given.server_ip
                && c.server_port == given.server_port && c.client_ip == given.client_ip
                && c.requested_ip == given.requested_ip && c.broadcast == given.broadcast
                && c.options == given.options,
            None => c.client_mac is None && c.server_ip is None && c.server_port == Some(67u16)
                && c.client_ip is None && c.requested_ip is None && c.broadcast && c.options is None,
        },
{
    let mut c = match config {
        Some(given) => given,
        None => DhcpTestConfig::default(),
    };
    c.interface = interface;
    c.message_type = DhcpMessageType::Discover;
    c
}

} // verus!
