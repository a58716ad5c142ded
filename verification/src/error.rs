//! Error types for netctl

use vstd::prelude::*;
use crate::text::{push_int_decimal, int_decimal};

verus! {

#[verifier::external_type_specification]
#[verifier::external_body]
pub struct ExIoError(std::io::Error);

/// Every failure the library reports.
#[derive(Debug)]
pub enum NetctlError {
    /// IO error
    Io(std::io::Error),
    /// Command execution failed
    CommandFailed { cmd: String, code: Option<i32>, stderr: String },
    /// Invalid parameter
    InvalidParameter(String),
    /// Interface not found
    InterfaceNotFound(String),
    /// Device not found
    DeviceNotFound(String),
    /// Configuration error
    ConfigError(String),
    /// Service error (hostapd, dora, unbound)
    ServiceError(String),
    /// Permission denied
    PermissionDenied(String),
    /// Not supported
    NotSupported(String),
    /// Parse error
    ParseError(String),
    /// Already exists
    AlreadyExists(String),
    /// Timeout
    Timeout(String),
    /// Not found
    NotFound(String),
    /// Invalid state
    InvalidState(String),
    /// Connection failed
    ConnectionFailed { reason: String },
}

pub type NetctlResult<T> = Result<T, NetctlError>;

/// The text of `std::io::Error`'s `Display`.
#[verifier::external_body]
pub(crate) fn io_error_text(e: &std::io::Error) -> String {
    e.to_string()
}

/// `prefix` followed by `msg`.
pub open spec fn labelled(prefix: Seq<char>, msg: Seq<char>) -> Seq<char> {
    prefix + msg
}

/// The message of every error but `Io`, whose text comes from the operating system.
pub open spec fn error_message(e: NetctlError) -> Seq<char> {
    match e {
        NetctlError::Io(_) => "IO error: "@,
        NetctlError::CommandFailed { cmd, code, stderr } => match code {
            Some(c) => "Command '"@ + cmd@ + "' failed with code "@ + int_decimal(c as int) + ": "@
                + stderr@,
            None => "Command '"@ + cmd@ + "' failed: "@ + stderr@,
        },
        NetctlError::InvalidParameter(m) => labelled("Invalid parameter: "@, m@),
        NetctlError::InterfaceNotFound(m) => labelled("Interface not found: "@, m@),
        NetctlError::DeviceNotFound(m) => labelled("Device not found: "@, m@),
        NetctlError::ConfigError(m) => labelled("Configuration error: "@, m@),
        NetctlError::ServiceError(m) => labelled("Service error: "@, m@),
        NetctlError::PermissionDenied(m) => labelled("Permission denied: "@, m@),
        NetctlError::NotSupported(m) => labelled("Not supported: "@, m@),
        NetctlError::ParseError(m) => labelled("Parse error: "@, m@),
        NetctlError::AlreadyExists(m) => labelled("Already exists: "@, m@),
        NetctlError::Timeout(m) => labelled("Timeout: "@, m@),
        NetctlError::NotFound(m) => labelled("Not found: "@, m@),
        NetctlError::InvalidState(m) => labelled("Invalid state: "@, m@),
        NetctlError::ConnectionFailed { reason } => labelled("Connection failed: "@, reason@),
    }
}

fn labelled_exec(prefix: &str, msg: &String) -> (r: String)
    ensures
        r@ == labelled(prefix@, msg@),
{
    let mut s = prefix.to_string();
    s.append(msg.as_str());
    s
}

impl NetctlError {
    /// The human-readable message of the error (what `Display` shows).
    pub fn message(&self) -> (r: String)
        ensures
            match *self {
                NetctlError::Io(_) => has_io_prefix(r@),
                _ => r@ == error_message(*self),
            },
    {
        match self {
            NetctlError::Io(e) => {
                let mut s = "IO error: ".to_string();
                let t = io_error_text(e);
                s.append(t.as_str());
                proof {
                    reveal_strlit("IO error: ");
                }
                assert(s@.subrange(0, 10) =~= "IO error: "@);
                s
            },
            NetctlError::CommandFailed { cmd, code, stderr } => {
                let mut s = "Command '".to_string();
                s.append(cmd.as_str());
                match code {
                    Some(c) => {
                        s.append("' failed with code ");
                        push_int_decimal(&mut s, *c as i64);
                        s.append(": ");
                    },
                    None => {
                        s.append("' failed: ");
                    },
                }
                s.append(stderr.as_str());
                s
            },
            NetctlError::InvalidParameter(m) => labelled_exec("Invalid parameter: ", m),
            NetctlError::InterfaceNotFound(m) => labelled_exec("Interface not found: ", m),
            NetctlError::DeviceNotFound(m) => labelled_exec("Device not found: ", m),
            NetctlError::ConfigError(m) => labelled_exec("Configuration error: ", m),
            NetctlError::ServiceError(m) => labelled_exec("Service error: ", m),
            NetctlError::PermissionDenied(m) => labelled_exec("Permission denied: ", m),
            NetctlError::NotSupported(m) => labelled_exec("Not supported: ", m),
            NetctlError::ParseError(m) => labelled_exec("Parse error: ", m),
            NetctlError::AlreadyExists(m) => labelled_exec("Already exists: ", m),
            NetctlError::Timeout(m) => labelled_exec("Timeout: ", m),
            NetctlError::NotFound(m) => labelled_exec("Not found: ", m),
            NetctlError::InvalidState(m) => labelled_exec("Invalid state: ", m),
            NetctlError::ConnectionFailed { reason } => labelled_exec("Connection failed: ", reason),
        }
    }
}

/// The message starts with the `Io` label.
pub open spec fn has_io_prefix(s: Seq<char>) -> bool {
    s.len() >= 10 && s.subrange(0, 10) == "IO error: "@
}

impl From<std::io::Error> for NetctlError {
    fn from(error: std::io::Error) -> (r: Self)
        ensures
            r == NetctlError::Io(error),
    {
        NetctlError::Io(error)
    }
}

impl vstd::std_specs::convert::FromSpecImpl<std::io::Error> for NetctlError {
    open spec fn obeys_from_spec() -> bool {
        true
    }

    open spec fn from_spec(v: std::io::Error) -> Self {
        NetctlError::Io(v)
    }
}

} // verus!
