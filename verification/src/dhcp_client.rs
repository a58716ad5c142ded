//! DHCP client management via crdhcpc
//!
//! Decides, for each request on an interface, which crdhcpc command line to
//! run and what the request answers once the command has finished.  Running
//! the program and checking that it is installed is left to the caller.

use vstd::prelude::*;
use crate::error::{NetctlError, NetctlResult};
use crate::validation::{interface_name_error, validate_interface_name};

verus! {

/// Path to crdhcpc binary
pub const CRDHCPC_BIN: &'static str = "/usr/local/bin/crdhcpc";

/// Default path to crdhcpc config
pub const CRDHCPC_CONFIG: &'static str = "/etc/dhcp-client.toml";

/// DHCP client state
#[derive(Debug, Clone, Copy, PartialEq, Eq, Structural)]
pub enum DhcpClientState {
    /// Not running
    Stopped,
    /// Discovering/requesting
    Acquiring,
    /// Lease acquired
    Bound,
    /// Renewing lease
    Renewing,
    /// Rebinding lease
    Rebinding,
    /// Failed to acquire lease
    Failed,
}

/// DHCP lease information
#[derive(Debug, Clone)]
pub struct DhcpLease {
    /// Interface name
    pub interface: String,
    /// Assigned IP address
    pub ip_address: Option<String>,
    /// Subnet mask
    pub subnet_mask: Option<String>,
    /// Gateway/router
    pub gateway: Option<String>,
    /// DNS servers
    pub dns_servers: Vec<String>,
    /// Lease time in seconds
    pub lease_time: Option<u32>,
    /// Time when lease was acquired
    pub acquired_at: Option<u64>,
    /// DHCP server address
    pub server_address: Option<String>,
}

/// The per-interface crdhcpc sub-commands.
#[derive(Debug, Clone, Copy, PartialEq, Eq, Structural)]
pub enum DhcpCommand {
    Start,
    Stop,
    Release,
    Renew,
    Status,
}

/// The word crdhcpc takes for a sub-command.
pub open spec fn command_verb(c: DhcpCommand) -> Seq<char> {
    match c {
        DhcpCommand::Start => "start"@,
        DhcpCommand::Stop => "stop"@,
        DhcpCommand::Release => "release"@,
        DhcpCommand::Renew => "renew"@,
        DhcpCommand::Status => "status"@,
    }
}

impl DhcpCommand {
    /// The word crdhcpc takes for this sub-command.
    pub fn verb(&self) -> (r: &'static str)
        ensures
            r@ == command_verb(*self),
    {
        match self {
            DhcpCommand::Start => "start",
            DhcpCommand::Stop => "stop",
            DhcpCommand::Release => "release",
            DhcpCommand::Renew => "renew",
            DhcpCommand::Status => "status",
        }
    }
}

/// How a crdhcpc run ended, as the caller observed it.
#[derive(Debug, Clone)]
pub enum CommandOutcome {
    /// The program could not be started; the text of the error.
    SpawnFailed(String),
    /// The program ran to its end.
    Finished { success: bool, code: Option<i32>, stdout: String, stderr: String },
}

/// How the crdhcpc daemon looked shortly after it was started.
#[derive(Debug, Clone)]
pub enum DaemonOutcome {
    /// The program could not be started; the text of the error.
    SpawnFailed(String),
    /// The daemon had already exited.
    Exited { success: bool, code: Option<i32> },
    /// The daemon is still running.
    Running,
    /// Its state could not be read; the text of the error.
    WaitFailed(String),
}

/// The name of a run in error reports: `crdhcpc <verb> <interface>`.
pub open spec fn command_label(c: DhcpCommand, interface: Seq<char>) -> Seq<char> {
    "crdhcpc "@ + command_verb(c) + " "@ + interface
}

/// The lease reported for an interface whose status query succeeded: the
/// output format of crdhcpc is not parsed, so every detail is left empty.
pub open spec fn reported_lease(l: DhcpLease, interface: Seq<char>) -> bool {
    &&& l.interface@ == interface
    &&& l.ip_address is None
    &&& l.subnet_mask is None
    &&& l.gateway is None
    &&& l.dns_servers@.len() == 0
    &&& l.lease_time is None
    &&& l.acquired_at is None
    &&& l.server_address is None
}

/// What a request answers when crdhcpc is not installed.
pub open spec fn answer_when_missing(
    c: DhcpCommand,
    bin: Seq<char>,
    r: NetctlResult<Option<DhcpLease>>,
) -> bool {
    match c {
        DhcpCommand::Start => r matches Err(NetctlError::NotFound(m)) && m@ == "crdhcpc not found at "@
            + bin + ". Please install crdhcpc from ../crdhpcd"@,
        DhcpCommand::Renew => r matches Err(NetctlError::NotFound(m)) && m@
            == "crdhcpc not installed"@,
        _ => r matches Ok(None),
    }
}

/// What a request answers once its crdhcpc run has ended.
pub open spec fn answer_after_run(
    c: DhcpCommand,
    interface: Seq<char>,
    o: CommandOutcome,
    r: NetctlResult<Option<DhcpLease>>,
) -> bool {
    match o {
        CommandOutcome::SpawnFailed(e) => r matches Err(NetctlError::CommandFailed { cmd, code, stderr })
            && cmd@ == command_label(c, interface) && code is None && stderr@ == e@,
        CommandOutcome::Finished { success, code, stdout, stderr } => {
            if !success && (c == DhcpCommand::Start || c == DhcpCommand::Renew) {
                r matches Err(NetctlError::CommandFailed { cmd, code: rc, stderr: rs })
                    && cmd@ == command_label(c, interface) && rc == code && rs@ == stderr@
            } else if success && c == DhcpCommand::Status {
                r matches Ok(Some(l)) && reported_lease(l, interface)
            } else {
                r matches Ok(None)
            }
        },
    }
}

/// DHCP client controller
pub struct DhcpClientController {
    /// Path to crdhcpc binary
    crdhcpc_bin: String,
    /// Path to config file
    config_path: String,
}

impl DhcpClientController {
    /// The path of the crdhcpc program.
    pub closed spec fn bin(&self) -> Seq<char> {
        self.crdhcpc_bin@
    }

    /// The path of the configuration file handed to crdhcpc.
    pub closed spec fn config(&self) -> Seq<char> {
        self.config_path@
    }

    /// Create a new DHCP client controller
    pub fn new() -> (c: Self)
        ensures
            c.bin() == CRDHCPC_BIN@,
            c.config() == CRDHCPC_CONFIG@,
    {
        DhcpClientController {
            crdhcpc_bin: CRDHCPC_BIN.to_string(),
            config_path: CRDHCPC_CONFIG.to_string(),
        }
    }

    /// Create a controller with custom paths
    pub fn with_paths(crdhcpc_bin: String, config_path: String) -> (c: Self)
        ensures
            c.bin() == crdhcpc_bin@,
            c.config() == config_path@,
    {
        DhcpClientController { crdhcpc_bin, config_path }
    }

    /// Path to the crdhcpc binary.
    pub fn crdhcpc_bin(&self) -> (r: &str)
        ensures
            r@ == self.bin(),
    {
        self.crdhcpc_bin.as_str()
    }

    /// Path to the configuration file.
    pub fn config_path(&self) -> (r: &str)
        ensures
            r@ == self.config(),
    {
        self.config_path.as_str()
    }

    /// The arguments of a crdhcpc run: `-c <config> <verb> <interface>`.
    pub fn command_args(&self, c: DhcpCommand, interface: &str) -> (args: Vec<String>)
        ensures
            args@.len() == 4,
            args@[0]@ == "-c"@,
            args@[1]@ == self.config(),
            args@[2]@ == command_verb(c),
            args@[3]@ == interface@,
    {
        let mut args: Vec<String> = Vec::new();
        args.push("-c".to_string());
        args.push(self.config_path.clone());
        args.push(c.verb().to_string());
        args.push(interface.to_string());
        args
    }

    /// The arguments that start the crdhcpc daemon: `-c <config> daemon`.
    pub fn daemon_args(&self) -> (args: Vec<String>)
        ensures
            args@.len() == 3,
            args@[0]@ == "-c"@,
            args@[1]@ == self.config(),
            args@[2]@ == "daemon"@,
    {
        let mut args: Vec<String> = Vec::new();
        args.push("-c".to_string());
        args.push(self.config_path.clone());
        args.push("daemon".to_string());
        args
    }

    /// First step of a request on an interface, given whether crdhcpc is
    /// installed: the interface name is checked before anything else, then
    /// either the arguments of the run are returned (`Ok(Some(args))`) or
    /// the request ends here with its answer (`Err(answer)`).
    pub fn prepare(&self, c: DhcpCommand, interface: &str, installed: bool) -> (r: Result<
        Vec<String>,
        NetctlResult<Option<DhcpLease>>,
    >)
        ensures
            match interface_name_error(interface@) {
                Some(msg) => r matches Err(Err(NetctlError::InvalidParameter(m))) && m@ == msg,
                None => if installed {
                    r matches Ok(args) && args@.len() == 4 && args@[0]@ == "-c"@ && args@[1]@
                        == self.config() && args@[2]@ == command_verb(c) && args@[3]@
                        == interface@
                } else {
                    r matches Err(a) && answer_when_missing(c, self.bin(), a)
                },
            },
    {
        match validate_interface_name(interface) {
            Err(e) => {
                return Err(Err(e));
            },
            Ok(()) => {},
        }
        if installed {
            Ok(self.command_args(c, interface))
        } else {
            Err(self.missing_answer(c))
        }
    }

    /// What a request answers when crdhcpc is not installed.
    pub fn missing_answer(&self, c: DhcpCommand) -> (r: NetctlResult<Option<DhcpLease>>)
        ensures
            answer_when_missing(c, self.bin(), r),
    {
        match c {
            DhcpCommand::Start => {
                let mut m = "crdhcpc not found at ".to_string();
                m.append(self.crdhcpc_bin.as_str());
                m.append(". Please install crdhcpc from ../crdhpcd");
                Err(NetctlError::NotFound(m))
            },
            DhcpCommand::Renew => Err(NetctlError::NotFound("crdhcpc not installed".to_string())),
            _ => Ok(None),
        }
    }

    /// What a request answers once its crdhcpc run has ended.  A failed
    /// `start` or `renew` is an error; a failed `stop`, `release` or
    /// `status` is not (a failed status means no lease).
    pub fn finish(&self, c: DhcpCommand, interface: &str, outcome: &CommandOutcome) -> (r:
        NetctlResult<Option<DhcpLease>>)
        ensures
            answer_after_run(c, interface@, *outcome, r),
    {
        match outcome {
            CommandOutcome::SpawnFailed(e) => Err(
                NetctlError::CommandFailed {
                    cmd: label(c, interface),
                    code: None,
                    stderr: e.clone(),
                },
            ),
            CommandOutcome::Finished { success, code, stdout: _, stderr } => {
                if !*success && (c == DhcpCommand::Start || c == DhcpCommand::Renew) {
                    Err(
                        NetctlError::CommandFailed {
                            cmd: label(c, interface),
                            code: *code,
                            stderr: stderr.clone(),
                        },
                    )
                } else if *success && c == DhcpCommand::Status {
                    Ok(Some(empty_lease(interface)))
                } else {
                    Ok(None)
                }
            },
        }
    }

    /// Answer of a daemon start, given whether crdhcpc is installed and,
    /// when it is, how the daemon looked after it was started.
    pub fn daemon_answer(&self, installed: bool, outcome: &DaemonOutcome) -> (r: NetctlResult<()>)
        ensures
            !installed ==> (r matches Err(NetctlError::NotFound(m)) && m@
                == "crdhcpc not installed"@),
            installed ==> match *outcome {
                DaemonOutcome::SpawnFailed(e) => r matches Err(
                    NetctlError::CommandFailed { cmd, code, stderr },
                ) && cmd@ == "crdhcpc daemon"@ && code is None && stderr@ == e@,
                DaemonOutcome::Exited { success, code } => if success {
                    r is Ok
                } else {
                    r matches Err(NetctlError::CommandFailed { cmd, code: rc, stderr }) && cmd@
                        == "crdhcpc daemon"@ && rc == code && stderr@
                        == "Daemon exited immediately"@
                },
                DaemonOutcome::Running => r is Ok,
                DaemonOutcome::WaitFailed(e) => r matches Err(
                    NetctlError::CommandFailed { cmd, code, stderr },
                ) && cmd@ == "crdhcpc daemon"@ && code is None && stderr@ == e@,
            },
    {
        if !installed {
            return Err(NetctlError::NotFound("crdhcpc not installed".to_string()));
        }
        match outcome {
            DaemonOutcome::SpawnFailed(e) => Err(
                NetctlError::CommandFailed {
                    cmd: "crdhcpc daemon".to_string(),
                    code: None,
                    stderr: e.clone(),
                },
            ),
            DaemonOutcome::Exited { success, code } => {
                if *success {
                    Ok(())
                } else {
                    Err(
                        NetctlError::CommandFailed {
                            cmd: "crdhcpc daemon".to_string(),
                            code: *code,
                            stderr: "Daemon exited immediately".to_string(),
                        },
                    )
                }
            },
            DaemonOutcome::Running => Ok(()),
            DaemonOutcome::WaitFailed(e) => Err(
                NetctlError::CommandFailed {
                    cmd: "crdhcpc daemon".to_string(),
                    code: None,
                    stderr: e.clone(),
                },
            ),
        }
    }
}

impl Default for DhcpClientController {
    fn default() -> (c: Self)
        ensures
            c.bin() == CRDHCPC_BIN@,
            c.config() == CRDHCPC_CONFIG@,
    {
        Self::new()
    }
}

fn label(c: DhcpCommand, interface: &str) -> (r: String)
    ensures
        r@ == command_label(c, interface@),
{
    let mut s = "crdhcpc ".to_string();
    s.append(c.verb());
    s.append(" ");
    s.append(interface);
    s
}

fn empty_lease(interface: &str) -> (l: DhcpLease)
    ensures
        reported_lease(l, interface@),
{
    DhcpLease {
        interface: interface.to_string(),
        ip_address: None,
        subnet_mask: None,
        gateway: None,
        dns_servers: Vec::new(),
        lease_time: None,
        acquired_at: None,
        server_address: None,
    }
}

} // verus!
