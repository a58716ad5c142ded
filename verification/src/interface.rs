//! Network interface control
//!
//! The `ip` command lines of each interface operation, how a run of `ip`
//! is answered, and how sysfs values and `ip -json` address entries become
//! interface information.  Running `ip` and reading sysfs is left to the
//! caller.

use vstd::prelude::*;
use crate::error::{NetctlError, NetctlResult};
use crate::dhcp_client::CommandOutcome;
use crate::nccli::format::{join_seq, join_strings};
use crate::text::{decimal, push_decimal, trim, trim_seq, parse_unsigned, parsed_unsigned};

verus! {

#[derive(Debug, Clone)]
pub struct InterfaceInfo {
    pub name: String,
    pub index: Option<u32>,
    pub mac_address: Option<String>,
    pub mtu: Option<u32>,
    pub state: Option<String>,
    pub flags: Vec<String>,
    pub addresses: Vec<IpAddress>,
    pub stats: Option<InterfaceStats>,
}

#[derive(Debug, Clone)]
pub struct IpAddress {
    pub address: String,
    /// "inet" or "inet6"
    pub family: String,
    pub prefix_len: u8,
    pub scope: Option<String>,
}

#[derive(Debug, Clone, Copy)]
pub struct InterfaceStats {
    pub rx_bytes: u64,
    pub tx_bytes: u64,
    pub rx_packets: u64,
    pub tx_packets: u64,
    pub rx_errors: u64,
    pub tx_errors: u64,
    pub rx_dropped: u64,
    pub tx_dropped: u64,
}

/// One entry of the `addr_info` list that `ip -json addr show` prints, as
/// far as it was read: each field is present only when it has the
/// expected JSON type.
#[derive(Debug, Clone)]
pub struct IpAddrEntry {
    pub local: Option<String>,
    pub family: Option<String>,
    pub prefixlen: Option<u64>,
    pub scope: Option<String>,
}

pub open spec fn strs(v: Seq<String>) -> Seq<Seq<char>> {
    v.map_values(|s: String| s@)
}

/// The on/off word of a switch.
pub open spec fn on_off(b: bool) -> Seq<char> {
    if b {
        "on"@
    } else {
        "off"@
    }
}

/// `address/prefix`.
pub open spec fn cidr_text(address: Seq<char>, prefix: u8) -> Seq<char> {
    address + "/"@ + decimal(prefix as nat)
}

/// The label of an `ip` run in error reports: `ip` and its arguments.
pub open spec fn ip_label(args: Seq<Seq<char>>) -> Seq<char> {
    "ip "@ + join_seq(args, " "@)
}

/// Interface controller
pub struct InterfaceController {}

impl InterfaceController {
    pub fn new() -> (c: Self) {
        InterfaceController {  }
    }

    /// `ip link set dev <interface> up`
    pub fn up_args(&self, interface: &str) -> (args: Vec<String>)
        ensures
            strs(args@) == seq!["link"@, "set"@, "dev"@, interface@, "up"@],
    {
        let mut a: Vec<String> = Vec::new();
        a.push("link".to_string());
        a.push("set".to_string());
        a.push("dev".to_string());
        a.push(interface.to_string());
        a.push("up".to_string());
        assert(strs(a@) =~= seq!["link"@, "set"@, "dev"@, interface@, "up"@]);
        a
    }

    /// `ip link set dev <interface> down`
    pub fn down_args(&self, interface: &str) -> (args: Vec<String>)
        ensures
            strs(args@) == seq!["link"@, "set"@, "dev"@, interface@, "down"@],
    {
        let mut a: Vec<String> = Vec::new();
        a.push("link".to_string());
        a.push("set".to_string());
        a.push("dev".to_string());
        a.push(interface.to_string());
        a.push("down".to_string());
        assert(strs(a@) =~= seq!["link"@, "set"@, "dev"@, interface@, "down"@]);
        a
    }

    /// `ip link set dev <interface> <key> <value>`
    pub fn link_set_args(&self, interface: &str, key: &str, value: &str) -> (args: Vec<String>)
        ensures
            strs(args@) == seq!["link"@, "set"@, "dev"@, interface@, key@, value@],
    {
        let mut a: Vec<String> = Vec::new();
        a.push("link".to_string());
        a.push("set".to_string());
        a.push("dev".to_string());
        a.push(interface.to_string());
        a.push(key.to_string());
        a.push(value.to_string());
        assert(strs(a@) =~= seq!["link"@, "set"@, "dev"@, interface@, key@, value@]);
        a
    }

    /// `ip addr add <address>/<prefix> dev <interface>` (setting and adding
    /// an address are the same command).
    pub fn set_ip_args(&self, interface: &str, address: &str, prefix_len: u8) -> (args: Vec<String>)
        ensures
            strs(args@) == seq!["addr"@, "add"@, cidr_text(address@, prefix_len), "dev"@, interface@],
    {
        self.addr_args("add", interface, address, prefix_len)
    }

    /// `ip addr del <address>/<prefix> dev <interface>`
    pub fn del_ip_args(&self, interface: &str, address: &str, prefix_len: u8) -> (args: Vec<String>)
        ensures
            strs(args@) == seq!["addr"@, "del"@, cidr_text(address@, prefix_len), "dev"@, interface@],
    {
        self.addr_args("del", interface, address, prefix_len)
    }

    fn addr_args(&self, verb: &str, interface: &str, address: &str, prefix_len: u8) -> (args: Vec<String>)
        ensures
            strs(args@) == seq!["addr"@, verb@, cidr_text(address@, prefix_len), "dev"@, interface@],
    {
        let mut addr = address.to_string();
        addr.append("/");
        push_decimal(&mut addr, prefix_len as u64);
        let mut a: Vec<String> = Vec::new();
        a.push("addr".to_string());
        a.push(verb.to_string());
        a.push(addr);
        a.push("dev".to_string());
        a.push(interface.to_string());
        assert(strs(a@) =~= seq!["addr"@, verb@, cidr_text(address@, prefix_len), "dev"@, interface@]);
        a
    }

    /// `ip addr flush dev <interface>`
    pub fn flush_addrs_args(&self, interface: &str) -> (args: Vec<String>)
        ensures
            strs(args@) == seq!["addr"@, "flush"@, "dev"@, interface@],
    {
        let mut a: Vec<String> = Vec::new();
        a.push("addr".to_string());
        a.push("flush".to_string());
        a.push("dev".to_string());
        a.push(interface.to_string());
        assert(strs(a@) =~= seq!["addr"@, "flush"@, "dev"@, interface@]);
        a
    }

    /// The runs that change a MAC address: down, set the address, up.
    pub fn set_mac_steps(&self, interface: &str, mac: &str) -> (steps: Vec<Vec<String>>)
        ensures
            steps@.len() == 3,
            strs(steps@[0]@) == seq!["link"@, "set"@, "dev"@, interface@, "down"@],
            strs(steps@[1]@) == seq!["link"@, "set"@, "dev"@, interface@, "address"@, mac@],
            strs(steps@[2]@) == seq!["link"@, "set"@, "dev"@, interface@, "up"@],
    {
        let mut steps: Vec<Vec<String>> = Vec::new();
        steps.push(self.down_args(interface));
        steps.push(self.link_set_args(interface, "address", mac));
        steps.push(self.up_args(interface));
        steps
    }

    /// `ip link set dev <interface> mtu <mtu>`
    pub fn set_mtu_args(&self, interface: &str, mtu: u32) -> (args: Vec<String>)
        ensures
            strs(args@) == seq!["link"@, "set"@, "dev"@, interface@, "mtu"@, decimal(mtu as nat)],
    {
        let v = crate::text::decimal_string(mtu as u64);
        self.link_set_args(interface, "mtu", v.as_str())
    }

    /// `ip link set dev <interface> txqueuelen <len>`
    pub fn set_txqueuelen_args(&self, interface: &str, len: u32) -> (args: Vec<String>)
        ensures
            strs(args@) == seq!["link"@, "set"@, "dev"@, interface@, "txqueuelen"@, decimal(len as nat)],
    {
        let v = crate::text::decimal_string(len as u64);
        self.link_set_args(interface, "txqueuelen", v.as_str())
    }

    /// `ip link set dev <interface> promisc on|off`
    pub fn set_promisc_args(&self, interface: &str, enable: bool) -> (args: Vec<String>)
        ensures
            strs(args@) == seq!["link"@, "set"@, "dev"@, interface@, "promisc"@, on_off(enable)],
    {
        self.link_set_args(interface, "promisc", if enable { "on" } else { "off" })
    }

    /// `ip link set dev <interface> multicast on|off`
    pub fn set_multicast_args(&self, interface: &str, enable: bool) -> (args: Vec<String>)
        ensures
            strs(args@) == seq!["link"@, "set"@, "dev"@, interface@, "multicast"@, on_off(enable)],
    {
        self.link_set_args(interface, "multicast", if enable { "on" } else { "off" })
    }

    /// `ip link set dev <interface> allmulticast on|off`
    pub fn set_allmulticast_args(&self, interface: &str, enable: bool) -> (args: Vec<String>)
        ensures
            strs(args@) == seq!["link"@, "set"@, "dev"@, interface@, "allmulticast"@, on_off(enable)],
    {
        self.link_set_args(interface, "allmulticast", if enable { "on" } else { "off" })
    }

    /// The runs that rename an interface: down, rename, up under the new
    /// name.
    pub fn rename_steps(&self, old_name: &str, new_name: &str) -> (steps: Vec<Vec<String>>)
        ensures
            steps@.len() == 3,
            strs(steps@[0]@) == seq!["link"@, "set"@, "dev"@, old_name@, "down"@],
            strs(steps@[1]@) == seq!["link"@, "set"@, "dev"@, old_name@, "name"@, new_name@],
            strs(steps@[2]@) == seq!["link"@, "set"@, "dev"@, new_name@, "up"@],
    {
        let mut steps: Vec<Vec<String>> = Vec::new();
        steps.push(self.down_args(old_name));
        steps.push(self.link_set_args(old_name, "name", new_name));
        steps.push(self.up_args(new_name));
        steps
    }

    /// How a run of `ip` is answered: an error naming the command line
    /// when it could not start or failed, success otherwise.
    pub fn ip_result(&self, args: &Vec<String>, outcome: &CommandOutcome) -> (r: NetctlResult<()>)
        ensures
            match *outcome {
                CommandOutcome::SpawnFailed(e) => r matches Err(
                    NetctlError::CommandFailed { cmd, code, stderr },
                ) && cmd@ == ip_label(strs(args@)) && code is None && stderr@ == e@,
                CommandOutcome::Finished { success, code, stdout: _, stderr } => if success {
                    r is Ok
                } else {
                    r matches Err(NetctlError::CommandFailed { cmd, code: c, stderr: s }) && cmd@
                        == ip_label(strs(args@)) && c == code && s@ == stderr@
                },
            },
    {
        match outcome {
            CommandOutcome::SpawnFailed(e) => {
                let mut cmd = "ip ".to_string();
                let j = join_strings(args, " ");
                cmd.append(j.as_str());
                Err(NetctlError::CommandFailed { cmd, code: None, stderr: e.clone() })
            },
            CommandOutcome::Finished { success, code, stdout: _, stderr } => {
                if *success {
                    Ok(())
                } else {
                    let mut cmd = "ip ".to_string();
                    let j = join_strings(args, " ");
                    cmd.append(j.as_str());
                    Err(NetctlError::CommandFailed { cmd, code: *code, stderr: stderr.clone() })
                }
            },
        }
    }
}

impl Default for InterfaceController {
    fn default() -> (c: Self) {
        InterfaceController::new()
    }
}

/// `/sys/class/net/<interface>/<file>`
pub fn sysfs_path(interface: &str, file: &str) -> (r: String)
    ensures
        r@ == "/sys/class/net/"@ + interface@ + "/"@ + file@,
{
    let mut p = "/sys/class/net/".to_string();
    p.append(interface);
    p.append("/");
    p.append(file);
    p
}

/// A sysfs value: the file's text, trimmed.
pub fn sysfs_text(content: Option<&str>) -> (r: Option<String>)
    ensures
        match content {
            Some(c) => r matches Some(t) && t@ == trim_seq(c@),
            None => r is None,
        },
{
    match content {
        Some(c) => Some(trim(c)),
        None => None,
    }
}

/// A numeric sysfs value: the trimmed text as a number.
pub fn sysfs_number(content: Option<&str>, max: u64) -> (r: Option<u64>)
    ensures
        match content {
            Some(c) => match parsed_unsigned(trim_seq(c@), max as nat) {
                Some(v) => r == Some(v as u64),
                None => r is None,
            },
            None => r is None,
        },
{
    match content {
        Some(c) => {
            let t = trim(c);
            parse_unsigned(t.as_str(), max)
        },
        None => None,
    }
}

/// The statistics of an interface: the byte and packet counters must all
/// have been read; the error and drop counters count as 0 when missing.
pub fn stats_from(
    rx_bytes: Option<u64>,
    tx_bytes: Option<u64>,
    rx_packets: Option<u64>,
    tx_packets: Option<u64>,
    rx_errors: Option<u64>,
    tx_errors: Option<u64>,
    rx_dropped: Option<u64>,
    tx_dropped: Option<u64>,
) -> (r: Option<InterfaceStats>)
    ensures
        (rx_bytes is Some && tx_bytes is Some && rx_packets is Some && tx_packets is Some) <==> r is Some,
        r matches Some(s) ==> s.rx_bytes == rx_bytes->0 && s.tx_bytes == tx_bytes->0 && s.rx_packets
            == rx_packets->0 && s.tx_packets == tx_packets->0 && s.rx_errors == (match rx_errors {
            Some(v) => v,
            None => 0,
        }) && s.tx_errors == (match tx_errors {
            Some(v) => v,
            None => 0,
        }) && s.rx_dropped == (match rx_dropped {
            Some(v) => v,
            None => 0,
        }) && s.tx_dropped == (match tx_dropped {
            Some(v) => v,
            None => 0,
        }),
{
    match (rx_bytes, tx_bytes, rx_packets, tx_packets) {
        (Some(a), Some(b), Some(c), Some(d)) => Some(
            InterfaceStats {
                rx_bytes: a,
                tx_bytes: b,
                rx_packets: c,
                tx_packets: d,
                rx_errors: match rx_errors {
                    Some(v) => v,
                    None => 0,
                },
                tx_errors: match tx_errors {
                    Some(v) => v,
                    None => 0,
                },
                rx_dropped: match rx_dropped {
                    Some(v) => v,
                    None => 0,
                },
                tx_dropped: match tx_dropped {
                    Some(v) => v,
                    None => 0,
                },
            },
        ),
        _ => None,
    }
}

/// An address entry is used when it has an address, a family and a
/// prefix length.
pub open spec fn complete_entry(e: IpAddrEntry) -> bool {
    e.local is Some && e.family is Some && e.prefixlen is Some
}

/// The address of a complete entry (the prefix length is truncated to a
/// byte).
pub open spec fn entry_address(e: IpAddrEntry, a: IpAddress) -> bool {
    &&& a.address@ == e.local->0@
    &&& a.family@ == e.family->0@
    &&& a.prefix_len == (e.prefixlen->0 % 256) as u8
    &&& match e.scope {
        Some(s) => a.scope matches Some(t) && t@ == s@,
        None => a.scope is None,
    }
}

/// The indices of the complete entries, in order.
pub open spec fn complete_indices(es: Seq<IpAddrEntry>) -> Seq<int>
    decreases es.len(),
{
    if es.len() == 0 {
        Seq::empty()
    } else {
        let rest = complete_indices(es.drop_last());
        if complete_entry(es.last()) {
            rest.push(es.len() - 1)
        } else {
            rest
        }
    }
}

proof fn lemma_complete_indices_bound(es: Seq<IpAddrEntry>)
    ensures
        forall|k: int| 0 <= k < complete_indices(es).len() ==> 0 <= #[trigger] complete_indices(es)[k] < es.len(),
    decreases es.len(),
{
    if es.len() > 0 {
        let rest = complete_indices(es.drop_last());
        lemma_complete_indices_bound(es.drop_last());
        assert forall|k: int| 0 <= k < complete_indices(es).len() implies 0
            <= #[trigger] complete_indices(es)[k] < es.len() by {
            if k < rest.len() {
                assert(complete_indices(es)[k] == rest[k]);
            }
        }
    }
}

/// The addresses of the `addr_info` entries of an interface: one for each
/// complete entry, in order.
pub fn addresses_from_entries(entries: &Vec<IpAddrEntry>) -> (r: Vec<IpAddress>)
    ensures
        r@.len() == complete_indices(entries@).len(),
        forall|k: int|
            0 <= k < r@.len() ==> entry_address(entries@[complete_indices(entries@)[k]], #[trigger] r@[k]),
{
    let mut r: Vec<IpAddress> = Vec::new();
    let mut i: usize = 0;
    while i < entries.len()
        invariant
            i <= entries@.len(),
            r@.len() == complete_indices(entries@.take(i as int)).len(),
            forall|k: int|
                0 <= k < r@.len() ==> entry_address(
                    entries@[complete_indices(entries@.take(i as int))[k]],
                    #[trigger] r@[k],
                ),
        decreases entries@.len() - i,
    {
        let ghost pre = entries@.take(i as int);
        let ghost next = entries@.take(i + 1);
        assert(next.drop_last() =~= pre);
        proof {
            lemma_complete_indices_bound(pre);
        }
        let e = &entries[i];
        match (&e.local, &e.family, e.prefixlen) {
            (Some(local), Some(family), Some(p)) => {
                let scope = match &e.scope {
                    Some(s) => Some(s.clone()),
                    None => None,
                };
                let prefix: u8 = (p % 256) as u8;
                r.push(
                    IpAddress { address: local.clone(), family: family.clone(), prefix_len: prefix, scope },
                );
                assert(complete_indices(next) == complete_indices(pre).push(i as int));
            },
            _ => {
                assert(complete_indices(next) == complete_indices(pre));
            },
        }
        i += 1;
    }
    assert(entries@.take(entries@.len() as int) =~= entries@);
    r
}

/// The error of an interface that does not exist.
pub fn interface_not_found(interface: &str) -> (e: NetctlError)
    ensures
        e matches NetctlError::InterfaceNotFound(m) && m@ == interface@,
{
    NetctlError::InterfaceNotFound(interface.to_string())
}

} // verus!
