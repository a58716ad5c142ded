//! CR DHCP Server D-Bus interface
//!
//! The state behind `org.crrouter.NetworkControl.DHCP`: whether the server
//! runs, with which configuration, and the leases it handed out.

use vstd::prelude::*;
use vstd::string::*;
use crate::cr_dbus::types::CRDhcpLease;
use crate::cr_dbus::props::{PropValue, PropView, DbusError, props_view, push_prop, copy_strings};

use crate::clock::unix_now_secs;

verus! {

/// Configuration of a running DHCP server.
#[derive(Debug, Clone)]
pub struct DhcpServerConfig {
    pub interface: String,
    pub range_start: String,
    pub range_end: String,
    pub gateway: String,
    pub dns_servers: Vec<String>,
}

/// The configuration as character sequences.
pub type DhcpServerConfigView = (Seq<char>, Seq<char>, Seq<char>, Seq<char>, Seq<Seq<char>>);

pub open spec fn config_view(c: DhcpServerConfig) -> DhcpServerConfigView {
    (
        c.interface@,
        c.range_start@,
        c.range_end@,
        c.gateway@,
        c.dns_servers@.map_values(|s: String| s@),
    )
}

/// The leases that have not expired at `now` (their expiry is later), in
/// order.
pub open spec fn unexpired(leases: Seq<CRDhcpLease>, now: u64) -> Seq<CRDhcpLease>
    decreases leases.len(),
{
    if leases.len() == 0 {
        leases
    } else {
        let rest = unexpired(leases.drop_last(), now);
        if leases.last().expiry > now {
            rest.push(leases.last())
        } else {
            rest
        }
    }
}

/// Why a start request is refused, if it is.
pub open spec fn start_refusal(
    running: bool,
    interface: Seq<char>,
    range_start: Seq<char>,
    range_end: Seq<char>,
    gateway: Seq<char>,
) -> Option<DbusErrorView> {
    if interface.len() == 0 {
        Some(DbusErrorView::InvalidArgs("Interface cannot be empty"@))
    } else if range_start.len() == 0 || range_end.len() == 0 {
        Some(DbusErrorView::InvalidArgs("IP range cannot be empty"@))
    } else if gateway.len() == 0 {
        Some(DbusErrorView::InvalidArgs("Gateway cannot be empty"@))
    } else if running {
        Some(DbusErrorView::Failed("DHCP server already running"@))
    } else {
        None
    }
}

/// A D-Bus error with its message taken as a character sequence.
pub enum DbusErrorView {
    InvalidArgs(Seq<char>),
    Failed(Seq<char>),
    AccessDenied(Seq<char>),
}

pub open spec fn error_view(e: DbusError) -> DbusErrorView {
    match e {
        DbusError::InvalidArgs(m) => DbusErrorView::InvalidArgs(m@),
        DbusError::Failed(m) => DbusErrorView::Failed(m@),
        DbusError::AccessDenied(m) => DbusErrorView::AccessDenied(m@),
    }
}

/// The status properties: Running; the configuration when there is one;
/// the number of leases.
pub open spec fn status_view(
    running: bool,
    config: Option<DhcpServerConfigView>,
    lease_count: nat,
) -> Seq<(Seq<char>, PropView)> {
    seq![("Running"@, PropView::Bool(running))] + (match config {
        Some(c) => seq![
            ("Interface"@, PropView::Str(c.0)),
            ("RangeStart"@, PropView::Str(c.1)),
            ("RangeEnd"@, PropView::Str(c.2)),
            ("Gateway"@, PropView::Str(c.3)),
            ("DNSServers"@, PropView::StrList(c.4)),
        ],
        None => Seq::empty(),
    }) + seq![("LeaseCount"@, PropView::U32(lease_count as u32))]
}

/// The properties of a lease: addresses, the host name when known, the
/// expiry and start times.
pub open spec fn lease_view(l: CRDhcpLease) -> Seq<(Seq<char>, PropView)> {
    seq![("MACAddress"@, PropView::Str(l.mac_address@)), ("IPAddress"@, PropView::Str(l.ip_address@))]
        + (match l.hostname {
        Some(h) => seq![("Hostname"@, PropView::Str(h@))],
        None => Seq::empty(),
    }) + seq![("Expiry"@, PropView::U64(l.expiry)), ("StartTime"@, PropView::U64(l.start_time))]
}

/// DHCP server state
pub struct CRDhcp {
    running: bool,
    config: Option<DhcpServerConfig>,
    leases: Vec<CRDhcpLease>,
}

impl CRDhcp {
    pub closed spec fn running(&self) -> bool {
        self.running
    }

    pub closed spec fn config(&self) -> Option<DhcpServerConfigView> {
        match self.config {
            Some(c) => Some(config_view(c)),
            None => None,
        }
    }

    pub closed spec fn leases(&self) -> Seq<CRDhcpLease> {
        self.leases@
    }

    /// A stopped server with no configuration and no lease.
    pub fn new() -> (d: Self)
        ensures
            !d.running(),
            d.config() is None,
            d.leases().len() == 0,
    {
        CRDhcp { running: false, config: None, leases: Vec::new() }
    }

    /// Record whether the server runs.
    pub fn set_running(&mut self, running: bool)
        ensures
            final(self).running() == running,
            final(self).config() == old(self).config(),
            final(self).leases() == old(self).leases(),
    {
        self.running = running;
    }

    /// Record a lease.
    pub fn add_lease(&mut self, lease: CRDhcpLease)
        ensures
            final(self).leases() == old(self).leases().push(lease),
            final(self).running() == old(self).running(),
            final(self).config() == old(self).config(),
    {
        self.leases.push(lease);
    }

    /// Forget the leases that expired at `now`.
    pub fn remove_leases_expired_at(&mut self, now: u64)
        ensures
            final(self).leases() == unexpired(old(self).leases(), now),
            final(self).running() == old(self).running(),
            final(self).config() == old(self).config(),
    {
        let mut kept: Vec<CRDhcpLease> = Vec::new();
        let mut old_leases: Vec<CRDhcpLease> = Vec::new();
        std::mem::swap(&mut old_leases, &mut self.leases);
        let ghost all = old_leases@;
        assert(all.skip(0) =~= all);
        while old_leases.len() > 0
            invariant
                old_leases@.len() <= all.len(),
                old_leases@ == all.skip(all.len() - old_leases@.len()),
                kept@ == unexpired(all.take(all.len() - old_leases@.len()), now),
            decreases old_leases@.len(),
        {
            let ghost i = all.len() - old_leases@.len();
            assert(all.take(i + 1).drop_last() =~= all.take(i));
            let l = old_leases.remove(0);
            assert(l == all[i]);
            assert(old_leases@ =~= all.skip(i + 1));
            if l.expiry > now {
                kept.push(l);
            }
        }
        assert(all.take(all.len() as int) =~= all);
        self.leases = kept;
    }

    /// Forget the leases that have expired by now: those expiring at or
    /// before the clock's reading.  When the clock is set before the Unix
    /// epoch no lease has expired, and all are kept.
    pub fn remove_expired_leases(&mut self)
        ensures
            (exists|now: u64| final(self).leases() == unexpired(old(self).leases(), now))
                || final(self).leases() == old(self).leases(),
            final(self).running() == old(self).running(),
            final(self).config() == old(self).config(),
    {
        match unix_now_secs() {
            Some(now) => self.remove_leases_expired_at(now),
            None => {},
        }
    }

    /// StartServer: checks the arguments, refuses a second start, then
    /// records the configuration and runs.
    pub fn start_server(
        &mut self,
        interface: &str,
        range_start: &str,
        range_end: &str,
        gateway: &str,
        dns_servers: Vec<String>,
    ) -> (r: Result<(), DbusError>)
        ensures
            match start_refusal(old(self).running(), interface@, range_start@, range_end@, gateway@) {
                Some(e) => r matches Err(err) && error_view(err) == e && final(self).running()
                    == old(self).running() && final(self).config() == old(self).config(),
                None => r is Ok && final(self).running() && final(self).config() == Some(
                    (
                        interface@,
                        range_start@,
                        range_end@,
                        gateway@,
                        dns_servers@.map_values(|s: String| s@),
                    ),
                ),
            },
            final(self).leases() == old(self).leases(),
    {
        if interface.unicode_len() == 0 {
            return Err(DbusError::InvalidArgs("Interface cannot be empty".to_string()));
        }
        if range_start.unicode_len() == 0 || range_end.unicode_len() == 0 {
            return Err(DbusError::InvalidArgs("IP range cannot be empty".to_string()));
        }
        if gateway.unicode_len() == 0 {
            return Err(DbusError::InvalidArgs("Gateway cannot be empty".to_string()));
        }
        if self.running {
            return Err(DbusError::Failed("DHCP server already running".to_string()));
        }
        self.config = Some(
            DhcpServerConfig {
                interface: interface.to_string(),
                range_start: range_start.to_string(),
                range_end: range_end.to_string(),
                gateway: gateway.to_string(),
                dns_servers,
            },
        );
        self.set_running(true);
        Ok(())
    }

    /// StopServer: refused when the server does not run; otherwise the
    /// configuration is cleared and the server stops.
    pub fn stop_server(&mut self) -> (r: Result<(), DbusError>)
        ensures
            !old(self).running() ==> (r matches Err(DbusError::Failed(m)) && m@
                == "DHCP server not running"@ && final(self).running() == old(self).running()
                && final(self).config() == old(self).config()),
            old(self).running() ==> r is Ok && !final(self).running() && final(self).config() is None,
            final(self).leases() == old(self).leases(),
    {
        if !self.running {
            return Err(DbusError::Failed("DHCP server not running".to_string()));
        }
        self.config = None;
        self.set_running(false);
        Ok(())
    }

    /// GetStatus
    pub fn get_status(&self) -> (r: Vec<(String, PropValue)>)
        ensures
            props_view(r@) == status_view(self.running(), self.config(), self.leases().len()),
    {
        let mut status: Vec<(String, PropValue)> = Vec::new();
        push_prop(&mut status, "Running", PropValue::Bool(self.running));
        match &self.config {
            Some(c) => {
                push_prop(&mut status, "Interface", PropValue::Str(c.interface.clone()));
                push_prop(&mut status, "RangeStart", PropValue::Str(c.range_start.clone()));
                push_prop(&mut status, "RangeEnd", PropValue::Str(c.range_end.clone()));
                push_prop(&mut status, "Gateway", PropValue::Str(c.gateway.clone()));
                push_prop(&mut status, "DNSServers", PropValue::StrList(copy_strings(&c.dns_servers)));
            },
            None => {},
        }
        push_prop(&mut status, "LeaseCount", PropValue::U32(self.leases.len() as u32));
        assert(props_view(status@) =~= status_view(self.running(), self.config(), self.leases().len()));
        status
    }

    /// GetLeases
    pub fn get_leases(&self) -> (r: Vec<Vec<(String, PropValue)>>)
        ensures
            r@.len() == self.leases().len(),
            forall|i: int| 0 <= i < r@.len() ==> props_view(#[trigger] r@[i]@) == lease_view(self.leases()[i]),
    {
        let mut result: Vec<Vec<(String, PropValue)>> = Vec::new();
        let mut i: usize = 0;
        while i < self.leases.len()
            invariant
                i <= self.leases@.len(),
                result@.len() == i,
                forall|j: int| 0 <= j < i ==> props_view(#[trigger] result@[j]@) == lease_view(self.leases@[j]),
            decreases self.leases@.len() - i,
        {
            let lease = &self.leases[i];
            let mut info: Vec<(String, PropValue)> = Vec::new();
            push_prop(&mut info, "MACAddress", PropValue::Str(lease.mac_address.clone()));
            push_prop(&mut info, "IPAddress", PropValue::Str(lease.ip_address.clone()));
            match &lease.hostname {
                Some(h) => push_prop(&mut info, "Hostname", PropValue::Str(h.clone())),
                None => {},
            }
            push_prop(&mut info, "Expiry", PropValue::U64(lease.expiry));
            push_prop(&mut info, "StartTime", PropValue::U64(lease.start_time));
            assert(props_view(info@) =~= lease_view(self.leases@[i as int]));
            result.push(info);
            i += 1;
        }
        result
    }

    /// IsRunning
    pub fn is_running(&self) -> (r: bool)
        ensures
            r == self.running(),
    {
        self.running
    }
}

impl Default for CRDhcp {
    fn default() -> (d: Self)
        ensures
            !d.running(),
            d.config() is None,
            d.leases().len() == 0,
    {
        CRDhcp::new()
    }
}

} // verus!

verus! {

/// Removing expired leases keeps exactly the leases that expire later than
/// `now`: every kept lease does, and every such lease is kept.
pub proof fn lemma_unexpired_keeps(leases: Seq<CRDhcpLease>, now: u64)
    ensures
        forall|i: int| 0 <= i < unexpired(leases, now).len() ==> #[trigger] unexpired(leases, now)[i].expiry > now,
        forall|l: CRDhcpLease| #[trigger] leases.contains(l) && l.expiry > now ==> unexpired(leases, now).contains(l),
        forall|l: CRDhcpLease| #[trigger] unexpired(leases, now).contains(l) ==> leases.contains(l),
    decreases leases.len(),
{
    if leases.len() > 0 {
        let init = leases.drop_last();
        lemma_unexpired_keeps(init, now);
        let rest = unexpired(init, now);
        assert forall|i: int| 0 <= i < unexpired(leases, now).len() implies #[trigger] unexpired(leases, now)[i].expiry > now by {
            if i < rest.len() {
                assert(unexpired(leases, now)[i] == rest[i]);
            }
        }
        assert forall|l: CRDhcpLease| #[trigger] leases.contains(l) && l.expiry > now implies unexpired(leases, now).contains(l) by {
            let j = choose|j: int| 0 <= j < leases.len() && leases[j] == l;
            if j < leases.len() - 1 {
                assert(init[j] == l);
                assert(init.contains(l));
                let k = choose|k: int| 0 <= k < rest.len() && rest[k] == l;
                assert(unexpired(leases, now)[k] == l);
            } else {
                assert(unexpired(leases, now)[unexpired(leases, now).len() - 1] == l);
            }
        }
        assert forall|l: CRDhcpLease| #[trigger] unexpired(leases, now).contains(l) implies leases.contains(l) by {
            let k = choose|k: int| 0 <= k < unexpired(leases, now).len() && unexpired(leases, now)[k] == l;
            if k < rest.len() {
                assert(rest[k] == l);
                assert(rest.contains(l));
                let j = choose|j: int| 0 <= j < init.len() && init[j] == l;
                assert(leases[j] == l);
            } else {
                assert(leases[leases.len() - 1] == l);
            }
        }
    }
}

/// Removing expired leases twice at the same time removes nothing more.
pub proof fn lemma_unexpired_idempotent(leases: Seq<CRDhcpLease>, now: u64)
    ensures
        unexpired(unexpired(leases, now), now) == unexpired(leases, now),
    decreases leases.len(),
{
    if leases.len() > 0 {
        let init = leases.drop_last();
        lemma_unexpired_idempotent(init, now);
        let rest = unexpired(init, now);
        if leases.last().expiry > now {
            assert(rest.push(leases.last()).drop_last() =~= rest);
        }
    }
}

/// A start request that a stopped server accepts is refused by a running
/// one: a server is never started twice.
pub proof fn lemma_no_second_start(
    interface: Seq<char>,
    range_start: Seq<char>,
    range_end: Seq<char>,
    gateway: Seq<char>,
)
    requires
        start_refusal(false, interface, range_start, range_end, gateway) is None,
    ensures
        start_refusal(true, interface, range_start, range_end, gateway) == Some(
            DbusErrorView::Failed("DHCP server already running"@),
        ),
{
}

} // verus!
