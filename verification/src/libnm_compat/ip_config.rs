//! CRIPConfig - IP configuration (libnm NMIPConfig equivalent)

use vstd::prelude::*;
use crate::ipaddr::{ip_version, ip_version_of};
use crate::text::{decimal, int_decimal, push_decimal, push_int_decimal, eq_str};

verus! {

/// IP address with prefix (equivalent to NMIPAddress)
#[derive(Debug, Clone)]
pub struct CRIPAddress {
    /// IP address as string
    pub address: String,
    /// Prefix length (CIDR notation)
    pub prefix: u32,
}

/// The IPv4 netmask of a prefix length of at most 32, as its 32 bits.
pub open spec fn netmask_bits(prefix: u32) -> u32 {
    if prefix == 0 {
        0
    } else {
        (!0u32) << ((32 - prefix) as u32)
    }
}

/// `address/prefix`
pub open spec fn cidr(address: Seq<char>, prefix: u32) -> Seq<char> {
    address + "/"@ + decimal(prefix as nat)
}

impl CRIPAddress {
    /// Creates a new IP address
    pub fn new(address: String, prefix: u32) -> (a: Self)
        ensures
            a.address@ == address@,
            a.prefix == prefix,
    {
        CRIPAddress { address, prefix }
    }

    /// Gets the address (equivalent to nm_ip_address_get_address)
    pub fn get_address(&self) -> (r: &str)
        ensures
            r@ == self.address@,
    {
        self.address.as_str()
    }

    /// Gets the prefix (equivalent to nm_ip_address_get_prefix)
    pub fn get_prefix(&self) -> (r: u32)
        ensures
            r == self.prefix,
    {
        self.prefix
    }

    /// Checks if this is an IPv6 address (the text is an IPv6 literal)
    pub fn is_ipv6(&self) -> (r: bool)
        ensures
            r == (ip_version(self.address@) == 6),
    {
        ip_version_of(self.address.as_str()) == 6
    }

    /// Checks if this is an IPv4 address (the text is an IPv4 literal)
    pub fn is_ipv4(&self) -> (r: bool)
        ensures
            r == (ip_version(self.address@) == 4),
    {
        ip_version_of(self.address.as_str()) == 4
    }

    /// Gets the netmask (IPv4 only), as its 32 bits: none for an address
    /// that is not IPv4 or a prefix longer than 32.
    pub fn get_netmask(&self) -> (r: Option<u32>)
        ensures
            (ip_version(self.address@) != 4 || self.prefix > 32) ==> r is None,
            (ip_version(self.address@) == 4 && self.prefix <= 32) ==> r == Some(
                netmask_bits(self.prefix),
            ),
    {
        if !self.is_ipv4() || self.prefix > 32 {
            return None;
        }
        let mask: u32 = if self.prefix == 0 {
            0u32
        } else {
            (!0u32) << (32 - self.prefix)
        };
        Some(mask)
    }

    /// Formats as CIDR notation (e.g., "192.168.1.1/24")
    pub fn to_cidr(&self) -> (r: String)
        ensures
            r@ == cidr(self.address@, self.prefix),
    {
        let mut s = self.address.clone();
        s.append("/");
        push_decimal(&mut s, self.prefix as u64);
        s
    }
}

/// IP route (equivalent to NMIPRoute)
#[derive(Debug, Clone)]
pub struct CRIPRoute {
    /// Destination network
    pub dest: String,
    /// Prefix length
    pub prefix: u32,
    /// Next hop (gateway)
    pub next_hop: Option<String>,
    /// Metric
    pub metric: i64,
}

/// A route in text: `dest/prefix`, then ` via <next hop>` when there is
/// one, then ` metric <metric>` when the metric is not negative.
pub open spec fn route_text(r: CRIPRoute) -> Seq<char> {
    cidr(r.dest@, r.prefix) + (match r.next_hop {
        Some(nh) => " via "@ + nh@,
        None => Seq::<char>::empty(),
    }) + (if r.metric >= 0 {
        " metric "@ + int_decimal(r.metric as int)
    } else {
        Seq::<char>::empty()
    })
}

impl CRIPRoute {
    /// Creates a new route, with no next hop and no metric (-1)
    pub fn new(dest: String, prefix: u32) -> (r: Self)
        ensures
            r.dest@ == dest@,
            r.prefix == prefix,
            r.next_hop is None,
            r.metric == -1,
    {
        CRIPRoute { dest, prefix, next_hop: None, metric: -1 }
    }

    /// Gets the destination (equivalent to nm_ip_route_get_dest)
    pub fn get_dest(&self) -> (r: &str)
        ensures
            r@ == self.dest@,
    {
        self.dest.as_str()
    }

    /// Gets the prefix (equivalent to nm_ip_route_get_prefix)
    pub fn get_prefix(&self) -> (r: u32)
        ensures
            r == self.prefix,
    {
        self.prefix
    }

    /// Gets the next hop (equivalent to nm_ip_route_get_next_hop)
    pub fn get_next_hop(&self) -> (r: Option<&str>)
        ensures
            match self.next_hop {
                Some(nh) => r matches Some(s) && s@ == nh@,
                None => r is None,
            },
    {
        match &self.next_hop {
            Some(nh) => Some(nh.as_str()),
            None => None,
        }
    }

    /// Gets the metric (equivalent to nm_ip_route_get_metric)
    pub fn get_metric(&self) -> (r: i64)
        ensures
            r == self.metric,
    {
        self.metric
    }

    /// Sets the next hop (equivalent to nm_ip_route_set_next_hop)
    pub fn set_next_hop(&mut self, next_hop: String)
        ensures
            final(self).next_hop == Some(next_hop),
            final(self).dest == old(self).dest,
            final(self).prefix == old(self).prefix,
            final(self).metric == old(self).metric,
    {
        self.next_hop = Some(next_hop);
    }

    /// Sets the metric (equivalent to nm_ip_route_set_metric)
    pub fn set_metric(&mut self, metric: i64)
        ensures
            final(self).metric == metric,
            final(self).dest == old(self).dest,
            final(self).prefix == old(self).prefix,
            final(self).next_hop == old(self).next_hop,
    {
        self.metric = metric;
    }

    /// Checks if this is a default route: destination 0.0.0.0 or ::
    /// with prefix 0
    pub fn is_default(&self) -> (r: bool)
        ensures
            r == ((self.dest@ == "0.0.0.0"@ || self.dest@ == "::"@) && self.prefix == 0),
    {
        (eq_str(self.dest.as_str(), "0.0.0.0") || eq_str(self.dest.as_str(), "::")) && self.prefix
            == 0
    }

    /// Formats as string (e.g., "192.168.1.0/24 via 192.168.1.1")
    pub fn to_string_format(&self) -> (r: String)
        ensures
            r@ == route_text(*self),
    {
        let mut s = self.dest.clone();
        s.append("/");
        push_decimal(&mut s, self.prefix as u64);
        let ghost base = s@;
        match &self.next_hop {
            Some(nh) => {
                s.append(" via ");
                s.append(nh.as_str());
            },
            None => {},
        }
        let ghost with_hop = s@;
        if self.metric >= 0 {
            s.append(" metric ");
            push_int_decimal(&mut s, self.metric);
        }
        assert(s@ =~= route_text(*self));
        s
    }
}

/// A change made to an IP configuration by one of its changing methods.
pub enum IpConfigChange {
    AddAddress(CRIPAddress),
    AddRoute(CRIPRoute),
    AddNameserver(String),
    SetGateway(String),
}

/// The DNS details (domains, searches, options, priority) and WINS
/// servers of `a` and `b` are the same.
pub open spec fn dns_extras_same(a: CRIPConfig, b: CRIPConfig) -> bool {
    &&& b.domains() == a.domains()
    &&& b.searches() == a.searches()
    &&& b.dns_options() == a.dns_options()
    &&& b.dns_priority() == a.dns_priority()
    &&& b.wins_servers() == a.wins_servers()
}

/// `after` is `before` with the change `ch` made: an address, route or
/// name server is appended (no duplicate check), or the gateway is set;
/// everything else, the family and the interface included, stays.
pub open spec fn is_change(before: CRIPConfig, after: CRIPConfig, ch: IpConfigChange) -> bool {
    &&& after.ipv6() == before.ipv6()
    &&& after.iface() == before.iface()
    &&& dns_extras_same(before, after)
    &&& after.addresses() == match ch {
        IpConfigChange::AddAddress(a) => before.addresses().push(a),
        _ => before.addresses(),
    }
    &&& after.routes() == match ch {
        IpConfigChange::AddRoute(r) => before.routes().push(r),
        _ => before.routes(),
    }
    &&& after.nameservers() == match ch {
        IpConfigChange::AddNameserver(n) => before.nameservers().push(n),
        _ => before.nameservers(),
    }
    &&& after.gateway() == match ch {
        IpConfigChange::SetGateway(g) => Some(g),
        _ => before.gateway(),
    }
}

/// An IP configuration never changes its address family or interface, nor
/// its DNS details and WINS servers: along any sequence of changes
/// (addresses, routes, name servers, gateway) the last configuration has
/// those of the first.  So one made by `new` keeps the family and
/// interface it was made with, and empty DNS details and WINS servers.
pub proof fn lemma_changes_keep_identity(states: Seq<CRIPConfig>, changes: Seq<IpConfigChange>)
    requires
        states.len() == changes.len() + 1,
        forall|i: int| 0 <= i < changes.len() ==> #[trigger] is_change(states[i], states[i + 1], changes[i]),
    ensures
        states.last().ipv6() == states[0].ipv6(),
        states.last().iface() == states[0].iface(),
        dns_extras_same(states[0], states.last()),
    decreases changes.len(),
{
    if changes.len() > 0 {
        let n = changes.len() - 1;
        let prefix = states.take(n + 1);
        let firsts = changes.take(n);
        assert forall|i: int| 0 <= i < firsts.len() implies #[trigger] is_change(prefix[i], prefix[i + 1], firsts[i]) by {
            assert(is_change(states[i], states[i + 1], changes[i]));
        }
        lemma_changes_keep_identity(prefix, firsts);
        assert(is_change(states[n], states[n + 1], changes[n]));
        assert(prefix.last() == states[n]);
    }
}

/// IP configuration (equivalent to NMIPConfig): the IPv4 or IPv6
/// configuration of a device.
#[derive(Debug, Clone)]
pub struct CRIPConfig {
    is_ipv6: bool,
    interface: String,
    addresses: Vec<CRIPAddress>,
    gateway: Option<String>,
    routes: Vec<CRIPRoute>,
    nameservers: Vec<String>,
    domains: Vec<String>,
    searches: Vec<String>,
    dns_options: Vec<String>,
    dns_priority: i32,
    wins_servers: Vec<String>,
}

impl CRIPConfig {
    pub closed spec fn ipv6(&self) -> bool {
        self.is_ipv6
    }

    pub closed spec fn iface(&self) -> Seq<char> {
        self.interface@
    }

    pub closed spec fn addresses(&self) -> Seq<CRIPAddress> {
        self.addresses@
    }

    pub closed spec fn gateway(&self) -> Option<String> {
        self.gateway
    }

    pub closed spec fn routes(&self) -> Seq<CRIPRoute> {
        self.routes@
    }

    pub closed spec fn nameservers(&self) -> Seq<String> {
        self.nameservers@
    }

    pub closed spec fn domains(&self) -> Seq<String> {
        self.domains@
    }

    pub closed spec fn searches(&self) -> Seq<String> {
        self.searches@
    }

    pub closed spec fn dns_options(&self) -> Seq<String> {
        self.dns_options@
    }

    pub closed spec fn dns_priority(&self) -> i32 {
        self.dns_priority
    }

    pub closed spec fn wins_servers(&self) -> Seq<String> {
        self.wins_servers@
    }

    /// Creates a new, empty IP configuration
    pub fn new(is_ipv6: bool, interface: &str) -> (c: Self)
        ensures
            c.ipv6() == is_ipv6,
            c.iface() == interface@,
            c.addresses().len() == 0,
            c.gateway() is None,
            c.routes().len() == 0,
            c.nameservers().len() == 0,
            c.domains().len() == 0,
            c.searches().len() == 0,
            c.dns_options().len() == 0,
            c.dns_priority() == 0,
            c.wins_servers().len() == 0,
    {
        CRIPConfig {
            is_ipv6,
            interface: interface.to_string(),
            addresses: Vec::new(),
            gateway: None,
            routes: Vec::new(),
            nameservers: Vec::new(),
            domains: Vec::new(),
            searches: Vec::new(),
            dns_options: Vec::new(),
            dns_priority: 0,
            wins_servers: Vec::new(),
        }
    }

    /// The configuration reported for an interface: a fixed IPv4 address
    /// (192.168.1.100/24, gateway 192.168.1.1, name servers 8.8.8.8 and
    /// 8.8.4.4) or the IPv6 link-local fe80::1/64.
    pub(crate) fn from_interface(interface: &str, is_ipv6: bool) -> (c: Self)
        ensures
            c.ipv6() == is_ipv6,
            c.iface() == interface@,
            c.addresses().len() == 1,
            !is_ipv6 ==> c.addresses()[0].address@ == "192.168.1.100"@ && c.addresses()[0].prefix
                == 24 && (c.gateway() matches Some(g) && g@ == "192.168.1.1"@) && c.nameservers().len() == 2
                && c.nameservers()[0]@ == "8.8.8.8"@ && c.nameservers()[1]@ == "8.8.4.4"@,
            is_ipv6 ==> c.addresses()[0].address@ == "fe80::1"@ && c.addresses()[0].prefix == 64
                && c.gateway() is None && c.nameservers().len() == 0,
            c.routes().len() == 0,
            c.domains().len() == 0,
            c.searches().len() == 0,
            c.dns_options().len() == 0,
            c.dns_priority() == 0,
            c.wins_servers().len() == 0,
    {
        let mut config = CRIPConfig::new(is_ipv6, interface);
        if !is_ipv6 {
            config.addresses.push(CRIPAddress { address: "192.168.1.100".to_string(), prefix: 24 });
            config.gateway = Some("192.168.1.1".to_string());
            config.nameservers.push("8.8.8.8".to_string());
            config.nameservers.push("8.8.4.4".to_string());
        } else {
            config.addresses.push(CRIPAddress { address: "fe80::1".to_string(), prefix: 64 });
        }
        config
    }

    /// Gets the interface (equivalent to nm_ip_config_get_iface)
    pub fn get_iface(&self) -> (r: &str)
        ensures
            r@ == self.iface(),
    {
        self.interface.as_str()
    }

    /// Gets whether this is IPv6 configuration
    pub fn is_ipv6(&self) -> (r: bool)
        ensures
            r == self.ipv6(),
    {
        self.is_ipv6
    }

    /// Gets the addresses (equivalent to nm_ip_config_get_addresses)
    pub fn get_addresses(&self) -> (r: &[CRIPAddress])
        ensures
            r@ == self.addresses(),
    {
        self.addresses.as_slice()
    }

    /// Gets the gateway (equivalent to nm_ip_config_get_gateway)
    pub fn get_gateway(&self) -> (r: Option<&str>)
        ensures
            match self.gateway() {
                Some(g) => r matches Some(s) && s@ == g@,
                None => r is None,
            },
    {
        match &self.gateway {
            Some(g) => Some(g.as_str()),
            None => None,
        }
    }

    /// Gets the routes (equivalent to nm_ip_config_get_routes)
    pub fn get_routes(&self) -> (r: &[CRIPRoute])
        ensures
            r@ == self.routes(),
    {
        self.routes.as_slice()
    }

    /// Gets the nameservers (equivalent to nm_ip_config_get_nameservers)
    pub fn get_nameservers(&self) -> (r: &[String])
        ensures
            r@ == self.nameservers(),
    {
        self.nameservers.as_slice()
    }

    /// Gets the DNS domains (equivalent to nm_ip_config_get_domains)
    pub fn get_domains(&self) -> (r: &[String])
        ensures
            r@ == self.domains(),
    {
        self.domains.as_slice()
    }

    /// Gets the DNS searches (equivalent to nm_ip_config_get_searches)
    pub fn get_searches(&self) -> (r: &[String])
        ensures
            r@ == self.searches(),
    {
        self.searches.as_slice()
    }

    /// Gets the DNS options (equivalent to nm_ip_config_get_dns_options)
    pub fn get_dns_options(&self) -> (r: &[String])
        ensures
            r@ == self.dns_options(),
    {
        self.dns_options.as_slice()
    }

    /// Gets the DNS priority (equivalent to nm_ip_config_get_dns_priority)
    pub fn get_dns_priority(&self) -> (r: i32)
        ensures
            r == self.dns_priority(),
    {
        self.dns_priority
    }

    /// Gets the WINS servers (IPv4 only) (equivalent to nm_ip_config_get_wins_servers)
    pub fn get_wins_servers(&self) -> (r: &[String])
        ensures
            r@ == self.wins_servers(),
    {
        self.wins_servers.as_slice()
    }

    /// Adds an address
    pub fn add_address(&mut self, address: CRIPAddress)
        ensures
            is_change(*old(self), *final(self), IpConfigChange::AddAddress(address)),
            dns_extras_same(*old(self), *final(self)),
            final(self).addresses() == old(self).addresses().push(address),
            final(self).routes() == old(self).routes(),
            final(self).nameservers() == old(self).nameservers(),
            final(self).gateway() == old(self).gateway(),
            final(self).iface() == old(self).iface(),
            final(self).ipv6() == old(self).ipv6(),
    {
        self.addresses.push(address);
    }

    /// Adds a route
    pub fn add_route(&mut self, route: CRIPRoute)
        ensures
            is_change(*old(self), *final(self), IpConfigChange::AddRoute(route)),
            dns_extras_same(*old(self), *final(self)),
            final(self).routes() == old(self).routes().push(route),
            final(self).addresses() == old(self).addresses(),
            final(self).nameservers() == old(self).nameservers(),
            final(self).gateway() == old(self).gateway(),
            final(self).iface() == old(self).iface(),
            final(self).ipv6() == old(self).ipv6(),
    {
        self.routes.push(route);
    }

    /// Adds a nameserver
    pub fn add_nameserver(&mut self, nameserver: String)
        ensures
            is_change(*old(self), *final(self), IpConfigChange::AddNameserver(nameserver)),
            dns_extras_same(*old(self), *final(self)),
            final(self).nameservers() == old(self).nameservers().push(nameserver),
            final(self).addresses() == old(self).addresses(),
            final(self).routes() == old(self).routes(),
            final(self).gateway() == old(self).gateway(),
            final(self).iface() == old(self).iface(),
            final(self).ipv6() == old(self).ipv6(),
    {
        self.nameservers.push(nameserver);
    }

    /// Sets the gateway
    pub fn set_gateway(&mut self, gateway: String)
        ensures
            is_change(*old(self), *final(self), IpConfigChange::SetGateway(gateway)),
            dns_extras_same(*old(self), *final(self)),
            final(self).gateway() == Some(gateway),
            final(self).addresses() == old(self).addresses(),
            final(self).routes() == old(self).routes(),
            final(self).nameservers() == old(self).nameservers(),
            final(self).iface() == old(self).iface(),
            final(self).ipv6() == old(self).ipv6(),
    {
        self.gateway = Some(gateway);
    }
}

} // verus!
