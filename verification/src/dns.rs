//! DNS server management via unbound

use vstd::prelude::*;

verus! {

#[derive(Debug, Clone)]
pub struct DnsConfig {
    pub interface: Option<String>,
    pub forwarders: Vec<String>,
    pub dnssec: bool,
}

impl Default for DnsConfig {
    /// No interface, the 1.1.1.1 and 8.8.8.8 forwarders, DNSSEC on.
    fn default() -> (c: Self)
        ensures
            c.interface is None,
            c.forwarders@.len() == 2,
            c.forwarders@[0]@ == "1.1.1.1"@,
            c.forwarders@[1]@ == "8.8.8.8"@,
            c.dnssec,
    {
        let mut forwarders: Vec<String> = Vec::new();
        forwarders.push("1.1.1.1".to_string());
        forwarders.push("8.8.8.8".to_string());
        DnsConfig { interface: None, forwarders, dnssec: true }
    }
}

pub struct DnsController;

impl DnsController {
    pub fn new() -> (c: Self) {
        DnsController
    }
}

impl Default for DnsController {
    fn default() -> (c: Self) {
        DnsController::new()
    }
}

} // verus!
