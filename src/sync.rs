//! The change that publishes a DNS server in a network's configuration.
use vstd::prelude::*;
use crate::domain::Domain;

verus! {

/// The DNS settings of a network: its domain, in relative form, and the
/// addresses of its name servers, in order.
#[derive(Debug, Clone, PartialEq, Eq)]
pub struct DnsSettings {
    pub domain: String,
    pub servers: Vec<String>,
}

/// A network's configuration: its DNS settings, and the rest of it, which
/// is carried through as it is.
#[derive(Debug, Clone)]
pub struct NetworkConfig<C> {
    pub dns: Option<DnsSettings>,
    pub rest: C,
}

/// The settings that name `ip` as the only DNS server of `domain`.
pub fn dns_settings(domain: &Domain, ip: String) -> (r: DnsSettings)
    requires
        domain.wf(),
    ensures
        r.domain@ == domain@.drop_last(),
        r.servers@ == seq![ip],
{
    DnsSettings { domain: domain.to_relative(), servers: vec![ip] }
}

/// The configuration to write back so that `ip` is the network's DNS server
/// for `domain`: the fetched one with its DNS settings replaced and nothing
/// else changed. A network without a configuration gets no update.
pub fn plan_dns_update<C>(config: Option<NetworkConfig<C>>, domain: &Domain, ip: String) -> (r:
    Option<NetworkConfig<C>>)
    requires
        domain.wf(),
    ensures
        match config {
            None => r is None,
            Some(c) => r matches Some(n) && n.rest == c.rest && (n.dns matches Some(d) && (
            d.domain@ == domain@.drop_last() && d.servers@ == seq![ip])),
        },
{
    match config {
        None => None,
        Some(c) => Some(NetworkConfig { dns: Some(dns_settings(domain, ip)), rest: c.rest }),
    }
}

} // verus!
