//! Settings of the DNS-over-HTTPS fallback resolver.
use vstd::prelude::*;
use crate::external::{duration_from_secs, duration_of_secs};

verus! {

/// DoH fallback settings.
#[derive(Debug, Clone)]
pub struct DohResolverConfig {
    /// Whether the fallback is used.
    pub enabled: bool,
    /// DoH endpoints.
    pub upstreams: Vec<String>,
    /// Per-query timeout.
    pub timeout: std::time::Duration,
}

/// The default upstreams: Cloudflare and Google.
pub open spec fn default_upstreams() -> Seq<Seq<char>> {
    seq!["https://cloudflare-dns.com/dns-query"@, "https://dns.google/dns-query"@]
}

impl Default for DohResolverConfig {
    /// Enabled, Cloudflare and Google upstreams, 5 s timeout.
    fn default() -> (r: DohResolverConfig)
        ensures
            r.enabled,
            r.upstreams@.map_values(|s: String| s@) == default_upstreams(),
            r.timeout == duration_of_secs(5),
    {
        let mut up: Vec<String> = Vec::new();
        up.push(String::from_str("https://cloudflare-dns.com/dns-query"));
        up.push(String::from_str("https://dns.google/dns-query"));
        assert(up@.map_values(|s: String| s@) =~= default_upstreams());
        DohResolverConfig { enabled: true, upstreams: up, timeout: duration_from_secs(5) }
    }
}

} // verus!
