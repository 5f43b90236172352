//! Peer discovery settings: mDNS on the local network and a Kademlia DHT
//! seeded from DNS bootstrap addresses.
use vstd::prelude::*;
use crate::external::{duration_from_secs, duration_of_secs};
use crate::text::has_prefix;

verus! {

/// DNS bootstrap seeds of the public network.
pub const BOOTSTRAP_DNS_SEEDS: [&'static str; 3] = [
    "/dnsaddr/bootstrap1.worldcompute.org",
    "/dnsaddr/bootstrap2.worldcompute.org",
    "/dnsaddr/bootstrap3.worldcompute.org",
];

/// Result of merging with another cluster.
#[derive(Debug, Clone)]
pub struct ClusterMergeResult {
    /// Peers announced to the other side.
    pub peers_announced: usize,
    /// Routing-table entries added.
    pub routes_added: usize,
    /// Whether the merge succeeded.
    pub success: bool,
}

/// Discovery settings.
#[derive(Debug)]
pub struct DiscoveryConfig {
    /// Discover peers on the local network.
    pub mdns_enabled: bool,
    /// Use the DHT.
    pub kademlia_enabled: bool,
    /// Bootstrap addresses for the DHT.
    pub bootstrap_seeds: Vec<String>,
    /// Timeout of a DHT query.
    pub kad_query_timeout: std::time::Duration,
}

/// The default bootstrap seeds: the first two DNS seeds.
pub open spec fn default_seeds() -> Seq<Seq<char>> {
    seq!["/dnsaddr/bootstrap1.worldcompute.org"@, "/dnsaddr/bootstrap2.worldcompute.org"@]
}

impl Default for DiscoveryConfig {
    /// mDNS and Kademlia on, two bootstrap seeds, 30 s query timeout.
    fn default() -> (r: DiscoveryConfig)
        ensures
            r.mdns_enabled,
            r.kademlia_enabled,
            r.bootstrap_seeds@.map_values(|s: String| s@) == default_seeds(),
            r.kad_query_timeout == duration_of_secs(30),
    {
        let mut seeds: Vec<String> = Vec::new();
        seeds.push(String::from_str("/dnsaddr/bootstrap1.worldcompute.org"));
        seeds.push(String::from_str("/dnsaddr/bootstrap2.worldcompute.org"));
        assert(seeds@.map_values(|s: String| s@) =~= default_seeds());
        DiscoveryConfig {
            mdns_enabled: true,
            kademlia_enabled: true,
            bootstrap_seeds: seeds,
            kad_query_timeout: duration_from_secs(30),
        }
    }
}

/// Peers known per discovery method.
#[derive(Debug, Clone)]
pub struct PeerCounts {
    /// Peers found by mDNS.
    pub mdns_peers: usize,
    /// Peers in the DHT routing table.
    pub kademlia_peers: usize,
}

} // verus!
