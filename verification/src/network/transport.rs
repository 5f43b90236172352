//! Transport selection, and the transport handle that carries the node's
//! key pair and the chosen transports to the swarm builder.
use vstd::prelude::*;
use crate::error::WcError;
use crate::external::clone_keypair;

verus! {

/// Which transports are used.
#[derive(Debug, Clone)]
pub struct TransportConfig {
    /// QUIC over UDP.
    pub quic_enabled: bool,
    /// TCP with Noise.
    pub tcp_enabled: bool,
    /// Relay circuits.
    pub relay_enabled: bool,
}

impl Default for TransportConfig {
    /// QUIC, TCP and relay all enabled.
    fn default() -> (r: TransportConfig)
        ensures
            r.quic_enabled && r.tcp_enabled && r.relay_enabled,
    {
        TransportConfig { quic_enabled: true, tcp_enabled: true, relay_enabled: true }
    }
}

/// The node's key pair together with the transports chosen for it, ready
/// to be wired into a swarm.
pub struct BuiltTransport {
    /// Transports to use.
    pub config: TransportConfig,
    /// The node's identity key pair.
    pub keypair: libp2p::identity::Keypair,
}

/// Bind a transport configuration to the node's key pair. QUIC is the
/// primary transport; TCP with Noise and Yamux is the fallback for networks
/// that block UDP. Always succeeds.
pub fn build_transport(keypair: &libp2p::identity::Keypair, config: TransportConfig) -> (r: Result<
    BuiltTransport,
    WcError,
>)
    ensures
        r matches Ok(b) && b.config == config && b.keypair == *keypair,
{
    Ok(BuiltTransport { config, keypair: clone_keypair(keypair) })
}

} // verus!
