//! Networking policy: rate limits, the REST gateway, NAT classification,
//! transports, TLS and relay reservations.
pub mod rate_limit;
pub mod rest_gateway;
pub mod nat_traversal;
pub mod wss_transport;
pub mod tls;
pub mod relay_reservation;
pub mod dial_logging;
pub mod discovery;
pub mod dispatch;
pub mod doh_resolver;
pub mod gossip;
pub mod transport;
