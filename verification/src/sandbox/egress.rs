//! Egress policy of sandboxes: default deny, explicit endpoint allowlists,
//! and destinations that are always blocked (private, loopback, link-local,
//! cloud metadata, multicast and broadcast addresses).
use vstd::prelude::*;
use crate::types::IpAddress;

verus! {

/// Protocol of an approved endpoint.
#[derive(Debug, Clone, Copy, PartialEq, Eq, Structural, Hash)]
pub enum EgressProtocol {
    /// HTTPS.
    Https,
    /// Plain HTTP.
    Http,
}

/// An endpoint that a workload may reach.
#[derive(Debug, Clone)]
pub struct ApprovedEndpoint {
    /// Host name.
    pub host: String,
    /// Port.
    pub port: u16,
    /// Protocol.
    pub protocol: EgressProtocol,
}

/// Egress policy of a sandbox.
#[derive(Debug, Clone)]
pub struct EgressPolicy {
    /// Whether any egress is allowed.
    pub egress_allowed: bool,
    /// Endpoints that may be reached.
    pub approved_endpoints: Vec<ApprovedEndpoint>,
    /// Largest total egress, bytes.
    pub max_egress_bytes: u64,
}

impl EgressPolicy {
    /// No egress at all.
    pub fn deny_all() -> (r: EgressPolicy)
        ensures
            !r.egress_allowed,
            r.approved_endpoints@.len() == 0,
            r.max_egress_bytes == 0,
    {
        EgressPolicy { egress_allowed: false, approved_endpoints: Vec::new(), max_egress_bytes: 0 }
    }

    /// Egress to the given endpoints only; allowed only if there is one.
    pub fn allow_endpoints(endpoints: Vec<ApprovedEndpoint>, max_bytes: u64) -> (r: EgressPolicy)
        ensures
            r.egress_allowed == (endpoints@.len() > 0),
            r.approved_endpoints@ == endpoints@,
            r.max_egress_bytes == max_bytes,
    {
        let allowed = endpoints.len() > 0;
        EgressPolicy { egress_allowed: allowed, approved_endpoints: endpoints, max_egress_bytes: max_bytes }
    }
}

/// Addresses that a sandbox may never reach: RFC 1918 private ranges,
/// loopback, link-local (including cloud metadata 169.254.169.254),
/// multicast and broadcast for IPv4; loopback, link-local (fe80::/10) and
/// multicast (ff00::/8) for IPv6.
pub open spec fn spec_blocked(addr: IpAddress) -> bool {
    match addr {
        IpAddress::V4(a, b, c, d) => {
            ||| a == 10
            ||| (a == 172 && 16 <= b <= 31)
            ||| (a == 192 && b == 168)
            ||| a == 127
            ||| (a == 169 && b == 254)
            ||| (224 <= a <= 239)
            ||| (a == 255 && b == 255 && c == 255 && d == 255)
        },
        IpAddress::V6(s0, s1, s2, s3, s4, s5, s6, s7) => {
            ||| (s0 == 0 && s1 == 0 && s2 == 0 && s3 == 0 && s4 == 0 && s5 == 0 && s6 == 0 && s7 == 1)
            ||| (s0 & 0xffc0u16) == 0xfe80u16
            ||| (s0 & 0xff00u16) == 0xff00u16
        },
    }
}

/// Whether a destination is blocked for every sandbox.
pub fn is_blocked_destination(addr: &IpAddress) -> (r: bool)
    ensures
        r == spec_blocked(*addr),
{
    match *addr {
        IpAddress::V4(a, b, c, d) => {
            if a == 10 {
                return true;
            }
            if a == 172 && 16 <= b && b <= 31 {
                return true;
            }
            if a == 192 && b == 168 {
                return true;
            }
            if a == 127 {
                return true;
            }
            if a == 169 && b == 254 {
                return true;
            }
            if a == 169 && b == 254 && c == 169 && d == 254 {
                return true;
            }
            if 224 <= a && a <= 239 {
                return true;
            }
            if a == 255 && b == 255 && c == 255 && d == 255 {
                return true;
            }
            false
        },
        IpAddress::V6(s0, s1, s2, s3, s4, s5, s6, s7) => {
            if s0 == 0 && s1 == 0 && s2 == 0 && s3 == 0 && s4 == 0 && s5 == 0 && s6 == 0 && s7 == 1 {
                return true;
            }
            if s0 & 0xffc0 == 0xfe80 {
                return true;
            }
            if s0 & 0xff00 == 0xff00 {
                return true;
            }
            false
        },
    }
}

/// Every address of the 10.0.0.0/8 range is blocked, as is the cloud
/// metadata address.
pub proof fn law_private_ranges_blocked(b: u8, c: u8, d: u8)
    ensures
        spec_blocked(IpAddress::V4(10, b, c, d)),
        spec_blocked(IpAddress::V4(192, 168, c, d)),
        spec_blocked(IpAddress::V4(127, b, c, d)),
        spec_blocked(IpAddress::V4(169, 254, 169, 254)),
{
}

} // verus!
