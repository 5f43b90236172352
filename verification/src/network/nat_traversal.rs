//! NAT traversal policy: which methods are enabled, the STUN
//! XOR-MAPPED-ADDRESS parser, and the classification of a NAT from the
//! addresses that STUN servers report back.
use vstd::prelude::*;
use crate::types::{IpAddress, SocketAddress};

verus! {

/// NAT traversal settings.
#[derive(Debug, Clone)]
pub struct NatConfig {
    /// Try UPnP port mapping.
    pub upnp_enabled: bool,
    /// Try direct-connection upgrade (hole punching).
    pub dcutr_enabled: bool,
    /// Fall back to a relay.
    pub relay_enabled: bool,
    /// STUN servers as `host:port`.
    pub stun_servers: Vec<String>,
}

/// The default STUN servers.
pub open spec fn default_stun_servers() -> Seq<Seq<char>> {
    seq!["stun.l.google.com:19302"@, "stun.cloudflare.com:3478"@]
}

impl Default for NatConfig {
    /// All methods on, with the Google and Cloudflare STUN servers.
    fn default() -> (r: NatConfig)
        ensures
            r.upnp_enabled && r.dcutr_enabled && r.relay_enabled,
            r.stun_servers@.map_values(|s: String| s@) == default_stun_servers(),
    {
        let mut servers: Vec<String> = Vec::new();
        servers.push(String::from_str("stun.l.google.com:19302"));
        servers.push(String::from_str("stun.cloudflare.com:3478"));
        assert(servers@.map_values(|s: String| s@) =~= default_stun_servers());
        NatConfig { upnp_enabled: true, dcutr_enabled: true, relay_enabled: true, stun_servers: servers }
    }
}

/// Reachability of a node behind a NAT.
#[derive(Debug, Clone, Copy, PartialEq, Eq, Structural, Hash)]
pub enum NatStatus {
    /// Publicly reachable.
    Direct,
    /// Full-cone NAT.
    FullCone,
    /// Restricted-cone NAT.
    RestrictedCone,
    /// Port-restricted NAT.
    PortRestricted,
    /// Symmetric NAT.
    Symmetric,
    /// Reached by hole punching.
    HolePunched,
    /// Reached through a relay.
    Relayed,
    /// Not reachable.
    Unreachable,
    /// Not determined.
    Unknown,
}

/// Big-endian 16-bit value at `off`.
pub open spec fn be_u16(b: Seq<u8>, off: int) -> int {
    b[off] as int * 256 + b[off + 1] as int
}

/// `len` rounded up to a multiple of four.
pub open spec fn padded(len: int) -> int {
    (len + 3) / 4 * 4
}

/// The first IPv4 XOR-MAPPED-ADDRESS (type 0x0020, at least 8 bytes, family
/// 1) among the attributes from `off` on, decoded with the magic cookie; the
/// walk stops at a truncated attribute.
pub open spec fn xor_mapped_from(attrs: Seq<u8>, cookie: Seq<u8>, off: int) -> Option<SocketAddress>
    decreases attrs.len() + 8 - off,
{
    if off < 0 || off + 4 > attrs.len() {
        None
    } else {
        let t = be_u16(attrs, off);
        let l = be_u16(attrs, off + 2);
        if off + 4 + l > attrs.len() {
            None
        } else if t == 0x0020 && l >= 8 && attrs[off + 5] == 1 {
            let v = off + 4;
            Some(SocketAddress {
                ip: IpAddress::V4(attrs[v + 4] ^ cookie[0], attrs[v + 5] ^ cookie[1], attrs[v + 6] ^ cookie[2], attrs[v + 7] ^ cookie[3]),
                port: (be_u16(attrs, v + 2) as u16) ^ 0x2112u16,
            })
        } else {
            proof {
                assert(0 <= padded(l) <= l + 3) by (nonlinear_arith)
                    requires
                        l >= 0,
                ;
            }
            xor_mapped_from(attrs, cookie, off + 4 + padded(l))
        }
    }
}

/// Parse the XOR-MAPPED-ADDRESS attribute of a STUN binding response.
pub fn parse_xor_mapped_address(attrs: &[u8], magic_cookie: &[u8]) -> (r: Option<SocketAddress>)
    requires
        magic_cookie@.len() >= 4,
    ensures
        r == xor_mapped_from(attrs@, magic_cookie@, 0),
{
    let n = attrs.len();
    let mut offset: usize = 0;
    while n - offset >= 4
        invariant
            n == attrs@.len(),
            offset <= n,
            magic_cookie@.len() >= 4,
            xor_mapped_from(attrs@, magic_cookie@, 0) == xor_mapped_from(attrs@, magic_cookie@, offset as int),
        decreases n - offset,
    {
        let attr_type = (attrs[offset] as usize) * 256 + attrs[offset + 1] as usize;
        let attr_len = (attrs[offset + 2] as usize) * 256 + attrs[offset + 3] as usize;
        assert(attr_type == be_u16(attrs@, offset as int));
        assert(attr_len == be_u16(attrs@, offset as int + 2));
        if attr_len > n - offset - 4 {
            return None;
        }
        if attr_type == 0x0020 && attr_len >= 8 {
            let v = offset + 4;
            if attrs[v + 1] == 0x01 {
                let port = (((attrs[v + 2] as u16) * 256 + attrs[v + 3] as u16)) ^ 0x2112u16;
                return Some(SocketAddress {
                    ip: IpAddress::V4(
                        attrs[v + 4] ^ magic_cookie[0],
                        attrs[v + 5] ^ magic_cookie[1],
                        attrs[v + 6] ^ magic_cookie[2],
                        attrs[v + 7] ^ magic_cookie[3],
                    ),
                    port,
                });
            }
        }
        let step = 4 + (attr_len + 3) / 4 * 4;
        assert(step == 4 + padded(attr_len as int));
        assert(0 <= padded(attr_len as int) <= attr_len + 3) by (nonlinear_arith)
            requires
                attr_len >= 0,
        ;
        assert(xor_mapped_from(attrs@, magic_cookie@, offset as int) == xor_mapped_from(
            attrs@,
            magic_cookie@,
            offset + step,
        ));
        if step > n - offset {
            assert(xor_mapped_from(attrs@, magic_cookie@, offset + step) is None);
            assert(xor_mapped_from(attrs@, magic_cookie@, n as int) is None);
            offset = n;
        } else {
            offset = offset + step;
        }
    }
    None
}

/// Classification of the addresses a node was seen at: none is unknown;
/// one is direct; different IPs mean a symmetric NAT; one IP with one port
/// is full cone; one IP with different ports is port restricted.
pub open spec fn spec_classify(addrs: Seq<SocketAddress>) -> NatStatus {
    if addrs.len() == 0 {
        NatStatus::Unknown
    } else if addrs.len() == 1 {
        NatStatus::Direct
    } else if exists|i: int| 0 <= i < addrs.len() && #[trigger] addrs[i].ip != addrs[0].ip {
        NatStatus::Symmetric
    } else if forall|i: int| 0 <= i < addrs.len() ==> #[trigger] addrs[i].port == addrs[0].port {
        NatStatus::FullCone
    } else {
        NatStatus::PortRestricted
    }
}

/// Classify a NAT from the mapped addresses that STUN servers reported.
pub fn classify_nat_type(addresses: &[SocketAddress]) -> (r: NatStatus)
    ensures
        r == spec_classify(addresses@),
{
    let n = addresses.len();
    if n == 0 {
        return NatStatus::Unknown;
    }
    if n == 1 {
        return NatStatus::Direct;
    }
    let first = addresses[0];
    let mut i: usize = 0;
    while i < n
        invariant
            n == addresses@.len(),
            first == addresses@[0],
            i <= n,
            forall|j: int| 0 <= j < i ==> #[trigger] addresses@[j].ip == first.ip,
        decreases n - i,
    {
        if addresses[i].ip != first.ip {
            assert(addresses@[i as int].ip != addresses@[0].ip);
            return NatStatus::Symmetric;
        }
        i = i + 1;
    }
    assert(!(exists|j: int| 0 <= j < addresses@.len() && #[trigger] addresses@[j].ip != addresses@[0].ip));
    let mut i: usize = 0;
    while i < n
        invariant
            n == addresses@.len(),
            first == addresses@[0],
            i <= n,
            forall|j: int| 0 <= j < i ==> #[trigger] addresses@[j].port == first.port,
            !(exists|j: int| 0 <= j < addresses@.len() && #[trigger] addresses@[j].ip != addresses@[0].ip),
        decreases n - i,
    {
        if addresses[i].port != first.port {
            assert(addresses@[i as int].port != addresses@[0].port);
            return NatStatus::PortRestricted;
        }
        i = i + 1;
    }
    NatStatus::FullCone
}

/// NAT status from a round of STUN queries: with no STUN server, or no
/// answer, unknown; else the classification of the answers.
pub open spec fn spec_nat_status(server_count: nat, mapped: Seq<SocketAddress>) -> NatStatus {
    if server_count == 0 || mapped.len() == 0 { NatStatus::Unknown } else { spec_classify(mapped) }
}

/// Decide the NAT status from the addresses that the configured STUN
/// servers reported (servers that did not answer contribute none).
pub fn nat_status_from_mappings(config: &NatConfig, mapped: &[SocketAddress]) -> (r: NatStatus)
    ensures
        r == spec_nat_status(config.stun_servers@.len(), mapped@),
{
    if config.stun_servers.len() == 0 {
        return NatStatus::Unknown;
    }
    if mapped.len() == 0 {
        return NatStatus::Unknown;
    }
    classify_nat_type(mapped)
}

} // verus!

verus! {

/// The 20-byte STUN Binding Request (RFC 5389): type 0x0001, length 0, the
/// magic cookie 0x2112A442, then the 12-byte transaction id.
pub open spec fn stun_request(txn_id: Seq<u8>) -> Seq<u8> {
    seq![0x00u8, 0x01u8, 0x00u8, 0x00u8, 0x21u8, 0x12u8, 0xA4u8, 0x42u8] + txn_id
}

/// Build a STUN Binding Request with the given transaction id.
pub fn stun_binding_request_bytes(txn_id: &[u8; 12]) -> (r: Vec<u8>)
    ensures
        r@ == stun_request(txn_id@),
        r@.len() == 20,
{
    let mut request: Vec<u8> = vec![0x00u8, 0x01u8, 0x00u8, 0x00u8, 0x21u8, 0x12u8, 0xA4u8, 0x42u8];
    let mut i: usize = 0;
    while i < 12
        invariant
            i <= 12,
            txn_id@.len() == 12,
            request@ == seq![0x00u8, 0x01u8, 0x00u8, 0x00u8, 0x21u8, 0x12u8, 0xA4u8, 0x42u8] + txn_id@.take(i as int),
        decreases 12 - i,
    {
        request.push(txn_id[i]);
        assert(txn_id@.take(i as int + 1) =~= txn_id@.take(i as int).push(txn_id@[i as int]));
        i = i + 1;
    }
    assert(txn_id@.take(12) =~= txn_id@);
    request
}

/// What a STUN response reports: too short for a header (20 bytes), or the
/// XOR-MAPPED-ADDRESS of the attributes after it, decoded with the cookie
/// at bytes 4 to 8.
pub open spec fn spec_stun_response(response: Seq<u8>) -> Result<SocketAddress, Seq<char>> {
    if response.len() < 20 {
        Err("STUN response too short"@)
    } else {
        match xor_mapped_from(response.subrange(20, response.len() as int), response.subrange(4, 8), 0) {
            Some(a) => Ok(a),
            None => Err("No XOR-MAPPED-ADDRESS in STUN response"@),
        }
    }
}

/// Read the mapped address out of a STUN binding response.
pub fn stun_response_address(response: &[u8]) -> (r: Result<SocketAddress, String>)
    ensures
        match r {
            Ok(a) => spec_stun_response(response@) == Ok::<SocketAddress, Seq<char>>(a),
            Err(m) => spec_stun_response(response@) == Err::<SocketAddress, Seq<char>>(m@),
        },
{
    if response.len() < 20 {
        return Err(String::from_str("STUN response too short"));
    }
    let attrs = slice_range(response, 20, response.len());
    let cookie = slice_range(response, 4, 8);
    match parse_xor_mapped_address(attrs.as_slice(), cookie.as_slice()) {
        Some(a) => Ok(a),
        None => Err(String::from_str("No XOR-MAPPED-ADDRESS in STUN response")),
    }
}

/// The bytes `from..to` of a byte string, copied.
fn slice_range(bytes: &[u8], from: usize, to: usize) -> (r: Vec<u8>)
    requires
        from <= to <= bytes@.len(),
    ensures
        r@ == bytes@.subrange(from as int, to as int),
{
    let mut out: Vec<u8> = Vec::new();
    let mut i: usize = from;
    while i < to
        invariant
            from <= i <= to,
            to <= bytes@.len(),
            out@ == bytes@.subrange(from as int, i as int),
        decreases to - i,
    {
        out.push(bytes[i]);
        assert(bytes@.subrange(from as int, i as int + 1) =~= bytes@.subrange(from as int, i as int).push(bytes@[i as int]));
        i = i + 1;
    }
    out
}

} // verus!
