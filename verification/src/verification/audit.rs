//! Deterministic audit sampling: a fixed share of accepted results is
//! re-executed, chosen by a pseudo-random draw seeded from the result's CID,
//! so every coordinator reaches the same decision.
use vstd::prelude::*;
use crate::text::{decimal, join3, spec_decimal};
use crate::types::{spec_cid_text, Cid};

verus! {

/// Whether a result is audited, and why.
#[derive(Debug, Clone, PartialEq, Eq)]
pub struct AuditDecision {
    /// True when the result is re-executed.
    pub should_audit: bool,
    /// The reason, naming the CID and its bucket.
    pub reason: String,
}

/// Audited share: numerator of 3 in 100.
pub const AUDIT_RATE_NUMERATOR: u64 = 3;

/// Audited share: denominator.
pub const AUDIT_RATE_DENOMINATOR: u64 = 100;

/// Seed used when the digest's first bytes are all zero.
pub const ZERO_SEED_REPLACEMENT: u64 = 0xdeadbeef_cafebabe;

/// The first `k` digest bytes packed little-endian: byte `i` at bits
/// `8i .. 8i + 8`.
pub open spec fn packed_le(d: Seq<u8>, k: nat) -> u64
    decreases k,
{
    if k == 0 {
        0
    } else {
        packed_le(d, (k - 1) as nat) | ((d[k - 1] as u64) << (((k - 1) * 8) as u64))
    }
}

/// Seed of a CID: its first eight digest bytes (fewer if the digest is
/// shorter) little-endian, with zero replaced by a fixed constant.
pub open spec fn spec_cid_seed(digest: Seq<u8>) -> u64 {
    let k: nat = if digest.len() < 8 { digest.len() } else { 8 };
    let s = packed_le(digest, k);
    if s == 0 { ZERO_SEED_REPLACEMENT } else { s }
}

/// One step of xorshift64 (shifts 13, 7, 17).
pub open spec fn spec_xorshift64(x: u64) -> u64 {
    let a = x ^ (x << 13u64);
    let b = a ^ (a >> 7u64);
    b ^ (b << 17u64)
}

/// The audit bucket of a CID: the draw modulo 100.
pub open spec fn audit_bucket(digest: Seq<u8>) -> u64 {
    spec_xorshift64(spec_cid_seed(digest)) % AUDIT_RATE_DENOMINATOR
}

/// The audit decision for a CID: audited when its bucket is below 3, with a
/// reason naming the CID text and the bucket.
pub open spec fn spec_audit_reason(cid: (u64, u64, Seq<u8>)) -> Seq<char> {
    let b = audit_bucket(cid.2);
    if b < AUDIT_RATE_NUMERATOR {
        "CID "@ + spec_cid_text(cid) + " selected for audit (bucket "@ + spec_decimal(b as nat) + " < 3)"@
    } else {
        "CID "@ + spec_cid_text(cid) + " not selected for audit (bucket "@ + spec_decimal(b as nat) + " >= 3)"@
    }
}

/// Decide whether to audit a result, deterministically from its CID.
pub fn audit_decision(result_cid: &Cid) -> (r: AuditDecision)
    ensures
        r.should_audit == (audit_bucket(result_cid@.2) < AUDIT_RATE_NUMERATOR),
        r.reason@ == spec_audit_reason(result_cid@),
{
    let seed = cid_seed(result_cid);
    let value = xorshift64(seed);
    let bucket = value % AUDIT_RATE_DENOMINATOR;
    let should_audit = bucket < AUDIT_RATE_NUMERATOR;
    let text = result_cid.to_text();
    let b = decimal(bucket);
    let reason = if should_audit {
        let mut m = join3("CID ", text.as_str(), " selected for audit (bucket ");
        m.append(b.as_str());
        m.append(" < 3)");
        m
    } else {
        let mut m = join3("CID ", text.as_str(), " not selected for audit (bucket ");
        m.append(b.as_str());
        m.append(" >= 3)");
        m
    };
    AuditDecision { should_audit, reason }
}

/// The seed of a CID's draw.
fn cid_seed(cid: &Cid) -> (r: u64)
    ensures
        r == spec_cid_seed(cid@.2),
{
    let digest = cid.digest();
    let k: usize = if digest.len() < 8 { digest.len() } else { 8 };
    let mut seed: u64 = 0;
    let mut i: usize = 0;
    while i < k
        invariant
            k <= 8,
            k <= digest@.len(),
            digest@ == cid@.2,
            i <= k,
            seed == packed_le(digest@, i as nat),
        decreases k - i,
    {
        seed = seed | ((digest[i] as u64) << ((i * 8) as u64));
        i = i + 1;
    }
    if seed == 0 {
        seed = ZERO_SEED_REPLACEMENT;
    }
    seed
}

/// One xorshift64 step.
fn xorshift64(x: u64) -> (r: u64)
    ensures
        r == spec_xorshift64(x),
{
    let mut x = x;
    x = x ^ (x << 13u64);
    x = x ^ (x >> 7u64);
    x = x ^ (x << 17u64);
    x
}

} // verus!
