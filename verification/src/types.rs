//! Core newtypes shared by every module.
use vstd::prelude::*;
use crate::external::{cid_text, cid_text_of, is_uuid_v4_text, new_uuid_text, push_char, sha256, sha256_of, unix_micros_now};
use crate::text::{decimal, digit_char, join2, spec_decimal};

verus! {

/// Amount of Normalized Compute Units, in micro-NCU (1 NCU = 1_000_000).
#[derive(Debug, Clone, Copy, PartialEq, Eq, Structural, PartialOrd, Ord, Hash)]
pub struct NcuAmount(pub u64);

impl NcuAmount {
    /// Zero NCU.
    pub fn zero() -> (r: NcuAmount)
        ensures
            r.0 == 0,
    {
        NcuAmount(0)
    }

    /// The amount in micro-NCU.
    pub fn as_micro_ncu(self) -> (r: u64)
        ensures
            r == self.0,
    {
        self.0
    }

    /// Sum, saturating at `u64::MAX` micro-NCU.
    pub fn saturating_add(self, other: NcuAmount) -> (r: NcuAmount)
        ensures
            r.0 == if self.0 + other.0 > u64::MAX { u64::MAX as int } else { self.0 + other.0 },
    {
        NcuAmount(self.0.saturating_add(other.0))
    }

    /// Difference, saturating at zero.
    pub fn saturating_sub(self, other: NcuAmount) -> (r: NcuAmount)
        ensures
            r.0 == if self.0 < other.0 { 0 } else { self.0 - other.0 },
    {
        NcuAmount(self.0.saturating_sub(other.0))
    }
}

/// Microseconds since the Unix epoch (UTC).
#[derive(Debug, Clone, Copy, PartialEq, Eq, Structural, PartialOrd, Ord, Hash)]
pub struct Timestamp(pub u64);

impl Timestamp {
    /// The current time, read from the system clock.
    pub fn now() -> (r: Timestamp) {
        Timestamp(unix_micros_now())
    }
}

/// The current time as signed microseconds since the Unix epoch, read
/// from the system clock (0 for a clock set before the epoch), saturating
/// at `i64::MAX`.
pub fn now_micros() -> (r: i64)
    ensures
        r >= 0,
{
    let t = unix_micros_now();
    if t > 9_223_372_036_854_775_807u64 {
        9_223_372_036_854_775_807i64
    } else {
        t as i64
    }
}

/// A duration in milliseconds.
#[derive(Debug, Clone, Copy, PartialEq, Eq, Structural, PartialOrd, Ord, Hash)]
pub struct DurationMs(pub u64);

/// Multicodec code for raw binary content.
pub const RAW_CODEC: u64 = 0x55;

/// Multihash code for SHA-256.
pub const SHA2_256_CODE: u64 = 0x12;

/// Content identifier (CIDv1): content codec, multihash code and digest.
/// The digest is at most 64 bytes, the multihash size used throughout.
#[derive(Debug, PartialEq, Eq, Hash)]
pub struct Cid {
    codec: u64,
    hash_code: u64,
    digest: Vec<u8>,
}

impl View for Cid {
    type V = (u64, u64, Seq<u8>);

    closed spec fn view(&self) -> (u64, u64, Seq<u8>) {
        (self.codec, self.hash_code, self.digest@)
    }
}

impl Clone for Cid {
    fn clone(&self) -> (r: Self)
        ensures
            r@ == self@,
    {
        proof { use_type_invariant(self); }
        Cid { codec: self.codec, hash_code: self.hash_code, digest: self.digest.clone() }
    }
}

/// The text form of a CID view.
pub open spec fn spec_cid_text(c: (u64, u64, Seq<u8>)) -> Seq<char> {
    cid_text_of(c.0, c.1, c.2)
}

impl Cid {
    #[verifier::type_invariant]
    spec fn inv(self) -> bool {
        self.digest@.len() <= 64
    }

    /// A CIDv1; `None` when the digest exceeds 64 bytes.
    pub fn new_v1(codec: u64, hash_code: u64, digest: Vec<u8>) -> (r: Option<Cid>)
        ensures
            r is Some <==> digest@.len() <= 64,
            r matches Some(c) ==> c@ == (codec, hash_code, digest@),
    {
        if digest.len() <= 64 {
            Some(Cid { codec, hash_code, digest })
        } else {
            None
        }
    }

    /// The content codec.
    pub fn codec(&self) -> (r: u64)
        ensures
            r == self@.0,
    {
        self.codec
    }

    /// The multihash code.
    pub fn hash_code(&self) -> (r: u64)
        ensures
            r == self@.1,
    {
        self.hash_code
    }

    /// The multihash digest bytes.
    pub fn digest(&self) -> (r: &[u8])
        ensures
            r@ == self@.2,
            r@.len() <= 64,
    {
        proof { use_type_invariant(self); }
        self.digest.as_slice()
    }

    /// Equality of the three parts.
    pub fn same_as(&self, other: &Cid) -> (r: bool)
        ensures
            r == (self@ == other@),
    {
        if self.codec != other.codec || self.hash_code != other.hash_code {
            return false;
        }
        let n = self.digest.len();
        if n != other.digest.len() {
            return false;
        }
        let mut i: usize = 0;
        while i < n
            invariant
                n == self.digest@.len(),
                n == other.digest@.len(),
                i <= n,
                forall|j: int| 0 <= j < i ==> self.digest@[j] == other.digest@[j],
            decreases n - i,
        {
            if self.digest[i] != other.digest[i] {
                return false;
            }
            i = i + 1;
        }
        assert(self.digest@ =~= other.digest@);
        true
    }

    /// The multibase text form of the CID.
    pub fn to_text(&self) -> (r: String)
        ensures
            r@ == spec_cid_text(self@),
            r@.len() > 0,
    {
        proof { use_type_invariant(self); }
        cid_text(self.codec, self.hash_code, self.digest.as_slice())
    }
}

/// The CID of raw content: CIDv1, raw codec, SHA-256 of the bytes.
pub open spec fn spec_compute_cid(data: Seq<u8>) -> (u64, u64, Seq<u8>) {
    (RAW_CODEC, SHA2_256_CODE, sha256_of(data))
}

/// Content-address raw bytes: CIDv1 with the raw codec and a SHA-256 digest.
pub fn compute_cid(data: &[u8]) -> (r: Cid)
    ensures
        r@ == spec_compute_cid(data@),
{
    let digest = sha256(data);
    Cid { codec: RAW_CODEC, hash_code: SHA2_256_CODE, digest }
}

/// Trust Score in fixed point: 0..=10_000 stands for 0.0..=1.0.
#[derive(Debug, Clone, Copy, PartialEq, Eq, Structural, PartialOrd, Ord, Hash)]
pub struct TrustScore(pub u16);

impl TrustScore {
    /// Score 0.
    pub fn zero() -> (r: TrustScore)
        ensures
            r.0 == 0,
    {
        TrustScore(0)
    }

    /// Score 1.0.
    pub fn max() -> (r: TrustScore)
        ensures
            r.0 == 10_000,
    {
        TrustScore(10_000)
    }

    /// The cap for nodes in their first week: 0.5.
    pub fn new_node_cap() -> (r: TrustScore)
        ensures
            r.0 == 5_000,
    {
        TrustScore(5_000)
    }

    /// The score as a decimal fraction with four places, as `0.5000`.
    pub fn to_text(&self) -> (r: String)
        ensures
            r@ == spec_decimal((self.0 / 10_000) as nat) + "."@ + four_digits((self.0 % 10_000) as nat),
    {
        let whole = decimal((self.0 / 10_000) as u64);
        let frac = self.0 % 10_000;
        let mut out = join2(whole.as_str(), ".");
        push_char(&mut out, digit((frac / 1000) as u8));
        push_char(&mut out, digit((frac / 100 % 10) as u8));
        push_char(&mut out, digit((frac / 10 % 10) as u8));
        push_char(&mut out, digit((frac % 10) as u8));
        assert(out@ =~= spec_decimal((self.0 / 10_000) as nat) + "."@ + four_digits(frac as nat));
        out
    }
}

/// Four decimal digits of `n < 10_000`, with leading zeros.
pub open spec fn four_digits(n: nat) -> Seq<char> {
    seq![digit_char(n / 1000), digit_char(n / 100 % 10), digit_char(n / 10 % 10), digit_char(n % 10)]
}

fn digit(d: u8) -> (c: char)
    requires
        d < 10,
    ensures
        c == digit_char(d as nat),
{
    if d == 0 { '0' } else if d == 1 { '1' } else if d == 2 { '2' } else if d == 3 { '3' } else if d == 4 { '4' }
    else if d == 5 { '5' } else if d == 6 { '6' } else if d == 7 { '7' } else if d == 8 { '8' } else { '9' }
}

/// Threshold signature from coordinators.
#[derive(Debug)]
pub struct SignatureBundle {
    /// Coordinators that contributed signatures.
    pub signer_ids: Vec<String>,
    /// The aggregated signature bytes.
    pub signature: Vec<u8>,
    /// `t` of the t-of-n threshold.
    pub threshold: u32,
    /// `n` of the t-of-n threshold.
    pub total: u32,
}

/// Kind of hardware attestation a node offers.
#[derive(Debug, Clone, Copy, PartialEq, Eq, Structural, Hash)]
pub enum AttestationType {
    /// TPM 2.0 PCR quote.
    Tpm2,
    /// AMD SEV-SNP report.
    SevSnp,
    /// Intel TDX quote.
    Tdx,
    /// Apple Secure Enclave signature.
    AppleSecureEnclave,
    /// Software-only self-report.
    Soft,
}

/// Attestation quote sent by a node.
#[derive(Debug)]
pub struct AttestationQuote {
    /// Platform that produced the quote.
    pub quote_type: AttestationType,
    /// Raw quote bytes.
    pub quote_bytes: Vec<u8>,
    /// Free-form platform description; may carry a certificate chain.
    pub platform_info: String,
}

impl View for AttestationQuote {
    type V = (AttestationType, Seq<u8>, Seq<char>);

    open spec fn view(&self) -> (AttestationType, Seq<u8>, Seq<char>) {
        (self.quote_type, self.quote_bytes@, self.platform_info@)
    }
}

/// State of a relay reservation.
#[derive(Debug, Clone, Copy, PartialEq, Eq, Structural, Hash)]
pub enum ReservationStatus {
    /// Request sent, awaiting response.
    Requesting,
    /// Reservation accepted and active.
    Active,
    /// Renewal sent near expiry.
    Renewing,
    /// Reservation dropped; must be reacquired.
    Lost,
    /// Request denied or timed out.
    Failed,
}

/// Transport used for a connection.
#[derive(Debug, Clone, Copy, PartialEq, Eq, Structural, Hash)]
pub enum TransportKind {
    /// TCP with a Noise handshake.
    Tcp,
    /// QUIC over UDP.
    Quic,
    /// WebSocket over TLS on port 443.
    Wss,
    /// A relay circuit.
    Relay,
}

/// Outcome of a dial attempt.
#[derive(Debug, Clone, PartialEq, Eq)]
pub enum DialOutcome {
    /// Connection established.
    Success,
    /// Timed out before upgrading.
    Timeout,
    /// Transport-layer failure, with its cause.
    TransportError(String),
    /// The remote refused, with its reason.
    Denied(String),
}

/// Safety tier of inference content.
#[derive(Debug, Clone, Copy, PartialEq, Eq, Structural, Hash)]
pub enum SafetyTier {
    /// May be made public.
    Public,
    /// Usable inside the federation.
    Internal,
    /// Restricted; review before exposure.
    Restricted,
}

/// Identifier of a diffusion expert.
#[derive(Debug, Clone, PartialEq, Eq, Hash)]
pub struct ExpertId(pub String);

impl ExpertId {
    /// A fresh random identifier: the lowercase hyphenated text of a
    /// version-4 UUID.
    pub fn new() -> (r: ExpertId)
        ensures
            is_uuid_v4_text(r.0@),
    {
        ExpertId(new_uuid_text())
    }

    /// An identifier with the given text.
    pub fn from_str(s: &str) -> (r: ExpertId)
        ensures
            r.0@ == s@,
    {
        ExpertId(String::from_str(s))
    }

    /// The identifier's text.
    pub fn as_str(&self) -> (r: &str)
        ensures
            r@ == self.0@,
    {
        self.0.as_str()
    }

    /// The identifier's text, owned.
    pub fn to_text(&self) -> (r: String)
        ensures
            r@ == self.0@,
    {
        self.0.clone()
    }
}

impl Default for ExpertId {
    fn default() -> (r: ExpertId)
        ensures
            is_uuid_v4_text(r.0@),
    {
        ExpertId::new()
    }
}

/// Index of a denoising step.
#[derive(Debug, Clone, Copy, PartialEq, Eq, Structural, PartialOrd, Ord, Hash)]
pub struct DenoisingStep(pub u32);

impl DenoisingStep {
    /// The display form `step-<n>`.
    pub fn to_text(&self) -> (r: String)
        ensures
            r@ == "step-"@ + spec_decimal(self.0 as nat),
    {
        let n = decimal(self.0 as u64);
        join2("step-", n.as_str())
    }
}

/// An IP address: IPv4 octets or IPv6 segments.
#[derive(Debug, Clone, Copy, PartialEq, Eq, Structural, Hash)]
pub enum IpAddress {
    /// IPv4 address `a.b.c.d`.
    V4(u8, u8, u8, u8),
    /// IPv6 address as eight 16-bit segments.
    V6(u16, u16, u16, u16, u16, u16, u16, u16),
}

/// An IP address and port.
#[derive(Debug, Clone, Copy, PartialEq, Eq, Structural, Hash)]
pub struct SocketAddress {
    /// The address.
    pub ip: IpAddress,
    /// The port.
    pub port: u16,
}

} // verus!
