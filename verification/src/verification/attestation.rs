//! Attestation of donor nodes: parsing of TPM 2.0, SEV-SNP and TDX quotes in
//! their wire formats, checks against a registry of known-good measurements,
//! the signature binding check, certificate-chain structure, and the Apple
//! Secure Enclave and soft attestations.
use std::collections::HashMap;
use vstd::prelude::*;
use vstd::slice::{slice_subrange, slice_to_vec};
use vstd::string::StrSliceExecFns;
use crate::error::{ErrorCode, WcError};
use crate::external::{
    base64_decode, base64_decoded_of, hex_encode, hex_lower, lossy_text_of, push_char, sha256, sha256_of,
    trim_text, trimmed_of, unix_micros_now, utf8_lossy,
};
use crate::text::{decimal, has_prefix, join3, join4, spec_decimal, starts_with, str_eq};
use crate::types::{AttestationQuote, AttestationType};
use x509_parser::prelude::FromDer;

verus! {

// ─── Wire formats ─────────────────────────────────────────────────────────

/// Magic bytes `TPM2`.
pub open spec fn tpm2_magic() -> Seq<u8> {
    seq![84u8, 80u8, 77u8, 50u8]
}

/// Magic bytes `SNVP`.
pub open spec fn sev_snp_magic() -> Seq<u8> {
    seq![83u8, 78u8, 86u8, 80u8]
}

/// Magic bytes `TDX1`.
pub open spec fn tdx_magic() -> Seq<u8> {
    seq![84u8, 68u8, 88u8, 49u8]
}

/// Big-endian `u32` at byte offset `off`.
pub open spec fn be_u32(b: Seq<u8>, off: int) -> u32 {
    (b[off] as int * 16777216 + b[off + 1] as int * 65536 + b[off + 2] as int * 256 + b[off + 3] as int) as u32
}

/// The `i`th PCR entry of a TPM2 quote whose entries start at `start`;
/// each entry is a 4-byte index and a 32-byte SHA-256 value.
pub open spec fn tpm2_pcr_entry(b: Seq<u8>, start: int, i: int) -> (u32, Seq<char>) {
    let off = start + i * 36;
    (be_u32(b, off), hex_lower(b.subrange(off + 4, off + 36)))
}

/// View of a parsed TPM2 quote: agent version, PCR values by index,
/// signature, signed data.
pub type Tpm2View = (Seq<char>, Map<u32, Seq<char>>, Seq<u8>, Seq<u8>);

/// The map that PCR entries fill, entry by entry: an index that occurs more
/// than once keeps its last value.
#[verifier::opaque]
pub open spec fn pcr_map(entries: Seq<(u32, Seq<char>)>) -> Map<u32, Seq<char>>
    decreases entries.len(),
{
    if entries.len() == 0 {
        Map::empty()
    } else {
        pcr_map(entries.drop_last()).insert(entries.last().0, entries.last().1)
    }
}

/// The map that PCR entries fill holds exactly their indices, and, when no
/// index repeats, each entry's value under its index.
pub proof fn law_pcr_map_entries(entries: Seq<(u32, Seq<char>)>)
    ensures
        forall|k: u32| #[trigger] pcr_map(entries).contains_key(k)
            <==> exists|j: int| 0 <= j < entries.len() && #[trigger] entries[j].0 == k,
        (forall|i: int, j: int| 0 <= i < j < entries.len() ==> #[trigger] entries[i].0 != #[trigger] entries[j].0)
            ==> forall|j: int| 0 <= j < entries.len() ==> #[trigger] pcr_map(entries)[entries[j].0] == entries[j].1,
    decreases entries.len(),
{
    reveal(pcr_map);
    if entries.len() > 0 {
        let init = entries.drop_last();
        let last = entries.last();
        law_pcr_map_entries(init);
        assert(pcr_map(entries) == pcr_map(init).insert(last.0, last.1));
        assert forall|k: u32| #[trigger] pcr_map(entries).contains_key(k)
            <==> exists|j: int| 0 <= j < entries.len() && #[trigger] entries[j].0 == k by {
            if pcr_map(entries).contains_key(k) {
                if k == last.0 {
                    assert(entries[entries.len() - 1].0 == k);
                } else {
                    assert(pcr_map(init).contains_key(k));
                    let j = choose|j: int| 0 <= j < init.len() && #[trigger] init[j].0 == k;
                    assert(entries[j].0 == k);
                }
            }
            if exists|j: int| 0 <= j < entries.len() && #[trigger] entries[j].0 == k {
                let j = choose|j: int| 0 <= j < entries.len() && #[trigger] entries[j].0 == k;
                if j < init.len() {
                    assert(init[j].0 == k);
                    assert(pcr_map(init).contains_key(k));
                }
            }
        }
        if forall|i: int, j: int| 0 <= i < j < entries.len() ==> #[trigger] entries[i].0 != #[trigger] entries[j].0 {
            assert forall|i: int, j: int| 0 <= i < j < init.len() implies #[trigger] init[i].0 != #[trigger] init[j].0 by {
                assert(entries[i].0 != entries[j].0);
            }
            assert forall|j: int| 0 <= j < entries.len() implies #[trigger] pcr_map(entries)[entries[j].0] == entries[j].1 by {
                if j < init.len() {
                    assert(entries[j].0 != entries[entries.len() - 1].0);
                    assert(init[j] == entries[j]);
                }
            }
        }
    }
}

/// Text views of a map of PCR values.
pub open spec fn text_map(m: Map<u32, String>) -> Map<u32, Seq<char>> {
    m.map_values(|s: String| s@)
}

proof fn lemma_pcr_map_empty()
    ensures
        pcr_map(Seq::<(u32, Seq<char>)>::empty()) == Map::<u32, Seq<char>>::empty(),
{
    reveal(pcr_map);
}

proof fn lemma_pcr_map_push(entries: Seq<(u32, Seq<char>)>, e: (u32, Seq<char>))
    ensures
        pcr_map(entries.push(e)) == pcr_map(entries).insert(e.0, e.1),
{
    reveal(pcr_map);
    assert(entries.push(e).drop_last() =~= entries);
}

/// View of a parsed SEV-SNP report or TDX quote: agent version, hex
/// measurement, signature, signed data.
pub type MeasuredView = (Seq<char>, Seq<char>, Seq<u8>, Seq<u8>);

/// Parse of the TPM2 wire format: `TPM2`, version length, version, PCR
/// count, entries (big-endian index, 32-byte value), 64-byte signature over
/// everything before it. Errors carry their message.
pub open spec fn spec_parse_tpm2(b: Seq<u8>) -> Result<Tpm2View, Seq<char>> {
    if b.len() < 6 {
        Err("TPM2 quote too short"@)
    } else if b.take(4) != tpm2_magic() {
        Err("Invalid TPM2 magic bytes"@)
    } else {
        let vl = b[4] as int;
        if b.len() < 5 + vl + 1 {
            Err("TPM2 quote truncated at version"@)
        } else {
            let pc = b[5 + vl] as int;
            let start = 6 + vl;
            let expected = start + pc * 36 + 64;
            if b.len() < expected {
                Err("TPM2 quote truncated: expected "@ + spec_decimal(expected as nat) + " bytes, got "@
                    + spec_decimal(b.len()))
            } else {
                let sig = start + pc * 36;
                Ok((
                    lossy_text_of(b.subrange(5, 5 + vl)),
                    pcr_map(Seq::new(pc as nat, |i: int| tpm2_pcr_entry(b, start, i))),
                    b.subrange(sig, sig + 64),
                    b.take(sig),
                ))
            }
        }
    }
}

/// Parse of the SEV-SNP (`SNVP`, 32-byte measurement) and TDX (`TDX1`,
/// 48-byte MRTD) wire formats: magic, version length, version, measurement,
/// 64-byte signature.
pub open spec fn spec_parse_measured(
    b: Seq<u8>,
    magic: Seq<u8>,
    mlen: int,
    short_msg: Seq<char>,
    magic_msg: Seq<char>,
    trunc_msg: Seq<char>,
) -> Result<MeasuredView, Seq<char>> {
    if b.len() < 6 {
        Err(short_msg)
    } else if b.take(4) != magic {
        Err(magic_msg)
    } else {
        let vl = b[4] as int;
        if b.len() < 5 + vl + mlen + 64 {
            Err(trunc_msg)
        } else {
            let m = 5 + vl;
            let sig = m + mlen;
            Ok((lossy_text_of(b.subrange(5, m)), hex_lower(b.subrange(m, sig)), b.subrange(sig, sig + 64), b.take(sig)))
        }
    }
}

/// Parse of an SEV-SNP report.
pub open spec fn spec_parse_sev_snp(b: Seq<u8>) -> Result<MeasuredView, Seq<char>> {
    spec_parse_measured(b, sev_snp_magic(), 32, "SEV-SNP report too short"@, "Invalid SEV-SNP magic bytes"@,
        "SEV-SNP report truncated"@)
}

/// Parse of a TDX quote.
pub open spec fn spec_parse_tdx(b: Seq<u8>) -> Result<MeasuredView, Seq<char>> {
    spec_parse_measured(b, tdx_magic(), 48, "TDX quote too short"@, "Invalid TDX magic bytes"@, "TDX quote truncated"@)
}

/// Parsed TPM2 quote.
#[derive(Debug)]
pub struct Tpm2Quote {
    /// Agent version reported by the node.
    pub agent_version: String,
    /// Hex SHA-256 PCR values by index; an index that occurs more than
    /// once in the quote keeps its last value.
    pub pcr_values: HashMap<u32, String>,
    /// Signature over the quote.
    pub signature: Vec<u8>,
    /// The bytes that were signed.
    pub signed_data: Vec<u8>,
}

impl View for Tpm2Quote {
    type V = Tpm2View;

    open spec fn view(&self) -> Tpm2View {
        (self.agent_version@, text_map(self.pcr_values@), self.signature@, self.signed_data@)
    }
}

/// Parsed SEV-SNP report.
#[derive(Debug)]
pub struct SevSnpReport {
    /// Agent version reported.
    pub agent_version: String,
    /// Hex guest measurement.
    pub measurement: String,
    /// Signature over the report.
    pub signature: Vec<u8>,
    /// The bytes that were signed.
    pub signed_data: Vec<u8>,
}

impl View for SevSnpReport {
    type V = MeasuredView;

    open spec fn view(&self) -> MeasuredView {
        (self.agent_version@, self.measurement@, self.signature@, self.signed_data@)
    }
}

/// Parsed TDX quote.
#[derive(Debug)]
pub struct TdxQuote {
    /// Agent version reported.
    pub agent_version: String,
    /// Hex MRTD.
    pub mrtd: String,
    /// Signature over the quote.
    pub signature: Vec<u8>,
    /// The bytes that were signed.
    pub signed_data: Vec<u8>,
}

impl View for TdxQuote {
    type V = MeasuredView;

    open spec fn view(&self) -> MeasuredView {
        (self.agent_version@, self.mrtd@, self.signature@, self.signed_data@)
    }
}

/// A parse result agrees with its specification: the value's view, or an
/// attestation failure with the specified message.
pub open spec fn parse_agrees<T: View>(r: Result<T, WcError>, s: Result<T::V, Seq<char>>) -> bool {
    match r {
        Ok(q) => s == Ok::<T::V, Seq<char>>(q@),
        Err(e) => e.kind == ErrorCode::AttestationFailed && s == Err::<T::V, Seq<char>>(e.message@),
    }
}

/// A raw parse result of the measured layout agrees with its specification.
pub open spec fn measured_agrees(
    r: Result<(String, String, Vec<u8>, Vec<u8>), WcError>,
    s: Result<MeasuredView, Seq<char>>,
) -> bool {
    match r {
        Ok(v) => s == Ok::<MeasuredView, Seq<char>>((v.0@, v.1@, v.2@, v.3@)),
        Err(e) => e.kind == ErrorCode::AttestationFailed && s == Err::<MeasuredView, Seq<char>>(e.message@),
    }
}

fn has_magic(b: &[u8], m0: u8, m1: u8, m2: u8, m3: u8) -> (r: bool)
    requires
        b@.len() >= 4,
    ensures
        r == (b@.take(4) == seq![m0, m1, m2, m3]),
{
    let r = b[0] == m0 && b[1] == m1 && b[2] == m2 && b[3] == m3;
    assert(r ==> b@.take(4) =~= seq![m0, m1, m2, m3]);
    r
}

fn be_u32_at(b: &[u8], off: usize) -> (r: u32)
    requires
        off + 4 <= b@.len(),
    ensures
        r == be_u32(b@, off as int),
{
    (b[off] as u32) * 16777216 + (b[off + 1] as u32) * 65536 + (b[off + 2] as u32) * 256 + (b[off + 3] as u32)
}

fn attestation_error(msg: &str) -> (r: WcError)
    ensures
        r.kind == ErrorCode::AttestationFailed,
        r.message@ == msg@,
{
    WcError::with_text(ErrorCode::AttestationFailed, msg)
}

/// Parse a TPM2 quote from its wire format.
fn parse_tpm2_quote(quote_bytes: &[u8]) -> (r: Result<Tpm2Quote, WcError>)
    ensures
        parse_agrees(r, spec_parse_tpm2(quote_bytes@)),
{
    let ghost b = quote_bytes@;
    let n = quote_bytes.len();
    if n < 6 {
        return Err(attestation_error("TPM2 quote too short"));
    }
    if !has_magic(quote_bytes, 84, 80, 77, 50) {
        return Err(attestation_error("Invalid TPM2 magic bytes"));
    }
    let vl = quote_bytes[4] as usize;
    if n < 5 + vl + 1 {
        return Err(attestation_error("TPM2 quote truncated at version"));
    }
    let pc = quote_bytes[5 + vl] as usize;
    let start = 6 + vl;
    let expected = start + pc * 36 + 64;
    if n < expected {
        let e = decimal(expected as u64);
        let got = decimal(n as u64);
        let mut msg = join3("TPM2 quote truncated: expected ", e.as_str(), " bytes, got ");
        msg.append(got.as_str());
        return Err(WcError::new(ErrorCode::AttestationFailed, msg));
    }
    let agent_version = utf8_lossy(slice_subrange(quote_bytes, 5, 5 + vl));
    broadcast use vstd::std_specs::hash::group_hash_axioms;
    let mut pcr_values: HashMap<u32, String> = HashMap::new();
    proof {
        lemma_pcr_map_empty();
        assert(Seq::new(0, |j: int| tpm2_pcr_entry(b, start as int, j)) =~= Seq::<(u32, Seq<char>)>::empty());
        assert(text_map(pcr_values@) =~= Map::<u32, Seq<char>>::empty());
    }
    let mut i: usize = 0;
    while i < pc
        invariant
            b == quote_bytes@,
            n == b.len(),
            start == 6 + vl,
            start + pc * 36 + 64 <= n,
            i <= pc,
            text_map(pcr_values@) == pcr_map(Seq::new(i as nat, |j: int| tpm2_pcr_entry(b, start as int, j))),
        decreases pc - i,
    {
        let off = start + i * 36;
        let index = be_u32_at(quote_bytes, off);
        let value = hex_encode(slice_subrange(quote_bytes, off + 4, off + 36));
        let ghost before = pcr_values@;
        let ghost entries = Seq::new(i as nat, |j: int| tpm2_pcr_entry(b, start as int, j));
        assert((index, value@) == tpm2_pcr_entry(b, start as int, i as int));
        pcr_values.insert(index, value);
        proof {
            assert(Seq::new(i as nat + 1, |j: int| tpm2_pcr_entry(b, start as int, j)) =~= entries.push((index, value@)));
            lemma_pcr_map_push(entries, (index, value@));
            assert(text_map(pcr_values@) =~= text_map(before).insert(index, value@));
        }
        i = i + 1;
    }
    let sig = start + pc * 36;
    let signature = slice_to_vec(slice_subrange(quote_bytes, sig, sig + 64));
    let signed_data = slice_to_vec(slice_subrange(quote_bytes, 0, sig));
    assert(b.take(sig as int) =~= b.subrange(0, sig as int));
    Ok(Tpm2Quote { agent_version, pcr_values, signature, signed_data })
}

/// Parse the common layout of SEV-SNP reports and TDX quotes.
fn parse_measured(
    quote_bytes: &[u8],
    magic: (u8, u8, u8, u8),
    mlen: usize,
    short_msg: &str,
    magic_msg: &str,
    trunc_msg: &str,
) -> (r: Result<(String, String, Vec<u8>, Vec<u8>), WcError>)
    requires
        mlen <= 64,
    ensures
        measured_agrees(
            r,
            spec_parse_measured(quote_bytes@, seq![magic.0, magic.1, magic.2, magic.3], mlen as int, short_msg@, magic_msg@, trunc_msg@),
        ),
{
    let ghost b = quote_bytes@;
    let n = quote_bytes.len();
    if n < 6 {
        return Err(attestation_error(short_msg));
    }
    if !has_magic(quote_bytes, magic.0, magic.1, magic.2, magic.3) {
        return Err(attestation_error(magic_msg));
    }
    let vl = quote_bytes[4] as usize;
    if n < 5 + vl + mlen + 64 {
        return Err(attestation_error(trunc_msg));
    }
    let agent_version = utf8_lossy(slice_subrange(quote_bytes, 5, 5 + vl));
    let m = 5 + vl;
    let sig = m + mlen;
    let measurement = hex_encode(slice_subrange(quote_bytes, m, sig));
    let signature = slice_to_vec(slice_subrange(quote_bytes, sig, sig + 64));
    let signed_data = slice_to_vec(slice_subrange(quote_bytes, 0, sig));
    assert(b.take(sig as int) =~= b.subrange(0, sig as int));
    Ok((agent_version, measurement, signature, signed_data))
}

/// Parse an SEV-SNP report from its wire format.
fn parse_sev_snp_report(quote_bytes: &[u8]) -> (r: Result<SevSnpReport, WcError>)
    ensures
        parse_agrees(r, spec_parse_sev_snp(quote_bytes@)),
{
    match parse_measured(
        quote_bytes,
        (83, 78, 86, 80),
        32,
        "SEV-SNP report too short",
        "Invalid SEV-SNP magic bytes",
        "SEV-SNP report truncated",
    ) {
        Ok((agent_version, measurement, signature, signed_data)) => Ok(
            SevSnpReport { agent_version, measurement, signature, signed_data },
        ),
        Err(e) => Err(e),
    }
}

/// Parse a TDX quote from its wire format.
fn parse_tdx_quote(quote_bytes: &[u8]) -> (r: Result<TdxQuote, WcError>)
    ensures
        parse_agrees(r, spec_parse_tdx(quote_bytes@)),
{
    match parse_measured(
        quote_bytes,
        (84, 68, 88, 49),
        48,
        "TDX quote too short",
        "Invalid TDX magic bytes",
        "TDX quote truncated",
    ) {
        Ok((agent_version, mrtd, signature, signed_data)) => Ok(TdxQuote { agent_version, mrtd, signature, signed_data }),
        Err(e) => Err(e),
    }
}

// ─── Known-good measurements ─────────────────────────────────────────────

/// Known-good measurements of one agent version.
#[derive(Debug)]
pub struct KnownGoodMeasurement {
    /// Agent version, e.g. `0.1.0`.
    pub agent_version: String,
    /// Hex SHA-256 of the agent binary.
    pub binary_hash: String,
    /// Expected TPM2 PCR values: hex value by index.
    pub expected_pcr_values: HashMap<u32, String>,
    /// Expected hex SEV-SNP measurement.
    pub expected_snp_measurement: String,
    /// Expected hex TDX MRTD.
    pub expected_tdx_mrtd: String,
    /// Whether the version is still accepted.
    pub active: bool,
}

/// View of a measurement: version, binary hash, expected PCR values,
/// SEV-SNP measurement, TDX MRTD, active flag.
pub type MeasurementView = (Seq<char>, Seq<char>, Map<u32, Seq<char>>, Seq<char>, Seq<char>, bool);

impl View for KnownGoodMeasurement {
    type V = MeasurementView;

    open spec fn view(&self) -> MeasurementView {
        (
            self.agent_version@,
            self.binary_hash@,
            text_map(self.expected_pcr_values@),
            self.expected_snp_measurement@,
            self.expected_tdx_mrtd@,
            self.active,
        )
    }
}

impl Clone for KnownGoodMeasurement {
    fn clone(&self) -> (r: Self)
        ensures
            r@ == self@,
    {
        KnownGoodMeasurement {
            agent_version: self.agent_version.clone(),
            binary_hash: self.binary_hash.clone(),
            expected_pcr_values: self.expected_pcr_values.clone(),
            expected_snp_measurement: self.expected_snp_measurement.clone(),
            expected_tdx_mrtd: self.expected_tdx_mrtd.clone(),
            active: self.active,
        }
    }
}

/// The same measurement with its `active` flag set to `a`.
pub open spec fn with_active(m: MeasurementView, a: bool) -> MeasurementView {
    (m.0, m.1, m.2, m.3, m.4, a)
}

/// Views of a list of measurements.
pub open spec fn entry_views(s: Seq<KnownGoodMeasurement>) -> Seq<MeasurementView> {
    s.map_values(|e: KnownGoodMeasurement| e@)
}

/// Registered measurements keyed by agent version; a later entry for a
/// version replaces an earlier one.
pub open spec fn measurement_map(s: Seq<MeasurementView>) -> Map<Seq<char>, MeasurementView>
    decreases s.len(),
{
    if s.len() == 0 {
        Map::empty()
    } else {
        measurement_map(s.drop_last()).insert(s.last().0, s.last())
    }
}

/// Registry of known-good measurements per agent version.
#[derive(Debug)]
pub struct MeasurementRegistry {
    entries: Vec<KnownGoodMeasurement>,
}

impl View for MeasurementRegistry {
    type V = Map<Seq<char>, MeasurementView>;

    closed spec fn view(&self) -> Map<Seq<char>, MeasurementView> {
        measurement_map(entry_views(self.entries@))
    }
}

/// Removing every entry of one version removes that key.
proof fn lemma_map_without_version(s: Seq<MeasurementView>, v: Seq<char>)
    ensures
        measurement_map(s.filter(|e: MeasurementView| e.0 != v)) == measurement_map(s).remove(v),
    decreases s.len(),
{
    let f = |e: MeasurementView| e.0 != v;
    if s.len() == 0 {
        assert(s.filter(f) =~= s);
        assert(measurement_map(s).remove(v) =~= Map::empty());
    } else {
        lemma_map_without_version(s.drop_last(), v);
        s.drop_last().lemma_filter_push(s.last(), f);
        assert(s.drop_last().push(s.last()) =~= s);
        if f(s.last()) {
            assert(s.filter(f).drop_last() =~= s.drop_last().filter(f));
        }
        assert(measurement_map(s.filter(f)) =~= measurement_map(s).remove(v));
    }
}

/// The last entry of a version gives that version's registered value.
proof fn lemma_map_last_entry(s: Seq<MeasurementView>, k: int)
    requires
        0 <= k < s.len(),
        forall|j: int| k < j < s.len() ==> #[trigger] s[j].0 != s[k].0,
    ensures
        measurement_map(s).contains_key(s[k].0),
        measurement_map(s)[s[k].0] == s[k],
    decreases s.len(),
{
    if k < s.len() - 1 {
        lemma_map_last_entry(s.drop_last(), k);
    }
}

/// A version with no entry has no key.
proof fn lemma_map_absent(s: Seq<MeasurementView>, v: Seq<char>)
    requires
        forall|j: int| 0 <= j < s.len() ==> #[trigger] s[j].0 != v,
    ensures
        !measurement_map(s).contains_key(v),
    decreases s.len(),
{
    if s.len() > 0 {
        lemma_map_absent(s.drop_last(), v);
    }
}

/// Setting `active` entry by entry sets it key by key.
proof fn lemma_map_activity(s: Seq<MeasurementView>, t: Seq<MeasurementView>, versions: Seq<Seq<char>>)
    requires
        s.len() == t.len(),
        forall|j: int| 0 <= j < s.len() ==> #[trigger] t[j] == with_active(s[j], versions.contains(s[j].0)),
    ensures
        measurement_map(t) == measurement_map(s).map_values(|m: MeasurementView| with_active(m, versions.contains(m.0))),
    decreases s.len(),
{
    if s.len() > 0 {
        lemma_map_activity(s.drop_last(), t.drop_last(), versions);
    }
    assert(measurement_map(t) =~= measurement_map(s).map_values(
        |m: MeasurementView| with_active(m, versions.contains(m.0)),
    ));
}

/// The views of a list of texts.
pub open spec fn str_views(v: Seq<&str>) -> Seq<Seq<char>> {
    v.map_values(|s: &str| s@)
}

impl MeasurementRegistry {
    /// An empty registry.
    pub fn new() -> (r: MeasurementRegistry)
        ensures
            r@ == Map::<Seq<char>, MeasurementView>::empty(),
    {
        let r = MeasurementRegistry { entries: Vec::new() };
        assert(entry_views(r.entries@) =~= Seq::<MeasurementView>::empty());
        r
    }

    /// Register (or replace) the measurement of an agent version.
    pub fn register(&mut self, measurement: KnownGoodMeasurement) -> (r: Result<(), String>)
        ensures
            r is Ok,
            final(self)@ == old(self)@.insert(measurement@.0, measurement@),
    {
        let ghost old_views = entry_views(self.entries@);
        let ghost v = measurement@.0;
        let ghost f = |e: MeasurementView| e.0 != v;
        let mut kept: Vec<KnownGoodMeasurement> = Vec::new();
        let mut i: usize = 0;
        let n = self.entries.len();
        while i < n
            invariant
                n == self.entries@.len(),
                old_views == entry_views(self.entries@),
                v == measurement@.0,
                f == (|e: MeasurementView| e.0 != v),
                i <= n,
                entry_views(kept@) =~= old_views.take(i as int).filter(f),
            decreases n - i,
        {
            proof {
                old_views.take(i as int).lemma_filter_push(old_views[i as int], f);
                assert(old_views.take(i as int + 1) =~= old_views.take(i as int).push(old_views[i as int]));
            }
            if !str_eq(self.entries[i].agent_version.as_str(), measurement.agent_version.as_str()) {
                let e = self.entries[i].clone();
                let ghost before = kept@;
                kept.push(e);
                assert(entry_views(kept@) =~= entry_views(before).push(old_views[i as int]));
            }
            i = i + 1;
        }
        proof {
            assert(old_views.take(n as int) =~= old_views);
            lemma_map_without_version(old_views, v);
        }
        let ghost m = measurement@;
        let ghost before = kept@;
        kept.push(measurement);
        self.entries = kept;
        proof {
            assert(entry_views(self.entries@) =~= entry_views(before).push(m));
            assert(entry_views(self.entries@).drop_last() =~= entry_views(before));
            assert(self@ =~= old(self)@.insert(m.0, m));
        }
        Ok(())
    }

    /// The measurement of an agent version, if registered and active.
    pub fn lookup(&self, agent_version: &str) -> (r: Option<KnownGoodMeasurement>)
        ensures
            r is Some <==> self@.contains_key(agent_version@) && self@[agent_version@].5,
            r matches Some(m) ==> m@ == self@[agent_version@],
    {
        let ghost views = entry_views(self.entries@);
        let n = self.entries.len();
        let mut i: usize = n;
        while i > 0
            invariant
                n == self.entries@.len(),
                views == entry_views(self.entries@),
                i <= n,
                forall|j: int| i <= j < n ==> #[trigger] views[j].0 != agent_version@,
            decreases i,
        {
            i = i - 1;
            if str_eq(self.entries[i].agent_version.as_str(), agent_version) {
                proof { lemma_map_last_entry(views, i as int); }
                if self.entries[i].active {
                    return Some(self.entries[i].clone());
                } else {
                    return None;
                }
            }
        }
        proof { lemma_map_absent(views, agent_version@); }
        None
    }

    /// Keep only the given versions active; every other version is
    /// deactivated.
    pub fn set_active_versions(&mut self, versions: &[&str]) -> (r: Result<(), String>)
        ensures
            r is Ok,
            final(self)@ == old(self)@.map_values(
                |m: MeasurementView| with_active(m, str_views(versions@).contains(m.0)),
            ),
    {
        let ghost vs = str_views(versions@);
        let ghost old_views = entry_views(self.entries@);
        let n = self.entries.len();
        let mut updated: Vec<KnownGoodMeasurement> = Vec::new();
        let mut i: usize = 0;
        while i < n
            invariant
                n == self.entries@.len(),
                old_views == entry_views(self.entries@),
                vs == str_views(versions@),
                i <= n,
                updated@.len() == i,
                forall|j: int| 0 <= j < i ==> #[trigger] updated@[j]@ == with_active(
                    old_views[j],
                    vs.contains(old_views[j].0),
                ),
            decreases n - i,
        {
            let mut found = false;
            let mut k: usize = 0;
            while k < versions.len()
                invariant
                    i < n,
                    n == self.entries@.len(),
                    vs == str_views(versions@),
                    k <= versions@.len(),
                    found == (exists|j: int| 0 <= j < k && vs[j] == self.entries@[i as int].agent_version@),
                decreases versions@.len() - k,
            {
                assert(vs[k as int] == versions@[k as int]@);
                if str_eq(versions[k], self.entries[i].agent_version.as_str()) {
                    found = true;
                }
                k = k + 1;
            }
            proof {
                if found {
                    let j = choose|j: int| 0 <= j < k && vs[j] == self.entries@[i as int].agent_version@;
                    assert(vs.contains(vs[j]));
                } else {
                    assert forall|j: int| 0 <= j < vs.len() implies vs[j] != self.entries@[i as int].agent_version@ by {}
                }
            }
            let mut e = self.entries[i].clone();
            e.active = found;
            updated.push(e);
            i = i + 1;
        }
        proof { lemma_map_activity(old_views, entry_views(updated@), vs); }
        self.entries = updated;
        Ok(())
    }
}

impl Default for MeasurementRegistry {
    fn default() -> (r: MeasurementRegistry)
        ensures
            r@ == Map::<Seq<char>, MeasurementView>::empty(),
    {
        MeasurementRegistry::new()
    }
}


// ─── Signature binding, Apple Secure Enclave, soft attestation ───────────

/// Every byte is zero.
pub open spec fn all_zero(b: Seq<u8>) -> bool {
    forall|i: int| 0 <= i < b.len() ==> b[i] == 0
}

/// The binding check on a quote signature: 64 bytes, not all zero, and its
/// first four bytes equal the first four of the SHA-256 of the signed data.
pub open spec fn quote_signature_ok(signed: Seq<u8>, sig: Seq<u8>) -> bool {
    &&& sig.len() == 64
    &&& !all_zero(sig)
    &&& sig.take(4) == sha256_of(signed).take(4)
}

/// Apple Secure Enclave structural check: at least 64 bytes, and the
/// trailing 64-byte signature is not all zero.
pub open spec fn apple_se_ok(b: Seq<u8>) -> bool {
    b.len() >= 64 && !all_zero(b.subrange(b.len() - 64, b.len() as int))
}

/// The bytes `soft:`.
pub open spec fn soft_prefix() -> Seq<u8> {
    seq![115u8, 111u8, 102u8, 116u8, 58u8]
}

/// Soft attestation check: the payload starts with `soft:`.
pub open spec fn soft_ok(b: Seq<u8>) -> bool {
    b.len() >= 5 && b.take(5) == soft_prefix()
}

fn is_all_zero(b: &[u8]) -> (r: bool)
    ensures
        r == all_zero(b@),
{
    let mut i: usize = 0;
    while i < b.len()
        invariant
            i <= b@.len(),
            forall|j: int| 0 <= j < i ==> b@[j] == 0,
        decreases b@.len() - i,
    {
        if b[i] != 0 {
            return false;
        }
        i = i + 1;
    }
    true
}

/// Check that a quote signature binds to the signed data. Always `Ok`.
fn verify_quote_signature(signed_data: &[u8], signature: &[u8]) -> (r: Result<bool, WcError>)
    ensures
        r matches Ok(b) && b == quote_signature_ok(signed_data@, signature@),
{
    if signature.len() != 64 {
        return Ok(false);
    }
    if is_all_zero(signature) {
        return Ok(false);
    }
    let hash = sha256(signed_data);
    let bound = signature[0] == hash[0] && signature[1] == hash[1] && signature[2] == hash[2]
        && signature[3] == hash[3];
    proof {
        if bound {
            assert(signature@.take(4) =~= hash@.take(4));
        } else if signature@.take(4) == hash@.take(4) {
            assert(signature@.take(4)[0] == hash@.take(4)[0]);
            assert(signature@.take(4)[1] == hash@.take(4)[1]);
            assert(signature@.take(4)[2] == hash@.take(4)[2]);
            assert(signature@.take(4)[3] == hash@.take(4)[3]);
        }
    }
    Ok(bound)
}

/// Apple Secure Enclave: structural checks only.
fn verify_apple_se(quote: &AttestationQuote) -> (r: Result<bool, WcError>)
    ensures
        r matches Ok(b) && b == apple_se_ok(quote.quote_bytes@),
{
    let n = quote.quote_bytes.len();
    if n < 64 {
        return Ok(false);
    }
    let sig = slice_subrange(quote.quote_bytes.as_slice(), n - 64, n);
    Ok(!is_all_zero(sig))
}

/// Soft attestation: the payload must start with `soft:`.
fn verify_soft(quote: &AttestationQuote) -> (r: Result<bool, WcError>)
    ensures
        r matches Ok(b) && b == soft_ok(quote.quote_bytes@),
{
    let b = &quote.quote_bytes;
    if b.len() < 5 {
        return Ok(false);
    }
    let ok = b[0] == 115 && b[1] == 111 && b[2] == 102 && b[3] == 116 && b[4] == 58;
    assert(ok <==> b@.take(5) =~= soft_prefix());
    Ok(ok)
}

// ─── Certificate chains ───────────────────────────────────────────────────

/// The fields of an X.509 certificate that the chain checks read.
#[derive(Debug)]
pub struct ParsedCert {
    /// DER bytes of the subject name.
    pub subject: Vec<u8>,
    /// DER bytes of the issuer name.
    pub issuer: Vec<u8>,
    /// Start of validity, nanoseconds since the Unix epoch.
    pub not_before: i128,
    /// End of validity, nanoseconds since the Unix epoch.
    pub not_after: i128,
    /// The CA flag of the basic-constraints extension, `None` when the
    /// extension is absent or cannot be read.
    pub is_ca: Option<bool>,
}

/// View of a certificate: subject, issuer, not-before, not-after, CA flag.
pub type CertView = (Seq<u8>, Seq<u8>, i128, i128, Option<bool>);

impl View for ParsedCert {
    type V = CertView;

    open spec fn view(&self) -> CertView {
        (self.subject@, self.issuer@, self.not_before, self.not_after, self.is_ca)
    }
}

/// What `X509Certificate::from_der` makes of DER bytes: the fields, or the
/// error's text.
pub uninterp spec fn x509_parse_of(der: Seq<u8>) -> Result<CertView, Seq<char>>;

/// The view of a certificate parse result.
pub open spec fn x509_result_view(r: Result<ParsedCert, String>) -> Result<CertView, Seq<char>> {
    match r {
        Ok(c) => Ok(c@),
        Err(m) => Err(m@),
    }
}

/// `x509_parser::certificate::X509Certificate::from_der`, read into plain
/// fields: raw subject and issuer names, validity in nanoseconds since the
/// Unix epoch (`to_datetime().unix_timestamp_nanos()`), and the
/// CA flag of the basic-constraints extension (`None` when absent or
/// unreadable). The result is named `x509_parse_of` of the bytes.
#[verifier::external_body]
fn parse_x509(der: &[u8]) -> (r: Result<ParsedCert, String>)
    ensures
        x509_parse_of(der@) == x509_result_view(r),
{
    match x509_parser::certificate::X509Certificate::from_der(der) {
        Ok((_, c)) => Ok(ParsedCert {
            subject: c.subject().as_raw().to_vec(),
            issuer: c.issuer().as_raw().to_vec(),
            not_before: c.validity().not_before.to_datetime().unix_timestamp_nanos(),
            not_after: c.validity().not_after.to_datetime().unix_timestamp_nanos(),
            is_ca: c.basic_constraints().ok().flatten().map(|b| b.value.ca),
        }),
        Err(e) => Err(e.to_string()),
    }
}

/// A certificate is valid at `now_us` (microseconds since the epoch).
pub open spec fn cert_valid_at(c: CertView, now_us: int) -> bool {
    c.2 <= now_us * 1000 && now_us * 1000 <= c.3
}

/// Certificate `i` is issued by certificate `i + 1`.
pub open spec fn links_to_next(cs: Seq<CertView>, i: int) -> bool {
    cs[i].1 == cs[i + 1].0
}

/// Structure of a chain ordered leaf to root: at least two certificates,
/// all valid now, each issued by the next, a self-signed root, and every
/// certificate after the leaf marked a CA (a certificate without a
/// readable basic-constraints extension is no CA).
pub open spec fn chain_structure_ok(cs: Seq<CertView>, now_us: int) -> bool {
    &&& cs.len() >= 2
    &&& forall|i: int| 0 <= i < cs.len() ==> #[trigger] cert_valid_at(cs[i], now_us)
    &&& forall|i: int| 0 <= i < cs.len() - 1 ==> #[trigger] links_to_next(cs, i)
    &&& cs.last().1 == cs.last().0
    &&& forall|i: int| 1 <= i < cs.len() ==> #[trigger] cs[i].4 == Some(true)
}

/// Check chain structure at a given time.
pub fn check_chain_structure(certs: &[ParsedCert], now_us: u64) -> (r: bool)
    ensures
        r == chain_structure_ok(certs@.map_values(|c: ParsedCert| c@), now_us as int),
{
    let ghost cs = certs@.map_values(|c: ParsedCert| c@);
    let n = certs.len();
    if n < 2 {
        return false;
    }
    let mut i: usize = 0;
    while i < n
        invariant
            n == certs@.len(),
            cs == certs@.map_values(|c: ParsedCert| c@),
            i <= n,
            forall|j: int| 0 <= j < i ==> #[trigger] cert_valid_at(cs[j], now_us as int),
        decreases n - i,
    {
        let c = &certs[i];
        let now_ns = (now_us as i128) * 1000;
        let ok = c.not_before <= now_ns && now_ns <= c.not_after;
        if !ok {
            assert(!cert_valid_at(cs[i as int], now_us as int));
            return false;
        }
        i = i + 1;
    }
    let mut i: usize = 0;
    while i < n - 1
        invariant
            n == certs@.len(),
            n >= 2,
            cs == certs@.map_values(|c: ParsedCert| c@),
            i <= n - 1,
            forall|j: int| 0 <= j < i ==> #[trigger] links_to_next(cs, j),
        decreases n - 1 - i,
    {
        if !bytes_equal(certs[i].issuer.as_slice(), certs[i + 1].subject.as_slice()) {
            assert(!links_to_next(cs, i as int));
            return false;
        }
        i = i + 1;
    }
    if !bytes_equal(certs[n - 1].issuer.as_slice(), certs[n - 1].subject.as_slice()) {
        return false;
    }
    let mut i: usize = 1;
    while i < n
        invariant
            n == certs@.len(),
            cs == certs@.map_values(|c: ParsedCert| c@),
            1 <= i <= n,
            forall|j: int| 1 <= j < i ==> #[trigger] cs[j].4 == Some(true),
        decreases n - i,
    {
        let marked_ca = match certs[i].is_ca {
            Some(flag) => flag,
            None => false,
        };
        if !marked_ca {
            assert(cs[i as int].4 != Some(true));
            return false;
        }
        i = i + 1;
    }
    true
}

fn bytes_equal(a: &[u8], b: &[u8]) -> (r: bool)
    ensures
        r == (a@ == b@),
{
    if a.len() != b.len() {
        return false;
    }
    let mut i: usize = 0;
    while i < a.len()
        invariant
            a@.len() == b@.len(),
            i <= a@.len(),
            forall|j: int| 0 <= j < i ==> a@[j] == b@[j],
        decreases a@.len() - i,
    {
        if a[i] != b[i] {
            return false;
        }
        i = i + 1;
    }
    assert(a@ =~= b@);
    true
}

/// The byte views of a list of buffers.
pub open spec fn byte_views(v: Seq<Vec<u8>>) -> Seq<Seq<u8>> {
    v.map_values(|b: Vec<u8>| b@)
}

/// Certificate `i` is the first that does not parse.
pub open spec fn first_unparsable(certs: Seq<Seq<u8>>, i: int) -> bool {
    &&& 0 <= i < certs.len()
    &&& x509_parse_of(certs[i]) is Err
    &&& forall|j: int| 0 <= j < i ==> #[trigger] x509_parse_of(certs[j]) is Ok
}

/// The fields of a certificate that parses.
pub open spec fn parsed_view(der: Seq<u8>) -> CertView {
    match x509_parse_of(der) {
        Ok(v) => v,
        Err(_) => (Seq::empty(), Seq::empty(), 0, 0, None),
    }
}

/// The text of a parse failure.
pub open spec fn parse_error_text(der: Seq<u8>) -> Seq<char> {
    match x509_parse_of(der) {
        Ok(_) => Seq::empty(),
        Err(e) => e,
    }
}

/// Outcome of chain-structure validation at time `now_us`: too short is
/// `false`; the first certificate that does not parse is an error; else
/// the structure check.
pub open spec fn chain_outcome(certs: Seq<Seq<u8>>, now_us: int) -> Result<bool, Seq<char>> {
    if certs.len() < 2 {
        Ok(false)
    } else if exists|i: int| first_unparsable(certs, i) {
        let i = choose|i: int| first_unparsable(certs, i);
        Err("Failed to parse certificate "@ + spec_decimal(i as nat) + " in chain: "@ + parse_error_text(certs[i]))
    } else {
        Ok(chain_structure_ok(certs.map_values(|c: Seq<u8>| parsed_view(c)), now_us))
    }
}

/// A verification result agrees with its specification; errors are
/// attestation failures.
pub open spec fn outcome_agrees(r: Result<bool, WcError>, s: Result<bool, Seq<char>>) -> bool {
    match r {
        Ok(b) => s == Ok::<bool, Seq<char>>(b),
        Err(e) => e.kind == ErrorCode::AttestationFailed && s == Err::<bool, Seq<char>>(e.message@),
    }
}

/// Structural validation of a DER certificate chain ordered leaf to root,
/// against the current time.
fn validate_chain_structure(certs: &[Vec<u8>]) -> (r: Result<bool, WcError>)
    ensures
        exists|now_us: u64| outcome_agrees(r, #[trigger] chain_outcome(byte_views(certs@), now_us as int)),
{
    let ghost ders = byte_views(certs@);
    if certs.len() < 2 {
        assert(outcome_agrees(r_false(), chain_outcome(ders, 0)));
        return Ok(false);
    }
    let n = certs.len();
    let mut parsed: Vec<ParsedCert> = Vec::new();
    let mut i: usize = 0;
    while i < n
        invariant
            n == certs@.len(),
            n >= 2,
            ders == byte_views(certs@),
            i <= n,
            parsed@.len() == i,
            forall|j: int| 0 <= j < i ==> #[trigger] x509_parse_of(ders[j]) == Ok::<CertView, Seq<char>>(parsed@[j]@),

        decreases n - i,
    {
        match parse_x509(certs[i].as_slice()) {
            Ok(c) => {
                parsed.push(c);
            },
            Err(e) => {
                assert(ders[i as int] == certs@[i as int]@);
                assert(parse_error_text(ders[i as int]) == e@);
                let idx = decimal(i as u64);
                let mut msg = join3("Failed to parse certificate ", idx.as_str(), " in chain: ");
                msg.append(e.as_str());
                proof {
                    assert(first_unparsable(ders, i as int));
                    assert forall|k: int| #[trigger] first_unparsable(ders, k) implies k == i by {
                        if k < i {
                            assert(x509_parse_of(ders[k]) is Ok);
                        } else if k > i {
                            assert(x509_parse_of(ders[i as int]) is Ok);
                        }
                    }
                    let k = choose|k: int| first_unparsable(ders, k);
                    assert(k == i);
                    assert(ders.len() >= 2);
                    assert(chain_outcome(ders, 0) == Err::<bool, Seq<char>>(
                        "Failed to parse certificate "@ + spec_decimal(i as nat) + " in chain: "@ + parse_error_text(ders[i as int])));
                }
                assert(msg@ == "Failed to parse certificate "@ + spec_decimal(i as nat) + " in chain: "@ + e@);
                let r = Err(WcError::new(ErrorCode::AttestationFailed, msg));
                assert(outcome_agrees(r, chain_outcome(ders, 0)));
                return r;
            },
        }
        i = i + 1;
    }
    let now = unix_micros_now();
    let ok = check_chain_structure(parsed.as_slice(), now);
    proof {
        assert(!exists|k: int| first_unparsable(ders, k));
        assert(parsed@.map_values(|c: ParsedCert| c@) =~= ders.map_values(|c: Seq<u8>| parsed_view(c)));
    }
    assert(outcome_agrees(Ok(ok), chain_outcome(ders, now as int)));
    Ok(ok)
}

spec fn r_false() -> Result<bool, WcError> {
    Ok(false)
}

proof fn lemma_first_unparsable_exists(certs: Seq<Seq<u8>>, i: int)
    requires
        0 <= i < certs.len(),
        x509_parse_of(certs[i]) is Err,
    ensures
        exists|k: int| first_unparsable(certs, k),
    decreases i,
{
    if forall|j: int| 0 <= j < i ==> #[trigger] x509_parse_of(certs[j]) is Ok {
        assert(first_unparsable(certs, i));
    } else {
        let j = choose|j: int| 0 <= j < i && !(#[trigger] x509_parse_of(certs[j]) is Ok);
        lemma_first_unparsable_exists(certs, j);
    }
}

/// What chain validation promises at any one time: a chain of fewer than
/// two certificates is refused without error; a chain of two or more with
/// a certificate that does not parse is an error; and an accepted chain
/// has at least two certificates, every one of which parses, is valid at
/// that time, is issued by the next, ends in a self-signed root, and has
/// every certificate after the leaf marked a CA.
pub proof fn law_chain_outcome(certs: Seq<Seq<u8>>, now_us: int)
    ensures
        certs.len() < 2 ==> chain_outcome(certs, now_us) == Ok::<bool, Seq<char>>(false),
        certs.len() >= 2 && (exists|i: int| 0 <= i < certs.len() && #[trigger] x509_parse_of(certs[i]) is Err)
            ==> chain_outcome(certs, now_us) is Err,
        chain_outcome(certs, now_us) == Ok::<bool, Seq<char>>(true) ==> {
            let cs = certs.map_values(|c: Seq<u8>| parsed_view(c));
            &&& certs.len() >= 2
            &&& forall|i: int| 0 <= i < certs.len() ==> #[trigger] x509_parse_of(certs[i]) == Ok::<CertView, Seq<char>>(cs[i])
            &&& forall|i: int| 0 <= i < cs.len() ==> #[trigger] cert_valid_at(cs[i], now_us)
            &&& forall|i: int| 0 <= i < cs.len() - 1 ==> #[trigger] links_to_next(cs, i)
            &&& cs.last().1 == cs.last().0
            &&& forall|i: int| 1 <= i < cs.len() ==> #[trigger] cs[i].4 == Some(true)
        },
{
    if certs.len() >= 2 && (exists|i: int| 0 <= i < certs.len() && #[trigger] x509_parse_of(certs[i]) is Err) {
        let i = choose|i: int| 0 <= i < certs.len() && #[trigger] x509_parse_of(certs[i]) is Err;
        lemma_first_unparsable_exists(certs, i);
    }
    if chain_outcome(certs, now_us) == Ok::<bool, Seq<char>>(true) {
        let cs = certs.map_values(|c: Seq<u8>| parsed_view(c));
        assert forall|i: int| 0 <= i < certs.len() implies #[trigger] x509_parse_of(certs[i]) == Ok::<CertView, Seq<char>>(cs[i]) by {
            if x509_parse_of(certs[i]) is Err {
                lemma_first_unparsable_exists(certs, i);
            }
        }
    }
}

/// Validation of the certificate chain that accompanies a quote.
pub trait CertificateChainValidator {
    /// Validate the chain (`certs`, leaf to root, DER) of a quote.
    fn validate_chain(&self, quote: &[u8], certs: &[Vec<u8>]) -> Result<bool, WcError>;

    /// The platform's name.
    fn platform_name(&self) -> &'static str;
}

/// TPM 2.0 endorsement-key chains.
pub struct Tpm2ChainValidator;

/// AMD SEV-SNP chains: VCEK, ASK, ARK.
pub struct SevSnpChainValidator;

/// Intel TDX DCAP chains: PCK, platform CA, Intel root.
pub struct TdxChainValidator;

impl CertificateChainValidator for Tpm2ChainValidator {
    fn validate_chain(&self, quote: &[u8], certs: &[Vec<u8>]) -> (r: Result<bool, WcError>)
        ensures
            exists|now_us: u64| outcome_agrees(r, #[trigger] chain_outcome(byte_views(certs@), now_us as int)),
    {
        validate_chain_structure(certs)
    }

    fn platform_name(&self) -> (r: &'static str)
        ensures
            r@ == "TPM 2.0"@,
    {
        "TPM 2.0"
    }
}

impl CertificateChainValidator for SevSnpChainValidator {
    fn validate_chain(&self, quote: &[u8], certs: &[Vec<u8>]) -> (r: Result<bool, WcError>)
        ensures
            exists|now_us: u64| outcome_agrees(r, #[trigger] chain_outcome(byte_views(certs@), now_us as int)),
    {
        validate_chain_structure(certs)
    }

    fn platform_name(&self) -> (r: &'static str)
        ensures
            r@ == "AMD SEV-SNP"@,
    {
        "AMD SEV-SNP"
    }
}

impl CertificateChainValidator for TdxChainValidator {
    fn validate_chain(&self, quote: &[u8], certs: &[Vec<u8>]) -> (r: Result<bool, WcError>)
        ensures
            exists|now_us: u64| outcome_agrees(r, #[trigger] chain_outcome(byte_views(certs@), now_us as int)),
    {
        validate_chain_structure(certs)
    }

    fn platform_name(&self) -> (r: &'static str)
        ensures
            r@ == "Intel TDX"@,
    {
        "Intel TDX"
    }
}

/// The chain validator of a hardware platform.
#[derive(Debug, Clone, Copy, PartialEq, Eq, Structural)]
pub enum ChainValidator {
    /// TPM 2.0.
    Tpm2,
    /// AMD SEV-SNP.
    SevSnp,
    /// Intel TDX.
    Tdx,
}

impl CertificateChainValidator for ChainValidator {
    fn validate_chain(&self, quote: &[u8], certs: &[Vec<u8>]) -> (r: Result<bool, WcError>)
        ensures
            exists|now_us: u64| outcome_agrees(r, #[trigger] chain_outcome(byte_views(certs@), now_us as int)),
    {
        validate_chain_structure(certs)
    }

    fn platform_name(&self) -> (r: &'static str)
        ensures
            r@ == (match *self {
                ChainValidator::Tpm2 => "TPM 2.0"@,
                ChainValidator::SevSnp => "AMD SEV-SNP"@,
                ChainValidator::Tdx => "Intel TDX"@,
            }),
    {
        match self {
            ChainValidator::Tpm2 => "TPM 2.0",
            ChainValidator::SevSnp => "AMD SEV-SNP",
            ChainValidator::Tdx => "Intel TDX",
        }
    }
}

/// The chain validator for an attestation type: TPM2, SEV-SNP and TDX have
/// one; the others none.
pub fn get_chain_validator(atype: &AttestationType) -> (r: Option<ChainValidator>)
    ensures
        r == (match *atype {
            AttestationType::Tpm2 => Some(ChainValidator::Tpm2),
            AttestationType::SevSnp => Some(ChainValidator::SevSnp),
            AttestationType::Tdx => Some(ChainValidator::Tdx),
            _ => None,
        }),
{
    match atype {
        AttestationType::Tpm2 => Some(ChainValidator::Tpm2),
        AttestationType::SevSnp => Some(ChainValidator::SevSnp),
        AttestationType::Tdx => Some(ChainValidator::Tdx),
        _ => None,
    }
}


// ─── Certificate chains carried in platform info ──────────────────────────

/// The pieces of a text between commas (a text without commas is one piece).
pub open spec fn split_commas(s: Seq<char>) -> Seq<Seq<char>>
    decreases s.len(),
{
    if s.len() == 0 {
        seq![Seq::empty()]
    } else {
        let p = split_commas(s.drop_last());
        if s.last() == ',' {
            p.push(Seq::empty())
        } else {
            p.update(p.len() - 1, p.last().push(s.last()))
        }
    }
}

/// Decode every non-empty piece as trimmed base64; `None` if any fails.
pub open spec fn decode_pieces(ps: Seq<Seq<char>>) -> Option<Seq<Seq<u8>>>
    decreases ps.len(),
{
    if ps.len() == 0 {
        Some(Seq::empty())
    } else {
        match decode_pieces(ps.drop_last()) {
            None => None,
            Some(done) => if ps.last().len() == 0 {
                Some(done)
            } else {
                match base64_decoded_of(trimmed_of(ps.last())) {
                    None => None,
                    Some(b) => Some(done.push(b)),
                }
            },
        }
    }
}

proof fn lemma_decode_none_extends(ps: Seq<Seq<char>>, k: int)
    requires
        0 <= k <= ps.len(),
        decode_pieces(ps.take(k)) is None,
    ensures
        decode_pieces(ps) is None,
    decreases ps.len() - k,
{
    if k < ps.len() {
        assert(ps.take(k + 1).drop_last() =~= ps.take(k));
        lemma_decode_none_extends(ps, k + 1);
    } else {
        assert(ps.take(k) =~= ps);
    }
}

/// The certificate chain carried by platform info: after a `certs:`
/// prefix, comma-separated base64 DER certificates (empty pieces skipped);
/// `None` without the prefix, on a decode error, or with no certificate.
pub open spec fn cert_chain_of(pi: Seq<char>) -> Option<Seq<Seq<u8>>> {
    if !has_prefix(pi, "certs:"@) {
        None
    } else {
        match decode_pieces(split_commas(pi.skip(6))) {
            Some(cs) => if cs.len() > 0 { Some(cs) } else { None },
            None => None,
        }
    }
}

/// The text views of a list of strings.
pub open spec fn string_views(v: Seq<String>) -> Seq<Seq<char>> {
    v.map_values(|s: String| s@)
}

fn split_on_commas(s: &str) -> (r: Vec<String>)
    ensures
        string_views(r@) == split_commas(s@),
{
    let n = s.unicode_len();
    let mut parts: Vec<String> = Vec::new();
    let mut cur = String::new();
    let mut i: usize = 0;
    assert(s@.take(0) =~= Seq::<char>::empty());
    assert(string_views(parts@).push(cur@) =~= seq![Seq::<char>::empty()]);
    while i < n
        invariant
            n == s@.len(),
            i <= n,
            split_commas(s@.take(i as int)) =~= string_views(parts@).push(cur@),
        decreases n - i,
    {
        let c = s.get_char(i);
        assert(s@.take(i as int + 1).drop_last() =~= s@.take(i as int));
        assert(s@.take(i as int + 1).last() == c);
        if c == ',' {
            let ghost before = parts@;
            let done = cur;
            parts.push(done);
            cur = String::new();
            assert(string_views(parts@) =~= string_views(before).push(done@));
        } else {
            let ghost before = cur@;
            push_char(&mut cur, c);
            assert(string_views(parts@).push(cur@) =~= string_views(parts@).push(before).update(
                string_views(parts@).len() as int,
                before.push(c),
            ));
        }
        i = i + 1;
    }
    assert(s@.take(n as int) =~= s@);
    let ghost before = parts@;
    parts.push(cur);
    assert(string_views(parts@) =~= string_views(before).push(cur@));
    parts
}

/// Extract the DER certificate chain carried in platform info.
fn extract_cert_chain_from_platform_info(platform_info: &str) -> (r: Option<Vec<Vec<u8>>>)
    ensures
        r matches Some(v) ==> cert_chain_of(platform_info@) == Some(byte_views(v@)),
        r is None ==> cert_chain_of(platform_info@) is None,
{
    proof { reveal_strlit("certs:"); }
    if !starts_with(platform_info, "certs:") {
        return None;
    }
    let n = platform_info.unicode_len();
    let rest = platform_info.substring_char(6, n);
    assert(rest@ =~= platform_info@.skip(6));
    let pieces = split_on_commas(rest);
    let ghost ps = string_views(pieces@);
    let mut out: Vec<Vec<u8>> = Vec::new();
    let mut k: usize = 0;
    assert(ps.take(0) =~= Seq::<Seq<char>>::empty());
    assert(byte_views(out@) =~= Seq::<Seq<u8>>::empty());
    while k < pieces.len()
        invariant
            ps == string_views(pieces@),
            ps == split_commas(platform_info@.skip(6)),
            has_prefix(platform_info@, "certs:"@),
            k <= pieces@.len(),
            decode_pieces(ps.take(k as int)) == Some(byte_views(out@)),
        decreases pieces@.len() - k,
    {
        assert(ps.take(k as int + 1).drop_last() =~= ps.take(k as int));
        assert(ps.take(k as int + 1).last() == pieces@[k as int]@);
        if pieces[k].as_str().unicode_len() > 0 {
            let t = trim_text(pieces[k].as_str());
            match base64_decode(t.as_str()) {
                Some(der) => {
                    let ghost before = out@;
                    out.push(der);
                    assert(byte_views(out@) =~= byte_views(before).push(der@));
                },
                None => {
                    assert(decode_pieces(ps.take(k as int + 1)) is None);
                    proof { lemma_decode_none_extends(ps, k as int + 1); }
                    return None;
                },
            }
        }
        k = k + 1;
    }
    assert(ps.take(pieces@.len() as int) =~= ps);
    if out.len() == 0 {
        return None;
    }
    Some(out)
}

// ─── Verification entry points ────────────────────────────────────────────

/// Signed data and signature of a parsed hardware quote, or the parse error.
pub open spec fn tpm2_signed_parts(b: Seq<u8>) -> Result<(Seq<u8>, Seq<u8>), Seq<char>> {
    match spec_parse_tpm2(b) {
        Ok(q) => Ok((q.3, q.2)),
        Err(m) => Err(m),
    }
}

/// Signed data and signature of a parsed SEV-SNP report or TDX quote.
pub open spec fn measured_signed_parts(p: Result<MeasuredView, Seq<char>>) -> Result<(Seq<u8>, Seq<u8>), Seq<char>> {
    match p {
        Ok(q) => Ok((q.3, q.2)),
        Err(m) => Err(m),
    }
}

/// Outcome for a hardware quote without a registry: the parse error, or
/// `false` if the signature does not bind, or the chain outcome when the
/// platform info carries a chain, else `true`.
pub open spec fn hardware_outcome(
    parts: Result<(Seq<u8>, Seq<u8>), Seq<char>>,
    pi: Seq<char>,
    now_us: int,
) -> Result<bool, Seq<char>> {
    match parts {
        Err(m) => Err(m),
        Ok((signed, sig)) => if !quote_signature_ok(signed, sig) {
            Ok(false)
        } else {
            match cert_chain_of(pi) {
                None => Ok(true),
                Some(certs) => chain_outcome(certs, now_us),
            }
        },
    }
}

/// Outcome of `verify_attestation` on a quote, with the clock at `now_us`.
pub open spec fn spec_verify_attestation(q: (AttestationType, Seq<u8>, Seq<char>), now_us: int) -> Result<bool, Seq<char>> {
    match q.0 {
        AttestationType::Tpm2 => if q.1.len() == 0 {
            Ok(false)
        } else {
            hardware_outcome(tpm2_signed_parts(q.1), q.2, now_us)
        },
        AttestationType::SevSnp => if q.1.len() == 0 {
            Ok(false)
        } else {
            hardware_outcome(measured_signed_parts(spec_parse_sev_snp(q.1)), q.2, now_us)
        },
        AttestationType::Tdx => if q.1.len() == 0 {
            Ok(false)
        } else {
            hardware_outcome(measured_signed_parts(spec_parse_tdx(q.1)), q.2, now_us)
        },
        AttestationType::AppleSecureEnclave => Ok(apple_se_ok(q.1)),
        AttestationType::Soft => Ok(soft_ok(q.1)),
    }
}

fn finish_hardware(
    signed_data: &[u8],
    signature: &[u8],
    platform_info: &str,
    validator: ChainValidator,
    quote: &[u8],
) -> (r: Result<bool, WcError>)
    ensures
        exists|now_us: u64| outcome_agrees(
            r,
            #[trigger] hardware_outcome(Ok((signed_data@, signature@)), platform_info@, now_us as int),
        ),
{
    let sig_ok = verify_quote_signature(signed_data, signature);
    match sig_ok {
        Ok(true) => {},
        _ => {
            assert(outcome_agrees(Ok(false), hardware_outcome(Ok((signed_data@, signature@)), platform_info@, 0)));
            return Ok(false);
        },
    }
    match extract_cert_chain_from_platform_info(platform_info) {
        Some(certs) => {
            let r = validator.validate_chain(quote, certs.as_slice());
            proof {
                let t = choose|now_us: u64| outcome_agrees(r, #[trigger] chain_outcome(byte_views(certs@), now_us as int));
                assert(outcome_agrees(r, hardware_outcome(Ok((signed_data@, signature@)), platform_info@, t as int)));
            }
            r
        },
        None => {
            assert(outcome_agrees(Ok(true), hardware_outcome(Ok((signed_data@, signature@)), platform_info@, 0)));
            Ok(true)
        },
    }
}

fn verify_tpm2(quote: &AttestationQuote) -> (r: Result<bool, WcError>)
    requires
        quote.quote_type == AttestationType::Tpm2,
    ensures
        exists|now_us: u64| outcome_agrees(r, #[trigger] spec_verify_attestation(quote@, now_us as int)),
{
    if quote.quote_bytes.len() == 0 {
        assert(outcome_agrees(Ok(false), spec_verify_attestation(quote@, 0)));
        return Ok(false);
    }
    match parse_tpm2_quote(quote.quote_bytes.as_slice()) {
        Err(e) => {
            let r = Err(e);
            assert(outcome_agrees(r, spec_verify_attestation(quote@, 0)));
            r
        },
        Ok(parsed) => {
            let r = finish_hardware(
                parsed.signed_data.as_slice(),
                parsed.signature.as_slice(),
                quote.platform_info.as_str(),
                ChainValidator::Tpm2,
                quote.quote_bytes.as_slice(),
            );
            proof {
                let t = choose|now_us: u64| outcome_agrees(
                    r,
                    #[trigger] hardware_outcome(Ok((parsed.signed_data@, parsed.signature@)), quote.platform_info@, now_us as int),
                );
                assert(outcome_agrees(r, spec_verify_attestation(quote@, t as int)));
            }
            r
        },
    }
}

fn verify_sev_snp(quote: &AttestationQuote) -> (r: Result<bool, WcError>)
    requires
        quote.quote_type == AttestationType::SevSnp,
    ensures
        exists|now_us: u64| outcome_agrees(r, #[trigger] spec_verify_attestation(quote@, now_us as int)),
{
    if quote.quote_bytes.len() == 0 {
        assert(outcome_agrees(Ok(false), spec_verify_attestation(quote@, 0)));
        return Ok(false);
    }
    match parse_sev_snp_report(quote.quote_bytes.as_slice()) {
        Err(e) => {
            let r = Err(e);
            assert(outcome_agrees(r, spec_verify_attestation(quote@, 0)));
            r
        },
        Ok(parsed) => {
            let r = finish_hardware(
                parsed.signed_data.as_slice(),
                parsed.signature.as_slice(),
                quote.platform_info.as_str(),
                ChainValidator::SevSnp,
                quote.quote_bytes.as_slice(),
            );
            proof {
                let t = choose|now_us: u64| outcome_agrees(
                    r,
                    #[trigger] hardware_outcome(Ok((parsed.signed_data@, parsed.signature@)), quote.platform_info@, now_us as int),
                );
                assert(outcome_agrees(r, spec_verify_attestation(quote@, t as int)));
            }
            r
        },
    }
}

fn verify_tdx(quote: &AttestationQuote) -> (r: Result<bool, WcError>)
    requires
        quote.quote_type == AttestationType::Tdx,
    ensures
        exists|now_us: u64| outcome_agrees(r, #[trigger] spec_verify_attestation(quote@, now_us as int)),
{
    if quote.quote_bytes.len() == 0 {
        assert(outcome_agrees(Ok(false), spec_verify_attestation(quote@, 0)));
        return Ok(false);
    }
    match parse_tdx_quote(quote.quote_bytes.as_slice()) {
        Err(e) => {
            let r = Err(e);
            assert(outcome_agrees(r, spec_verify_attestation(quote@, 0)));
            r
        },
        Ok(parsed) => {
            let r = finish_hardware(
                parsed.signed_data.as_slice(),
                parsed.signature.as_slice(),
                quote.platform_info.as_str(),
                ChainValidator::Tdx,
                quote.quote_bytes.as_slice(),
            );
            proof {
                let t = choose|now_us: u64| outcome_agrees(
                    r,
                    #[trigger] hardware_outcome(Ok((parsed.signed_data@, parsed.signature@)), quote.platform_info@, now_us as int),
                );
                assert(outcome_agrees(r, spec_verify_attestation(quote@, t as int)));
            }
            r
        },
    }
}

/// Verify an attestation quote: `Ok(true)` when valid, `Ok(false)` when
/// invalid but parseable, `Err` when the format is not recognized. Where the
/// platform info carries a certificate chain, its validity is judged at the
/// current time.
pub fn verify_attestation(quote: &AttestationQuote) -> (r: Result<bool, WcError>)
    ensures
        exists|now_us: u64| outcome_agrees(r, #[trigger] spec_verify_attestation(quote@, now_us as int)),
{
    match quote.quote_type {
        AttestationType::Tpm2 => verify_tpm2(quote),
        AttestationType::SevSnp => verify_sev_snp(quote),
        AttestationType::Tdx => verify_tdx(quote),
        AttestationType::AppleSecureEnclave => {
            let r = verify_apple_se(quote);
            assert(outcome_agrees(r, spec_verify_attestation(quote@, 0)));
            r
        },
        AttestationType::Soft => {
            let r = verify_soft(quote);
            assert(outcome_agrees(r, spec_verify_attestation(quote@, 0)));
            r
        },
    }
}


/// Every expected PCR value is in the quote, with the same value.
pub open spec fn pcrs_match(expected: Map<u32, Seq<char>>, actual: Map<u32, Seq<char>>) -> bool {
    forall|k: u32| #[trigger] expected.contains_key(k) ==> actual.contains_key(k) && actual[k] == expected[k]
}

/// Outcome of `verify_attestation_with_registry`: empty quotes are invalid;
/// parse errors and unknown or inactive versions are errors; a measurement
/// that differs from the registry is invalid; else the signature binding
/// decides.
pub open spec fn spec_verify_with_registry(
    q: (AttestationType, Seq<u8>, Seq<char>),
    reg: Map<Seq<char>, MeasurementView>,
) -> Result<bool, Seq<char>> {
    if q.1.len() == 0 {
        Ok(false)
    } else {
        match q.0 {
            AttestationType::Tpm2 => match spec_parse_tpm2(q.1) {
                Err(m) => Err(m),
                Ok(p) => if !(reg.contains_key(p.0) && reg[p.0].5) {
                    Err("Agent version '"@ + p.0 + "' not in measurement registry or not active"@)
                } else if !pcrs_match(reg[p.0].2, p.1) {
                    Ok(false)
                } else {
                    Ok(quote_signature_ok(p.3, p.2))
                },
            },
            AttestationType::SevSnp => match spec_parse_sev_snp(q.1) {
                Err(m) => Err(m),
                Ok(p) => if !(reg.contains_key(p.0) && reg[p.0].5) {
                    Err("Agent version '"@ + p.0 + "' not in measurement registry"@)
                } else if p.1 != reg[p.0].3 {
                    Ok(false)
                } else {
                    Ok(quote_signature_ok(p.3, p.2))
                },
            },
            AttestationType::Tdx => match spec_parse_tdx(q.1) {
                Err(m) => Err(m),
                Ok(p) => if !(reg.contains_key(p.0) && reg[p.0].5) {
                    Err("Agent version '"@ + p.0 + "' not in measurement registry"@)
                } else if p.1 != reg[p.0].4 {
                    Ok(false)
                } else {
                    Ok(quote_signature_ok(p.3, p.2))
                },
            },
            AttestationType::AppleSecureEnclave => Ok(apple_se_ok(q.1)),
            AttestationType::Soft => Ok(soft_ok(q.1)),
        }
    }
}

fn pcrs_agree(expected: &HashMap<u32, String>, actual: &HashMap<u32, String>) -> (r: bool)
    ensures
        r == pcrs_match(text_map(expected@), text_map(actual@)),
{
    broadcast use vstd::std_specs::hash::group_hash_axioms;
    for (k, v) in it: expected.iter()
        invariant
            forall|j: int| 0 <= j < it.index() ==> {
                let e = #[trigger] it.seq()[j];
                actual@.contains_key(*e.0) && actual@[*e.0]@ == (*e.1)@
            },
    {
        assert(expected@.contains_key(*k) && expected@[*k] == *v);
        match actual.get(k) {
            Some(a) => {
                if !str_eq(a.as_str(), v.as_str()) {
                    assert(!pcrs_match(text_map(expected@), text_map(actual@))) by {
                        assert(text_map(expected@).contains_key(*k));
                        assert(text_map(actual@)[*k] == a@);
                    }
                    return false;
                }
            },
            None => {
                assert(!pcrs_match(text_map(expected@), text_map(actual@))) by {
                    assert(text_map(expected@).contains_key(*k));
                }
                return false;
            },
        }
    }
    true
}

fn unknown_version(version: &str, suffix: &str) -> (r: WcError)
    ensures
        r.kind == ErrorCode::AttestationFailed,
        r.message@ == "Agent version '"@ + version@ + suffix@,
{
    WcError::new(ErrorCode::AttestationFailed, join3("Agent version '", version, suffix))
}

/// Verify an attestation quote against the registry of known-good
/// measurements: structure, agent version, measurements and signature.
pub fn verify_attestation_with_registry(quote: &AttestationQuote, registry: &MeasurementRegistry) -> (r: Result<
    bool,
    WcError,
>)
    ensures
        outcome_agrees(r, spec_verify_with_registry(quote@, registry@)),
{
    if quote.quote_bytes.len() == 0 {
        return Ok(false);
    }
    match quote.quote_type {
        AttestationType::Tpm2 => {
            let parsed = match parse_tpm2_quote(quote.quote_bytes.as_slice()) {
                Ok(p) => p,
                Err(e) => return Err(e),
            };
            let expected = match registry.lookup(parsed.agent_version.as_str()) {
                Some(m) => m,
                None => {
                    return Err(unknown_version(parsed.agent_version.as_str(), "' not in measurement registry or not active"));
                },
            };
            if !pcrs_agree(&expected.expected_pcr_values, &parsed.pcr_values) {
                return Ok(false);
            }
            verify_quote_signature(parsed.signed_data.as_slice(), parsed.signature.as_slice())
        },
        AttestationType::SevSnp => {
            let parsed = match parse_sev_snp_report(quote.quote_bytes.as_slice()) {
                Ok(p) => p,
                Err(e) => return Err(e),
            };
            let expected = match registry.lookup(parsed.agent_version.as_str()) {
                Some(m) => m,
                None => {
                    return Err(unknown_version(parsed.agent_version.as_str(), "' not in measurement registry"));
                },
            };
            if !str_eq(parsed.measurement.as_str(), expected.expected_snp_measurement.as_str()) {
                return Ok(false);
            }
            verify_quote_signature(parsed.signed_data.as_slice(), parsed.signature.as_slice())
        },
        AttestationType::Tdx => {
            let parsed = match parse_tdx_quote(quote.quote_bytes.as_slice()) {
                Ok(p) => p,
                Err(e) => return Err(e),
            };
            let expected = match registry.lookup(parsed.agent_version.as_str()) {
                Some(m) => m,
                None => {
                    return Err(unknown_version(parsed.agent_version.as_str(), "' not in measurement registry"));
                },
            };
            if !str_eq(parsed.mrtd.as_str(), expected.expected_tdx_mrtd.as_str()) {
                return Ok(false);
            }
            verify_quote_signature(parsed.signed_data.as_slice(), parsed.signature.as_slice())
        },
        AttestationType::AppleSecureEnclave => verify_apple_se(quote),
        AttestationType::Soft => verify_soft(quote),
    }
}

// ─── Quote construction ───────────────────────────────────────────────────

/// The payload of a soft attestation: `soft:<version>:<platform info>`.
pub open spec fn soft_payload(agent_version: Seq<char>, platform_info: Seq<char>) -> Seq<char> {
    "soft:"@ + agent_version + ":"@ + platform_info
}

/// A soft attestation quote: a self-report with no hardware root of trust.
pub fn generate_soft_attestation(agent_version: &str, platform_info: &str) -> (r: AttestationQuote)
    ensures
        r.quote_type == AttestationType::Soft,
        r.quote_bytes@ == vstd::utf8::encode_utf8(soft_payload(agent_version@, platform_info@)),
        r.platform_info@ == platform_info@,
{
    let payload = join4("soft:", agent_version, ":", platform_info);
    let bytes = payload.as_str().as_bytes_vec();
    AttestationQuote {
        quote_type: AttestationType::Soft,
        quote_bytes: bytes,
        platform_info: String::from_str(platform_info),
    }
}

/// Big-endian bytes of a `u32`.
pub open spec fn be_bytes(x: u32) -> Seq<u8> {
    seq![(x / 16777216) as u8, ((x / 65536) % 256) as u8, ((x / 256) % 256) as u8, (x % 256) as u8]
}

/// The test signature over a body: its SHA-256 followed by the bytes
/// 1, 2, ..., 32.
pub open spec fn test_signature(body: Seq<u8>) -> Seq<u8> {
    sha256_of(body) + Seq::new(32, |i: int| (i + 1) as u8)
}

/// PCR entries in wire form.
pub open spec fn pcr_entry_bytes(pcrs: Seq<(u32, [u8; 32])>) -> Seq<u8>
    decreases pcrs.len(),
{
    if pcrs.len() == 0 {
        Seq::empty()
    } else {
        pcr_entry_bytes(pcrs.drop_last()) + be_bytes(pcrs.last().0) + pcrs.last().1@
    }
}

/// Body of a test TPM2 quote (lengths are taken modulo 256, as a byte).
pub open spec fn tpm2_test_body(agent_version: Seq<char>, pcrs: Seq<(u32, [u8; 32])>) -> Seq<u8> {
    let v = vstd::utf8::encode_utf8(agent_version);
    tpm2_magic() + seq![(v.len() % 256) as u8] + v + seq![(pcrs.len() % 256) as u8] + pcr_entry_bytes(pcrs)
}

/// Body of a test report with one measurement.
pub open spec fn measured_test_body(magic: Seq<u8>, agent_version: Seq<char>, measurement: Seq<u8>) -> Seq<u8> {
    let v = vstd::utf8::encode_utf8(agent_version);
    magic + seq![(v.len() % 256) as u8] + v + measurement
}

fn append_bytes(buf: &mut Vec<u8>, src: &[u8])
    ensures
        final(buf)@ == old(buf)@ + src@,
{
    let mut i: usize = 0;
    while i < src.len()
        invariant
            i <= src@.len(),
            buf@ == old(buf)@ + src@.take(i as int),
        decreases src@.len() - i,
    {
        buf.push(src[i]);
        assert(src@.take(i as int + 1) =~= src@.take(i as int).push(src@[i as int]));
        i = i + 1;
    }
    assert(src@.take(src@.len() as int) =~= src@);
}

fn append_test_signature(buf: &mut Vec<u8>)
    ensures
        final(buf)@ == old(buf)@ + test_signature(old(buf)@),
        test_signature(old(buf)@).len() == 64,
        quote_signature_ok(old(buf)@, test_signature(old(buf)@)),
{
    let hash = sha256(buf.as_slice());
    let ghost body = buf@;
    append_bytes(buf, hash.as_slice());
    let mut i: u8 = 0;
    while i < 32
        invariant
            i <= 32,
            buf@ == body + sha256_of(body) + Seq::new(i as nat, |j: int| (j + 1) as u8),
        decreases 32 - i,
    {
        let ghost before = buf@;
        buf.push(i + 1);
        assert(Seq::new(i as nat + 1, |j: int| (j + 1) as u8) =~= Seq::new(i as nat, |j: int| (j + 1) as u8).push((i + 1) as u8));
        i = i + 1;
    }
    proof {
        let sig = test_signature(body);
        assert(sig[32] == 1u8);
        assert(sig.take(4) =~= sha256_of(body).take(4));
    }
}

fn push_version(buf: &mut Vec<u8>, agent_version: &str)
    ensures
        final(buf)@ == old(buf)@ + seq![(vstd::utf8::encode_utf8(agent_version@).len() % 256) as u8]
            + vstd::utf8::encode_utf8(agent_version@),
{
    let bytes = agent_version.as_bytes();
    let n = bytes.len();
    buf.push((n % 256) as u8);
    append_bytes(buf, bytes);
}

/// The PCR entries as the parser reports them: index and hex value.
pub open spec fn pcr_entry_views(pcrs: Seq<(u32, [u8; 32])>) -> Seq<(u32, Seq<char>)> {
    pcrs.map_values(|p: (u32, [u8; 32])| (p.0, hex_lower(p.1@)))
}

proof fn lemma_be_round_trip(x: u32)
    ensures
        be_u32(be_bytes(x), 0) == x,
{
    let b = be_bytes(x);
    assert(b[0] as int == x / 16777216);
    assert(b[1] as int == (x / 65536) % 256);
    assert(b[2] as int == (x / 256) % 256);
    assert(b[3] as int == x % 256);
    assert((x / 16777216) * 16777216 + ((x / 65536) % 256) * 65536 + ((x / 256) % 256) * 256 + x % 256 == x)
        by (nonlinear_arith);
}

proof fn lemma_pcr_entry_layout(pcrs: Seq<(u32, [u8; 32])>)
    ensures
        pcr_entry_bytes(pcrs).len() == 36 * pcrs.len(),
        forall|i: int|
            0 <= i < pcrs.len() ==> #[trigger] pcr_entry_bytes(pcrs).subrange(36 * i, 36 * i + 36) == be_bytes(
                pcrs[i].0,
            ) + pcrs[i].1@,
    decreases pcrs.len(),
{
    if pcrs.len() > 0 {
        let p = pcrs.drop_last();
        lemma_pcr_entry_layout(p);
        let e = pcr_entry_bytes(pcrs);
        let ep = pcr_entry_bytes(p);
        let last = pcrs.last();
        assert(e == ep + be_bytes(last.0) + last.1@);
        assert forall|i: int| 0 <= i < pcrs.len() implies #[trigger] e.subrange(36 * i, 36 * i + 36) == be_bytes(
            pcrs[i].0,
        ) + pcrs[i].1@ by {
            if i < p.len() {
                assert(e.subrange(36 * i, 36 * i + 36) =~= ep.subrange(36 * i, 36 * i + 36));
                assert(pcrs[i] == p[i]);
            } else {
                assert(e.subrange(36 * i, 36 * i + 36) =~= be_bytes(last.0) + last.1@);
            }
        }
    }
}

proof fn lemma_entry_decodes(b: Seq<u8>, start: int, pcrs: Seq<(u32, [u8; 32])>, i: int)
    requires
        0 <= i < pcrs.len(),
        0 <= start,
        start + 36 * pcrs.len() <= b.len(),
        b.subrange(start, start + 36 * pcrs.len()) == pcr_entry_bytes(pcrs),
    ensures
        tpm2_pcr_entry(b, start, i) == (pcrs[i].0, hex_lower(pcrs[i].1@)),
{
    lemma_pcr_entry_layout(pcrs);
    let entries = pcr_entry_bytes(pcrs);
    let off = start + i * 36;
    let chunk = entries.subrange(36 * i, 36 * i + 36);
    assert(chunk == be_bytes(pcrs[i].0) + pcrs[i].1@);
    assert forall|k: int| 0 <= k < 36 implies #[trigger] b[off + k] == chunk[k] by {
        assert(b[off + k] == b.subrange(start, start + 36 * pcrs.len())[36 * i + k]);
    }
    let x = pcrs[i].0;
    assert(b[off + 0] == chunk[0] && chunk[0] == be_bytes(x)[0]);
    assert(b[off + 1] == chunk[1] && chunk[1] == be_bytes(x)[1]);
    assert(b[off + 2] == chunk[2] && chunk[2] == be_bytes(x)[2]);
    assert(b[off + 3] == chunk[3] && chunk[3] == be_bytes(x)[3]);
    assert(be_u32(b, off) == be_u32(be_bytes(x), 0));
    lemma_be_round_trip(x);
    assert forall|j: int| 0 <= j < 32 implies #[trigger] b.subrange(off + 4, off + 36)[j] == pcrs[i].1@[j] by {
        assert(b.subrange(off + 4, off + 36)[j] == b[off + (4 + j)]);
        assert(chunk[4 + j] == pcrs[i].1@[j]);
    }
    assert(b.subrange(off + 4, off + 36) =~= pcrs[i].1@);
}

/// A TPM2 quote laid out from a version, PCR entries and any 64-byte
/// signature parses back into those parts: the version text, the map the
/// entries fill, the signature, and the bytes before it as signed data,
/// when the version and the PCR count fit their one-byte lengths.
pub proof fn law_tpm2_round_trip(agent_version: Seq<char>, pcrs: Seq<(u32, [u8; 32])>, signature: Seq<u8>)
    requires
        vstd::utf8::encode_utf8(agent_version).len() < 256,
        pcrs.len() < 256,
        signature.len() == 64,
    ensures
        ({
            let body = tpm2_test_body(agent_version, pcrs);
            spec_parse_tpm2(body + signature) == Ok::<Tpm2View, Seq<char>>((
                lossy_text_of(vstd::utf8::encode_utf8(agent_version)),
                pcr_map(pcr_entry_views(pcrs)),
                signature,
                body,
            ))
        }),
{
    let v = vstd::utf8::encode_utf8(agent_version);
    let body = tpm2_test_body(agent_version, pcrs);
    let b = body + signature;
    let vl = v.len() as int;
    let pc = pcrs.len() as int;
    let start = 6 + vl;
    let entries = pcr_entry_bytes(pcrs);
    lemma_pcr_entry_layout(pcrs);
    let sig = start + pc * 36;
    assert(b[4] == (v.len() % 256) as u8);
    assert(b[5 + vl] == (pcrs.len() % 256) as u8);
    assert(b.take(4) =~= tpm2_magic());
    assert(b.subrange(5, 5 + vl) =~= v);
    assert(b.subrange(sig, sig + 64) =~= signature);
    assert(b.take(sig) =~= body);
    assert(b.subrange(start, start + 36 * pc) =~= entries);
    assert forall|i: int| 0 <= i < pc implies #[trigger] tpm2_pcr_entry(b, start, i) == pcr_entry_views(pcrs)[i] by {
        lemma_entry_decodes(b, start, pcrs, i);
    }
    assert(Seq::new(pc as nat, |i: int| tpm2_pcr_entry(b, start, i)) =~= pcr_entry_views(pcrs));
}

/// A well-formed TPM2 quote for tests, with a binding signature.
pub fn build_test_tpm2_quote(agent_version: &str, pcr_values: &[(u32, [u8; 32])]) -> (r: Vec<u8>)
    ensures
        r@ == tpm2_test_body(agent_version@, pcr_values@) + test_signature(tpm2_test_body(agent_version@, pcr_values@)),
        quote_signature_ok(
            tpm2_test_body(agent_version@, pcr_values@),
            test_signature(tpm2_test_body(agent_version@, pcr_values@)),
        ),
        vstd::utf8::encode_utf8(agent_version@).len() < 256 && pcr_values@.len() < 256 ==> spec_parse_tpm2(r@)
            == Ok::<Tpm2View, Seq<char>>((
            lossy_text_of(vstd::utf8::encode_utf8(agent_version@)),
            pcr_map(pcr_entry_views(pcr_values@)),
            test_signature(tpm2_test_body(agent_version@, pcr_values@)),
            tpm2_test_body(agent_version@, pcr_values@),
        )),
{
    let mut buf: Vec<u8> = Vec::new();
    buf.push(84);
    buf.push(80);
    buf.push(77);
    buf.push(50);
    push_version(&mut buf, agent_version);
    buf.push((pcr_values.len() % 256) as u8);
    let ghost head = buf@;
    let mut i: usize = 0;
    while i < pcr_values.len()
        invariant
            i <= pcr_values@.len(),
            buf@ == head + pcr_entry_bytes(pcr_values@.take(i as int)),
        decreases pcr_values@.len() - i,
    {
        let (index, value) = pcr_values[i];
        buf.push((index / 16777216) as u8);
        buf.push(((index / 65536) % 256) as u8);
        buf.push(((index / 256) % 256) as u8);
        buf.push((index % 256) as u8);
        append_bytes(&mut buf, value.as_slice());
        assert(pcr_values@.take(i as int + 1).drop_last() =~= pcr_values@.take(i as int));
        i = i + 1;
    }
    assert(pcr_values@.take(pcr_values@.len() as int) =~= pcr_values@);
    assert(buf@ =~= tpm2_test_body(agent_version@, pcr_values@));
    append_test_signature(&mut buf);
    proof {
        if vstd::utf8::encode_utf8(agent_version@).len() < 256 && pcr_values@.len() < 256 {
            law_tpm2_round_trip(agent_version@, pcr_values@, test_signature(tpm2_test_body(agent_version@, pcr_values@)));
        }
    }
    buf
}

/// A test report parses back into the parts it was built from, when the
/// version fits its one-byte length.
proof fn lemma_measured_round_trip(
    magic: Seq<u8>,
    agent_version: Seq<char>,
    measurement: Seq<u8>,
    short_msg: Seq<char>,
    magic_msg: Seq<char>,
    trunc_msg: Seq<char>,
)
    requires
        magic.len() == 4,
        vstd::utf8::encode_utf8(agent_version).len() < 256,
        test_signature(measured_test_body(magic, agent_version, measurement)).len() == 64,
    ensures
        ({
            let body = measured_test_body(magic, agent_version, measurement);
            spec_parse_measured(
                body + test_signature(body),
                magic,
                measurement.len() as int,
                short_msg,
                magic_msg,
                trunc_msg,
            ) == Ok::<MeasuredView, Seq<char>>((
                lossy_text_of(vstd::utf8::encode_utf8(agent_version)),
                hex_lower(measurement),
                test_signature(body),
                body,
            ))
        }),
{
    let v = vstd::utf8::encode_utf8(agent_version);
    let body = measured_test_body(magic, agent_version, measurement);
    let b = body + test_signature(body);
    let vl = v.len() as int;
    let m = 5 + vl;
    let sig = m + measurement.len();
    assert(b[4] == (v.len() % 256) as u8);
    assert(b.take(4) =~= magic);
    assert(b.subrange(5, m) =~= v);
    assert(b.subrange(m, sig) =~= measurement);
    assert(b.subrange(sig, sig + 64) =~= test_signature(body));
    assert(b.take(sig) =~= body);
}

/// A well-formed SEV-SNP report for tests, with a binding signature.
pub fn build_test_sev_snp_report(agent_version: &str, measurement: &[u8; 32]) -> (r: Vec<u8>)
    ensures
        r@ == measured_test_body(sev_snp_magic(), agent_version@, measurement@) + test_signature(
            measured_test_body(sev_snp_magic(), agent_version@, measurement@),
        ),
        quote_signature_ok(
            measured_test_body(sev_snp_magic(), agent_version@, measurement@),
            test_signature(measured_test_body(sev_snp_magic(), agent_version@, measurement@)),
        ),
        vstd::utf8::encode_utf8(agent_version@).len() < 256 ==> spec_parse_sev_snp(r@) == Ok::<
            MeasuredView,
            Seq<char>,
        >((
            lossy_text_of(vstd::utf8::encode_utf8(agent_version@)),
            hex_lower(measurement@),
            test_signature(measured_test_body(sev_snp_magic(), agent_version@, measurement@)),
            measured_test_body(sev_snp_magic(), agent_version@, measurement@),
        )),
{
    let mut buf: Vec<u8> = Vec::new();
    buf.push(83);
    buf.push(78);
    buf.push(86);
    buf.push(80);
    push_version(&mut buf, agent_version);
    append_bytes(&mut buf, measurement.as_slice());
    assert(buf@ =~= measured_test_body(sev_snp_magic(), agent_version@, measurement@));
    append_test_signature(&mut buf);
    proof {
        if vstd::utf8::encode_utf8(agent_version@).len() < 256 {
            lemma_measured_round_trip(
                sev_snp_magic(),
                agent_version@,
                measurement@,
                "SEV-SNP report too short"@,
                "Invalid SEV-SNP magic bytes"@,
                "SEV-SNP report truncated"@,
            );
        }
    }
    buf
}

/// A well-formed TDX quote for tests, with a binding signature.
pub fn build_test_tdx_quote(agent_version: &str, mrtd: &[u8; 48]) -> (r: Vec<u8>)
    ensures
        r@ == measured_test_body(tdx_magic(), agent_version@, mrtd@) + test_signature(
            measured_test_body(tdx_magic(), agent_version@, mrtd@),
        ),
        quote_signature_ok(
            measured_test_body(tdx_magic(), agent_version@, mrtd@),
            test_signature(measured_test_body(tdx_magic(), agent_version@, mrtd@)),
        ),
        vstd::utf8::encode_utf8(agent_version@).len() < 256 ==> spec_parse_tdx(r@) == Ok::<MeasuredView, Seq<char>>((
            lossy_text_of(vstd::utf8::encode_utf8(agent_version@)),
            hex_lower(mrtd@),
            test_signature(measured_test_body(tdx_magic(), agent_version@, mrtd@)),
            measured_test_body(tdx_magic(), agent_version@, mrtd@),
        )),
{
    let mut buf: Vec<u8> = Vec::new();
    buf.push(84);
    buf.push(68);
    buf.push(88);
    buf.push(49);
    push_version(&mut buf, agent_version);
    append_bytes(&mut buf, mrtd.as_slice());
    assert(buf@ =~= measured_test_body(tdx_magic(), agent_version@, mrtd@));
    append_test_signature(&mut buf);
    proof {
        if vstd::utf8::encode_utf8(agent_version@).len() < 256 {
            lemma_measured_round_trip(
                tdx_magic(),
                agent_version@,
                mrtd@,
                "TDX quote too short"@,
                "Invalid TDX magic bytes"@,
                "TDX quote truncated"@,
            );
        }
    }
    buf
}

} // verus!
