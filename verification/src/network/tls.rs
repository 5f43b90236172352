//! TLS settings, the federation certificate authority and the certificate
//! rotation rule.
use vstd::prelude::*;
use crate::error::{ErrorCode, WcError};
use crate::external::{
    all_ascii, certificate_der, certificate_params, generate_p256_key_pair, is_ascii_text, key_pair_der, path_from,
    path_text_of, self_signed, signed_by, SignedCertificate,
};
use crate::text::{has_prefix, join2};
use crate::types::now_micros;

verus! {

/// When certificates are rotated.
#[derive(Debug, Clone)]
pub struct CertRotationPolicy {
    /// Rotate this many days after issue.
    pub rotate_after_days: u32,
    /// Days during which old and new certificates are both accepted.
    pub overlap_days: u32,
    /// Rotate without operator action.
    pub auto_rotate: bool,
}

impl Default for CertRotationPolicy {
    /// 90-day rotation with a 7-day overlap, automatic.
    fn default() -> (r: CertRotationPolicy)
        ensures
            r.rotate_after_days == 90,
            r.overlap_days == 7,
            r.auto_rotate,
    {
        CertRotationPolicy { rotate_after_days: 90, overlap_days: 7, auto_rotate: true }
    }
}

/// TLS file locations and rotation.
#[derive(Debug)]
pub struct TlsConfig {
    /// Node certificate (PEM).
    pub cert_path: std::path::PathBuf,
    /// Node private key (PEM).
    pub key_path: std::path::PathBuf,
    /// CA bundle (PEM).
    pub ca_path: std::path::PathBuf,
    /// Days between automatic rotations.
    pub auto_rotate_days: u32,
    /// Rotation policy.
    pub rotation_policy: CertRotationPolicy,
}

impl Default for TlsConfig {
    /// Files under `/etc/world-compute/tls/`, 90-day rotation.
    fn default() -> (r: TlsConfig)
        ensures
            path_text_of(r.cert_path) == "/etc/world-compute/tls/node.crt"@,
            path_text_of(r.key_path) == "/etc/world-compute/tls/node.key"@,
            path_text_of(r.ca_path) == "/etc/world-compute/tls/ca-bundle.crt"@,
            r.auto_rotate_days == 90,
            r.rotation_policy.rotate_after_days == 90,
            r.rotation_policy.overlap_days == 7,
            r.rotation_policy.auto_rotate,
    {
        TlsConfig {
            cert_path: path_from("/etc/world-compute/tls/node.crt"),
            key_path: path_from("/etc/world-compute/tls/node.key"),
            ca_path: path_from("/etc/world-compute/tls/ca-bundle.crt"),
            auto_rotate_days: 90,
            rotation_policy: CertRotationPolicy::default(),
        }
    }
}

/// A certificate issued by the federation CA.
#[derive(Debug, Clone)]
pub struct IssuedCert {
    /// DER certificate.
    pub cert_der: Vec<u8>,
    /// DER private key.
    pub key_der: Vec<u8>,
    /// End of validity, microseconds since the Unix epoch.
    pub not_after: i64,
    /// What the certificate states of its subject.
    pub subject: CertSpec,
    /// What the issuing certificate states.
    pub issuer: CertSpec,
}

/// Microseconds in a day.
pub const MICROS_PER_DAY: i64 = 86_400_000_000;

/// A certificate needs rotation at `now` when it expires within
/// `days_before_expiry` days.
pub open spec fn rotation_due(not_after: i64, days_before_expiry: u32, now: i64) -> bool {
    not_after <= now + days_before_expiry * MICROS_PER_DAY
}

/// Whether a certificate needs rotation at time `now` (microseconds).
pub fn needs_rotation_at(cert: &IssuedCert, days_before_expiry: u32, now: i64) -> (r: bool)
    ensures
        r == rotation_due(cert.not_after, days_before_expiry, now),
{
    let days = days_before_expiry as i128;
    assert(0 <= days * 86_400_000_000 <= 4_294_967_295i128 * 86_400_000_000) by (nonlinear_arith)
        requires
            0 <= days <= 4_294_967_295i128,
    ;
    (cert.not_after as i128) <= (now as i128) + days * (MICROS_PER_DAY as i128)
}

/// Whether a certificate needs rotation now.
pub fn needs_rotation(cert: &IssuedCert, days_before_expiry: u32) -> (r: bool)
    ensures
        exists|now: i64| r == #[trigger] rotation_due(cert.not_after, days_before_expiry, now),
{
    let now = now_micros();
    needs_rotation_at(cert, days_before_expiry, now)
}

/// Rotation is monotone in time: once due, a certificate stays due.
pub proof fn law_rotation_stays_due(not_after: i64, days: u32, t1: i64, t2: i64)
    requires
        t1 <= t2,
        rotation_due(not_after, days, t1),
    ensures
        rotation_due(not_after, days, t2),
{
}

} // verus!

verus! {

/// A calendar day `(year, month, day)` that a certificate can carry: years
/// 0 to 9999 (the range of an ASN.1 GeneralizedTime, which rcgen uses
/// outside 1950 to 2049) and days 1 to 28, which exist in every month.
pub open spec fn valid_day(d: (i32, u8, u8)) -> bool {
    0 <= d.0 <= 9999 && 1 <= d.1 <= 12 && 1 <= d.2 <= 28
}

/// What a certificate states, as plain values: its alternative names, its
/// common name, its organization, whether it may sign certificates (with
/// no path-length limit), and the first and last day of its validity
/// (midnight UTC).
#[derive(Debug)]
pub struct CertSpec {
    /// Subject alternative names.
    pub alt_names: Vec<String>,
    /// Common name of the subject.
    pub common_name: String,
    /// Organization of the subject.
    pub organization: Option<String>,
    /// Whether it is a certificate authority.
    pub is_ca: bool,
    /// First day of validity.
    pub not_before: (i32, u8, u8),
    /// Day validity ends.
    pub not_after: (i32, u8, u8),
}

/// A certificate's content as values.
pub type CertSpecView = (Seq<Seq<char>>, Seq<char>, Option<Seq<char>>, bool, (i32, u8, u8), (i32, u8, u8));

impl View for CertSpec {
    type V = CertSpecView;

    open spec fn view(&self) -> CertSpecView {
        (
            self.alt_names@.map_values(|n: String| n@),
            self.common_name@,
            match self.organization {
                Some(o) => Some(o@),
                None => None,
            },
            self.is_ca,
            self.not_before,
            self.not_after,
        )
    }
}

impl CertSpec {
    /// Both validity days exist.
    pub open spec fn dates_valid(&self) -> bool {
        valid_day(self.not_before) && valid_day(self.not_after)
    }
}

impl Clone for CertSpec {
    fn clone(&self) -> (r: Self)
        ensures
            r@ == self@,
    {
        let mut names: Vec<String> = Vec::new();
        let mut i: usize = 0;
        while i < self.alt_names.len()
            invariant
                i <= self.alt_names@.len(),
                names@.map_values(|n: String| n@) == self.alt_names@.take(i as int).map_values(|n: String| n@),
            decreases self.alt_names@.len() - i,
        {
            let ghost before = names@.map_values(|n: String| n@);
            names.push(String::from_str(self.alt_names[i].as_str()));
            assert(self.alt_names@.take(i as int + 1) =~= self.alt_names@.take(i as int).push(self.alt_names@[i as int]));
            assert(names@.map_values(|n: String| n@) =~= before.push(self.alt_names@[i as int]@));
            i = i + 1;
        }
        assert(self.alt_names@.take(self.alt_names@.len() as int) =~= self.alt_names@);
        let organization = match &self.organization {
            Some(o) => Some(String::from_str(o.as_str())),
            None => None,
        };
        CertSpec {
            alt_names: names,
            common_name: String::from_str(self.common_name.as_str()),
            organization,
            is_ca: self.is_ca,
            not_before: self.not_before,
            not_after: self.not_after,
        }
    }
}

/// The CA certificate: common name `World Compute CA`, organization
/// `World Compute`, no alternative names, a certificate authority, valid
/// from 2024-01-01 to 2034-01-01.
pub open spec fn ca_spec_view() -> CertSpecView {
    (Seq::empty(), "World Compute CA"@, Some("World Compute"@), true, (2024i32, 1u8, 1u8), (2034i32, 1u8, 1u8))
}

/// An account certificate: the account as its only alternative name and as
/// its common name, no organization, not a certificate authority, valid
/// from 1975-01-01 to 4096-01-01.
pub open spec fn account_spec_view(subject: Seq<char>) -> CertSpecView {
    (seq![subject], subject, None, false, (1975i32, 1u8, 1u8), (4096i32, 1u8, 1u8))
}

impl CertSpec {
    /// The content of the CA certificate.
    pub fn for_ca() -> (r: CertSpec)
        ensures
            r@ == ca_spec_view(),
            r.dates_valid(),
    {
        let r = CertSpec {
            alt_names: Vec::new(),
            common_name: String::from_str("World Compute CA"),
            organization: Some(String::from_str("World Compute")),
            is_ca: true,
            not_before: (2024, 1, 1),
            not_after: (2034, 1, 1),
        };
        assert(r.alt_names@.map_values(|n: String| n@) =~= Seq::<Seq<char>>::empty());
        r
    }

    /// The content of the certificate of an account.
    pub fn for_account(subject: &str) -> (r: CertSpec)
        ensures
            r@ == account_spec_view(subject@),
            r.dates_valid(),
    {
        let mut names: Vec<String> = Vec::new();
        names.push(String::from_str(subject));
        let r = CertSpec {
            alt_names: names,
            common_name: String::from_str(subject),
            organization: None,
            is_ca: false,
            not_before: (1975, 1, 1),
            not_after: (4096, 1, 1),
        };
        assert(r.alt_names@.map_values(|n: String| n@) =~= seq![subject@]);
        r
    }
}

/// Days a certificate issued by the CA stays valid.
pub const ISSUED_CERT_DAYS: i64 = 90;

/// When a certificate issued at `now` expires: `ISSUED_CERT_DAYS` later,
/// or the last representable moment.
pub open spec fn expiry_after(now: i64) -> i64 {
    if now + ISSUED_CERT_DAYS * MICROS_PER_DAY > i64::MAX {
        i64::MAX
    } else {
        (now + ISSUED_CERT_DAYS * MICROS_PER_DAY) as i64
    }
}

/// A self-signed certificate authority (ECDSA P-256) that issues
/// per-account certificates.
pub struct CertificateAuthority {
    /// DER of the CA certificate.
    pub ca_cert_der: Vec<u8>,
    /// DER (PKCS#8) of the CA private key.
    pub ca_key_der: Vec<u8>,
    /// The CA certificate that issued certificates name as their issuer.
    pub ca_cert: SignedCertificate,
    /// The CA key that signs issued certificates.
    pub ca_key: rcgen::KeyPair,
}

/// A text that starts with `p` does not start with `q` when the two differ
/// at a position both have.
proof fn lemma_prefixes_differ(m: Seq<char>, p: Seq<char>, q: Seq<char>, i: int)
    requires
        has_prefix(m, p),
        0 <= i < p.len(),
        i < q.len(),
        p[i] != q[i],
    ensures
        !has_prefix(m, q),
{
    assert(m.subrange(0, p.len() as int)[i] == m[i]);
    if has_prefix(m, q) {
        assert(m.subrange(0, q.len() as int)[i] == m[i]);
    }
}

fn internal_error(prefix: &str, detail: String) -> (e: WcError)
    ensures
        e.kind == ErrorCode::Internal,
        e.message@ == prefix@ + detail@,
        has_prefix(e.message@, prefix@),
{
    let e = WcError::new(ErrorCode::Internal, join2(prefix, detail.as_str()));
    assert(e.message@.subrange(0, prefix@.len() as int) =~= prefix@);
    e
}

impl CertificateAuthority {
    /// Generate a CA: a fresh P-256 key and a self-signed certificate with
    /// common name `World Compute CA`, organization `World Compute`, no path
    /// length limit, valid from 2024-01-01 to 2034-01-01. A failure is an
    /// internal error naming the step.
    pub fn new() -> (r: Result<CertificateAuthority, WcError>)
        ensures
            r matches Ok(ca) ==> ca.ca_cert.content() == ca_spec_view() && ca.ca_cert.issuer_content()
                == ca_spec_view() && ca.ca_cert_der@.len() > 0,
            r matches Err(e) ==> e.kind == ErrorCode::Internal && (has_prefix(
                e.message@,
                "CA key generation failed: "@,
            ) || has_prefix(e.message@, "CA self-sign failed: "@)),
    {
        let key = match generate_p256_key_pair() {
            Ok(k) => k,
            Err(m) => return Err(internal_error("CA key generation failed: ", m)),
        };
        let spec = CertSpec::for_ca();
        assert(all_ascii(spec@.0));
        let prepared = match certificate_params(spec) {
            Ok(p) => p,
            Err(m) => return Err(internal_error("CA params creation failed: ", m)),
        };
        let cert = match self_signed(prepared, &key) {
            Ok(c) => c,
            Err(m) => return Err(internal_error("CA self-sign failed: ", m)),
        };
        let ca_cert_der = certificate_der(&cert);
        let ca_key_der = key_pair_der(&key);
        Ok(CertificateAuthority { ca_cert_der, ca_key_der, ca_cert: cert, ca_key: key })
    }

    /// Issue a certificate for `subject` (an account identifier, also its
    /// alternative name) signed by this CA, with a fresh P-256 key; it is
    /// recorded as expiring `ISSUED_CERT_DAYS` days after `now`
    /// (microseconds).
    pub fn issue_cert_at(&self, subject: &str, now: i64) -> (r: Result<IssuedCert, WcError>)
        ensures
            r matches Ok(c) ==> c.not_after == expiry_after(now),
            r matches Ok(c) ==> c.subject@ == account_spec_view(subject@) && c.issuer@ == self.ca_cert.content()
                && c.cert_der@.len() > 0,
            !is_ascii_text(subject@) ==> r is Err,
            r matches Err(e) ==> (has_prefix(e.message@, "cert params creation failed: "@) ==> !is_ascii_text(
                subject@,
            )),
            r matches Err(e) ==> e.kind == ErrorCode::Internal && (has_prefix(
                e.message@,
                "cert key generation failed: "@,
            ) || has_prefix(e.message@, "cert params creation failed: "@) || has_prefix(
                e.message@,
                "cert signing failed: "@,
            )),
    {
        let key = match generate_p256_key_pair() {
            Ok(k) => k,
            Err(m) => {
                let e = internal_error("cert key generation failed: ", m);
                proof {
                    reveal_strlit("cert key generation failed: ");
                    reveal_strlit("cert params creation failed: ");
                    lemma_prefixes_differ(e.message@, "cert key generation failed: "@, "cert params creation failed: "@, 5);
                }
                return Err(e);
            },
        };
        let spec = CertSpec::for_account(subject);
        assert(all_ascii(spec@.0) == is_ascii_text(subject@)) by {
            assert(spec@.0[0] == subject@);
        }
        let prepared = match certificate_params(spec) {
            Ok(p) => p,
            Err(m) => return Err(internal_error("cert params creation failed: ", m)),
        };
        let span = ISSUED_CERT_DAYS * MICROS_PER_DAY;
        let expiry = if now > i64::MAX - span { i64::MAX } else { now + span };
        let cert = match signed_by(prepared, &key, &self.ca_cert, &self.ca_key) {
            Ok(c) => c,
            Err(m) => {
                let e = internal_error("cert signing failed: ", m);
                proof {
                    reveal_strlit("cert signing failed: ");
                    reveal_strlit("cert params creation failed: ");
                    lemma_prefixes_differ(e.message@, "cert signing failed: "@, "cert params creation failed: "@, 5);
                }
                return Err(e);
            },
        };
        Ok(IssuedCert {
            cert_der: certificate_der(&cert),
            key_der: key_pair_der(&key),
            not_after: expiry,
            subject: cert.content_spec(),
            issuer: cert.issuer_spec(),
        })
    }

    /// Issue a certificate for `subject`, valid `ISSUED_CERT_DAYS` days from
    /// the current time.
    pub fn issue_cert(&self, subject: &str) -> (r: Result<IssuedCert, WcError>)
        ensures
            r matches Ok(c) ==> exists|now: i64| c.not_after == #[trigger] expiry_after(now),
            r matches Err(e) ==> e.kind == ErrorCode::Internal,
    {
        let now = now_micros();
        self.issue_cert_at(subject, now)
    }
}

} // verus!
