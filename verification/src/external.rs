//! Calls into outside crates and into std where vstd gives no contract.
//! Each item here is trusted: its contract is believed, not proved.
use vstd::prelude::*;
use crate::network::tls::{CertSpec, CertSpecView};

verus! {

/// Reads the system clock: microseconds since the Unix epoch
/// (`std::time::SystemTime::now`). Nothing is promised of the value.
#[verifier::external_body]
pub fn unix_micros_now() -> (r: u64) {
    std::time::SystemTime::now()
        .duration_since(std::time::UNIX_EPOCH)
        .map(|d| d.as_micros() as u64)
        .unwrap_or(0)
}

} // verus!

verus! {

/// `std::path::PathBuf`, carried through opaquely.
#[verifier::external_type_specification]
#[verifier::external_body]
pub struct ExPathBuf(std::path::PathBuf);

/// The text that `Path::display` shows for a path.
pub uninterp spec fn path_text_of(path: std::path::PathBuf) -> Seq<char>;

/// `std::path::PathBuf::from(&str)`. The path is built from the text's
/// bytes unchanged, so what `display` shows of it (`path_text_of`) is the
/// text itself: a path made from UTF-8 has nothing to replace.
#[verifier::external_body]
pub fn path_from(text: &str) -> (r: std::path::PathBuf)
    ensures
        path_text_of(r) == text@,
{
    std::path::PathBuf::from(text)
}

/// `PathBuf::display().to_string()`: named `path_text_of` of the path.
#[verifier::external_body]
pub fn path_display(path: &std::path::PathBuf) -> (r: String)
    ensures
        r@ == path_text_of(*path),
{
    path.display().to_string()
}

} // verus!

verus! {

/// The text form of a CIDv1 (multibase base32-lower of the CID bytes), as a
/// function of codec, multihash code and digest.
pub uninterp spec fn cid_text_of(codec: u64, hash_code: u64, digest: Seq<u8>) -> Seq<char>;

/// `cid::Cid::new_v1(codec, Multihash::wrap(hash_code, digest))` rendered with
/// `to_string`. The result is named `cid_text_of` of the three parts; the
/// crate's `Display` for v1 is `multibase::encode(Base32Lower, ..)`, which
/// starts with the base code `'b'`, so the text is never empty.
#[verifier::external_body]
pub fn cid_text(codec: u64, hash_code: u64, digest: &[u8]) -> (r: String)
    requires
        digest@.len() <= 64,
    ensures
        r@ == cid_text_of(codec, hash_code, digest@),
        r@.len() > 0,
        r@[0] == 'b',
{
    let mh = cid::multihash::Multihash::<64>::wrap(hash_code, digest).unwrap();
    cid::Cid::new_v1(codec, mh).to_string()
}

/// SHA-256 of a byte string.
pub uninterp spec fn sha256_of(data: Seq<u8>) -> Seq<u8>;

/// `sha2::Sha256::digest`: the result is named `sha256_of` of the input and
/// is 32 bytes long.
#[verifier::external_body]
pub fn sha256(data: &[u8]) -> (r: Vec<u8>)
    ensures
        r@ == sha256_of(data@),
        r@.len() == 32,
{
    <sha2::Sha256 as sha2::Digest>::digest(data).to_vec()
}

} // verus!

verus! {

/// Whether an Ed25519 signature verifies a message under a public key.
pub uninterp spec fn ed25519_accepts(public_key: Seq<u8>, message: Seq<u8>, signature: Seq<u8>) -> bool;

/// `ed25519_dalek::VerifyingKey::from_bytes` then `verify`: true when the
/// key decodes and the signature verifies. The result is named
/// `ed25519_accepts` of key, message and signature.
#[verifier::external_body]
pub fn ed25519_verify(public_key: &[u8], message: &[u8], signature: &[u8]) -> (r: bool)
    requires
        public_key@.len() == 32,
        signature@.len() == 64,
    ensures
        r == ed25519_accepts(public_key@, message@, signature@),
{
    let pk: [u8; 32] = public_key.try_into().unwrap();
    let sig: [u8; 64] = signature.try_into().unwrap();
    match ed25519_dalek::VerifyingKey::from_bytes(&pk) {
        Ok(key) => ed25519_dalek::Verifier::verify(&key, message, &ed25519_dalek::Signature::from_bytes(&sig)).is_ok(),
        Err(_) => false,
    }
}

} // verus!

verus! {

/// One lowercase hexadecimal digit.
pub open spec fn hex_digit(n: int) -> char {
    if n < 10 { ((48 + n) as u8) as char } else { ((87 + n) as u8) as char }
}

/// Lowercase hexadecimal text of a byte string: two digits per byte, high
/// nibble first.
pub open spec fn hex_lower(bytes: Seq<u8>) -> Seq<char>
    decreases bytes.len(),
{
    if bytes.len() == 0 {
        Seq::empty()
    } else {
        let b = bytes.last() as int;
        hex_lower(bytes.drop_last()) + seq![hex_digit(b / 16), hex_digit(b % 16)]
    }
}

/// `hex::encode`: each byte becomes two lowercase hex digits, high nibble
/// first (the crate's table `0123456789abcdef`).
#[verifier::external_body]
pub fn hex_encode(bytes: &[u8]) -> (r: String)
    ensures
        r@ == hex_lower(bytes@),
{
    hex::encode(bytes)
}

/// The value of a hexadecimal digit of either case, if it is one.
pub open spec fn hex_value(c: char) -> Option<int> {
    if '0' <= c && c <= '9' {
        Some(c as int - 48)
    } else if 'a' <= c && c <= 'f' {
        Some(c as int - 87)
    } else if 'A' <= c && c <= 'F' {
        Some(c as int - 55)
    } else {
        None
    }
}

/// What `hex::decode` gives for a text: the bytes when the text has even
/// length and only hexadecimal digits, else nothing.
pub open spec fn hex_decoded(text: Seq<char>) -> Option<Seq<u8>> {
    if text.len() % 2 == 0 && forall|i: int| 0 <= i < text.len() ==> #[trigger] hex_value(text[i]) is Some {
        Some(Seq::new(
            (text.len() / 2) as nat,
            |i: int| (hex_value(text[2 * i]).unwrap() * 16 + hex_value(text[2 * i + 1]).unwrap()) as u8,
        ))
    } else {
        None
    }
}

/// `hex::decode` on a text: `Some` of the bytes exactly when the text has
/// even length and every character is a hex digit of either case.
#[verifier::external_body]
pub fn hex_decode(text: &str) -> (r: Option<Vec<u8>>)
    ensures
        r matches Some(v) ==> hex_decoded(text@) == Some(v@),
        r is None ==> hex_decoded(text@) is None,
{
    hex::decode(text).ok()
}

} // verus!

verus! {

/// What `String::from_utf8_lossy` makes of a byte string.
pub uninterp spec fn lossy_text_of(bytes: Seq<u8>) -> Seq<char>;

/// `String::from_utf8_lossy(..).to_string()`: the result is named
/// `lossy_text_of` of the bytes; on valid UTF-8 it is the decoded text.
#[verifier::external_body]
pub fn utf8_lossy(bytes: &[u8]) -> (r: String)
    ensures
        r@ == lossy_text_of(bytes@),
        vstd::utf8::valid_utf8(bytes@) ==> vstd::utf8::encode_utf8(r@) == bytes@,
{
    String::from_utf8_lossy(bytes).to_string()
}

/// The text without its leading white space.
pub open spec fn trim_start_of(text: Seq<char>) -> Seq<char>
    decreases text.len(),
{
    if text.len() > 0 && whitespace_of(text[0]) {
        trim_start_of(text.drop_first())
    } else {
        text
    }
}

/// The text without its trailing white space.
pub open spec fn trim_end_of(text: Seq<char>) -> Seq<char>
    decreases text.len(),
{
    if text.len() > 0 && whitespace_of(text.last()) {
        trim_end_of(text.drop_last())
    } else {
        text
    }
}

/// What `str::trim` leaves of a text: leading and trailing characters with
/// the Unicode White_Space property removed.
pub open spec fn trimmed_of(text: Seq<char>) -> Seq<char> {
    trim_end_of(trim_start_of(text))
}

/// `str::trim`: as documented, the text with leading and trailing
/// White_Space characters removed (`trimmed_of`).
#[verifier::external_body]
pub fn trim_text(text: &str) -> (r: String)
    ensures
        r@ == trimmed_of(text@),
{
    text.trim().to_string()
}

/// What the standard padded base64 engine decodes a text to, if anything.
pub uninterp spec fn base64_decoded_of(text: Seq<char>) -> Option<Seq<u8>>;

/// `base64::engine::general_purpose::STANDARD.decode`: `Some` of the bytes
/// on success, `None` on a decode error; named `base64_decoded_of` of the text.
#[verifier::external_body]
pub fn base64_decode(text: &str) -> (r: Option<Vec<u8>>)
    ensures
        r matches Some(v) ==> base64_decoded_of(text@) == Some(v@),
        r is None ==> base64_decoded_of(text@) is None,
{
    base64::Engine::decode(&base64::engine::general_purpose::STANDARD, text).ok()
}

} // verus!

verus! {

/// A lowercase hexadecimal digit.
pub open spec fn is_lower_hex_digit(c: char) -> bool {
    ('0' <= c && c <= '9') || ('a' <= c && c <= 'f')
}

/// Position `i` of a hyphenated UUID text holds a hyphen.
pub open spec fn uuid_hyphen_at(i: int) -> bool {
    i == 8 || i == 13 || i == 18 || i == 23
}

/// The lowercase hyphenated text of a version-4 UUID: 36 characters,
/// hyphens at 8, 13, 18 and 23, lowercase hex digits elsewhere, the
/// version digit `4` at 14 and a variant digit among `8 9 a b` at 19.
pub open spec fn is_uuid_v4_text(s: Seq<char>) -> bool {
    &&& s.len() == 36
    &&& forall|i: int| 0 <= i < 36 ==> if uuid_hyphen_at(i) {
        #[trigger] s[i] == '-'
    } else {
        is_lower_hex_digit(s[i])
    }
    &&& s[14] == '4'
    &&& (s[19] == '8' || s[19] == '9' || s[19] == 'a' || s[19] == 'b')
}

/// `uuid::Uuid::new_v4().to_string()`: a random UUID in its hyphenated
/// text form. `new_v4` masks random bits so that the version nibble is 4
/// and the variant nibble is one of 8 to b, and `Display` writes the
/// lowercase hyphenated form; which UUID comes back is left open. It
/// panics if the operating system's random source fails, which nothing
/// here can rule out.
#[verifier::external_body]
pub fn new_uuid_text() -> (r: String)
    ensures
        is_uuid_v4_text(r@),
{
    uuid::Uuid::new_v4().to_string()
}

} // verus!

verus! {

/// `String::push`: appends one character.
#[verifier::external_body]
pub fn push_char(s: &mut String, c: char)
    ensures
        final(s)@ == old(s)@.push(c),
{
    s.push(c);
}

} // verus!

verus! {

/// `std::time::Instant`, carried through opaquely.
#[verifier::external_type_specification]
#[verifier::external_body]
pub struct ExInstant(std::time::Instant);

/// `std::time::Instant::now`: a reading of the monotonic clock. Nothing is
/// promised of it.
#[verifier::external_body]
pub fn instant_now() -> (r: std::time::Instant) {
    std::time::Instant::now()
}

/// `Instant::saturating_duration_since`, in whole microseconds: the time
/// from `earlier` to `later`, zero if `later` is not after it. Nothing is
/// promised of the value: it depends on when the two readings were taken.
#[verifier::external_body]
pub fn micros_between(earlier: &std::time::Instant, later: &std::time::Instant) -> (r: u64) {
    later.saturating_duration_since(*earlier).as_micros() as u64
}

/// The duration of a whole number of seconds.
pub uninterp spec fn duration_of_secs(secs: u64) -> std::time::Duration;

/// `std::time::Duration::from_secs`: named `duration_of_secs` of its argument.
#[verifier::external_body]
pub fn duration_from_secs(secs: u64) -> (r: std::time::Duration)
    ensures
        r == duration_of_secs(secs),
{
    std::time::Duration::from_secs(secs)
}


} // verus!

verus! {

/// `String::from_utf8`: `Some` of the decoded text exactly when the bytes
/// are valid UTF-8.
#[verifier::external_body]
pub fn utf8_decode(bytes: Vec<u8>) -> (r: Option<String>)
    ensures
        r is Some <==> vstd::utf8::valid_utf8(bytes@),
        r matches Some(s) ==> s@ == vstd::utf8::decode_utf8(bytes@),
{
    String::from_utf8(bytes).ok()
}

/// A JSON string literal for a text, as serde_json writes it: in double
/// quotes, with `"` and `\` escaped by a backslash, the control characters
/// 8, 9, 10, 12, 13 written `\b \t \n \f \r`, the other control characters
/// below 32 written `\u00XX` in lowercase hex, and everything else as is.
pub open spec fn json_escaped_char(c: char) -> Seq<char> {
    if c == '"' {
        seq!['\\', '"']
    } else if c == '\\' {
        seq!['\\', '\\']
    } else if c == '\u{8}' {
        seq!['\\', 'b']
    } else if c == '\t' {
        seq!['\\', 't']
    } else if c == '\n' {
        seq!['\\', 'n']
    } else if c == '\u{c}' {
        seq!['\\', 'f']
    } else if c == '\r' {
        seq!['\\', 'r']
    } else if (c as u32) < 32 {
        seq!['\\', 'u', '0', '0', hex_digit((c as u32 / 16) as int), hex_digit((c as u32 % 16) as int)]
    } else {
        seq![c]
    }
}

/// The escaped characters of a text.
pub open spec fn json_escaped(s: Seq<char>) -> Seq<char>
    decreases s.len(),
{
    if s.len() == 0 {
        Seq::empty()
    } else {
        json_escaped(s.drop_last()) + json_escaped_char(s.last())
    }
}

/// `serde_json::to_string` of a `&str`: the text as a JSON string literal.
/// Serializing a string cannot fail.
#[verifier::external_body]
pub fn json_quote(text: &str) -> (r: String)
    ensures
        r@ == seq!['"'] + json_escaped(text@) + seq!['"'],
{
    serde_json::to_string(text).unwrap_or_default()
}

} // verus!

verus! {

/// Whether a character has the Unicode White_Space property: U+0009 to
/// U+000D, U+0020, U+0085, U+00A0, U+1680, U+2000 to U+200A, U+2028,
/// U+2029, U+202F, U+205F and U+3000.
pub open spec fn whitespace_of(c: char) -> bool {
    let u = c as u32;
    ||| 0x9 <= u <= 0xD
    ||| u == 0x20
    ||| u == 0x85
    ||| u == 0xA0
    ||| u == 0x1680
    ||| 0x2000 <= u <= 0x200A
    ||| u == 0x2028
    ||| u == 0x2029
    ||| u == 0x202F
    ||| u == 0x205F
    ||| u == 0x3000
}


} // verus!

verus! {

/// `rcgen::KeyPair`, carried through opaquely.
#[verifier::external_type_specification]
#[verifier::external_body]
pub struct ExKeyPair(rcgen::KeyPair);

/// `rcgen::CertificateParams`, carried through opaquely.
#[verifier::external_type_specification]
#[verifier::external_body]
pub struct ExCertificateParams(rcgen::CertificateParams);

/// `rcgen::Certificate`, carried through opaquely.
#[verifier::external_type_specification]
#[verifier::external_body]
pub struct ExCertificate(rcgen::Certificate);

/// `rcgen::KeyPair::generate_for(&PKCS_ECDSA_P256_SHA256)`: a fresh random
/// ECDSA P-256 key pair, or the crate's error as text. Nothing is promised
/// of which.
#[verifier::external_body]
pub fn generate_p256_key_pair() -> (r: Result<rcgen::KeyPair, String>) {
    match rcgen::KeyPair::generate_for(&rcgen::PKCS_ECDSA_P256_SHA256) {
        Ok(k) => Ok(k),
        Err(e) => Err(format!("{e}")),
    }
}

/// `rcgen::KeyPair::serialized_der`: the PKCS#8 DER of the key, copied out.
/// The key is opaque here, so nothing is stated of the bytes.
#[verifier::external_body]
pub fn key_pair_der(key: &rcgen::KeyPair) -> (r: Vec<u8>) {
    key.serialized_der().to_vec()
}

/// Every character is ASCII.
pub open spec fn is_ascii_text(s: Seq<char>) -> bool {
    forall|i: int| 0 <= i < s.len() ==> (#[trigger] s[i] as u32) < 128
}

/// Every name is ASCII.
pub open spec fn all_ascii(names: Seq<Seq<char>>) -> bool {
    forall|i: int| 0 <= i < names.len() ==> is_ascii_text(#[trigger] names[i])
}

/// rcgen certificate parameters together with the content they were
/// converted from. Only the functions below make one.
pub struct PreparedCert {
    params: rcgen::CertificateParams,
    content: CertSpec,
}

impl PreparedCert {
    /// The content the parameters were converted from.
    pub closed spec fn content(&self) -> CertSpecView {
        self.content@
    }
}

/// A certificate signed by rcgen, together with the content it was made
/// from and the content of its issuer. Only the functions below make one.
pub struct SignedCertificate {
    cert: rcgen::Certificate,
    content: CertSpec,
    issuer: CertSpec,
}

impl SignedCertificate {
    /// The content the certificate was made from.
    pub closed spec fn content(&self) -> CertSpecView {
        self.content@
    }

    /// The content of the certificate that issued it.
    pub closed spec fn issuer_content(&self) -> CertSpecView {
        self.issuer@
    }

    /// The content the certificate was made from, copied.
    pub fn content_spec(&self) -> (r: CertSpec)
        ensures
            r@ == self.content(),
    {
        self.content.clone()
    }

    /// The content of the issuing certificate, copied.
    pub fn issuer_spec(&self) -> (r: CertSpec)
        ensures
            r@ == self.issuer_content(),
    {
        self.issuer.clone()
    }
}

/// Converts a `CertSpec` into rcgen parameters: `CertificateParams::new`
/// with the alternative names, `is_ca` set to `Ca(Unconstrained)` or
/// `NoCa`, the common name and the organization pushed into the
/// distinguished name, and the validity dates from `date_time_ymd`.
/// `CertificateParams::new` turns a name that is not an IP address into a
/// DNS name, which it accepts exactly when it is ASCII (every IP address
/// text is ASCII), so the result is `Ok` exactly when every name is ASCII.
/// `date_time_ymd` panics on a day that does not exist; days 1 to 28 of
/// every month exist in the years it accepts. Signing writes a year outside
/// 1950 to 2049 as a GeneralizedTime, which yasna accepts for years 0 to
/// 9999; `dates_valid` keeps to those years, so signing does not panic.
#[verifier::external_body]
pub fn certificate_params(spec: CertSpec) -> (r: Result<PreparedCert, String>)
    requires
        spec.dates_valid(),
    ensures
        r is Ok <==> all_ascii(spec@.0),
        r matches Ok(p) ==> p.content() == spec@,
{
    let mut params = match rcgen::CertificateParams::new(spec.alt_names.clone()) {
        Ok(p) => p,
        Err(e) => return Err(format!("{e}")),
    };
    params.is_ca = if spec.is_ca { rcgen::IsCa::Ca(rcgen::BasicConstraints::Unconstrained) } else { rcgen::IsCa::NoCa };
    params.distinguished_name.push(rcgen::DnType::CommonName, spec.common_name.as_str());
    if let Some(o) = &spec.organization {
        params.distinguished_name.push(rcgen::DnType::OrganizationName, o.as_str());
    }
    let (b, a) = (spec.not_before, spec.not_after);
    params.not_before = rcgen::date_time_ymd(b.0, b.1, b.2);
    params.not_after = rcgen::date_time_ymd(a.0, a.1, a.2);
    Ok(PreparedCert { params, content: spec })
}

/// `rcgen::CertificateParams::self_signed`: the certificate signed by its
/// own key, or the crate's error as text; nothing is promised of which. A
/// certificate is made from the parameters handed in and is its own issuer.
/// A `PreparedCert` only comes from `certificate_params`, whose dates keep
/// to the years that the DER time encodings accept, so signing does not
/// panic on them.
#[verifier::external_body]
pub fn self_signed(prepared: PreparedCert, key: &rcgen::KeyPair) -> (r: Result<SignedCertificate, String>)
    ensures
        r matches Ok(c) ==> c.content() == prepared.content() && c.issuer_content() == prepared.content(),
{
    match prepared.params.self_signed(key) {
        Ok(cert) => Ok(SignedCertificate { cert, issuer: prepared.content.clone(), content: prepared.content }),
        Err(e) => Err(format!("{e}")),
    }
}

/// `rcgen::CertificateParams::signed_by`: a certificate for `key` made from
/// the parameters handed in, naming `issuer` as its issuer and signed with
/// `issuer_key`, or the crate's error as text; nothing is promised of which.
/// As for `self_signed`, the dates of a `PreparedCert` keep to the years
/// that the DER time encodings accept, so signing does not panic on them.
#[verifier::external_body]
pub fn signed_by(
    prepared: PreparedCert,
    key: &rcgen::KeyPair,
    issuer: &SignedCertificate,
    issuer_key: &rcgen::KeyPair,
) -> (r: Result<SignedCertificate, String>)
    ensures
        r matches Ok(c) ==> c.content() == prepared.content() && c.issuer_content() == issuer.content(),
{
    match prepared.params.signed_by(key, &issuer.cert, issuer_key) {
        Ok(cert) => Ok(SignedCertificate { cert, content: prepared.content, issuer: issuer.content.clone() }),
        Err(e) => Err(format!("{e}")),
    }
}

/// `rcgen::Certificate::der`: the certificate's DER, copied out. A
/// certificate is only made by signing, which writes a DER SEQUENCE, so the
/// bytes are never empty; nothing more is stated of them.
#[verifier::external_body]
pub fn certificate_der(cert: &SignedCertificate) -> (r: Vec<u8>)
    ensures
        r@.len() > 0,
{
    cert.cert.der().to_vec()
}

} // verus!

verus! {

/// `libp2p::identity::Keypair`, carried through opaquely.
#[verifier::external_type_specification]
#[verifier::external_body]
pub struct ExKeypair(libp2p::identity::Keypair);

/// `Keypair::clone` (derived): a copy of the same key pair.
#[verifier::external_body]
pub fn clone_keypair(keypair: &libp2p::identity::Keypair) -> (r: libp2p::identity::Keypair)
    ensures
        r == *keypair,
{
    keypair.clone()
}

} // verus!

verus! {

/// `Duration::clone`: `Duration` is `Copy`, so the clone is the same value.
pub assume_specification[ <std::time::Duration as Clone>::clone ](d: &std::time::Duration) -> (r: std::time::Duration)
    ensures
        r == *d,
;

} // verus!
