//! Redaction of MAC addresses, private IPv4 addresses and user names in
//! home-directory paths from telemetry text.
use vstd::prelude::*;

verus! {

/// What `regex_lite::Regex::replace_all` makes of a text for a pattern and
/// replacement (the text itself when the pattern does not compile).
pub uninterp spec fn regex_replaced_of(pattern: Seq<char>, text: Seq<char>, replacement: Seq<char>) -> Seq<char>;

/// `regex_lite::Regex::new(pattern)` then `replace_all(text, replacement)`,
/// named `regex_replaced_of` of the three texts; a pattern that does not
/// compile (a `regex_lite::Error`) leaves the text as it is.
#[verifier::external_body]
fn regex_replace_all(pattern: &str, text: &str, replacement: &str) -> (r: String)
    ensures
        r@ == regex_replaced_of(pattern@, text@, replacement@),
{
    match regex_lite::Regex::new(pattern) {
        Ok(re) => re.replace_all(text, replacement).to_string(),
        Err(_) => text.to_string(),
    }
}

/// MAC addresses: six colon-separated hex pairs.
pub open spec fn mac_pattern() -> Seq<char> {
    "[0-9a-fA-F]{2}(:[0-9a-fA-F]{2}){5}"@
}

/// Private IPv4 addresses: 10/8, 192.168/16, 172.16/12.
pub open spec fn private_ipv4_pattern() -> Seq<char> {
    "(10\\.\\d{1,3}\\.\\d{1,3}\\.\\d{1,3}|192\\.168\\.\\d{1,3}\\.\\d{1,3}|172\\.(1[6-9]|2\\d|3[01])\\.\\d{1,3}\\.\\d{1,3})"@
}

/// User names in `/home/<user>` and `/Users/<user>` paths.
pub open spec fn user_path_pattern() -> Seq<char> {
    "/(home|Users)/[a-zA-Z0-9_.-]+"@
}

/// The redacted text: MACs, then private IPv4 addresses, then user names in
/// home paths are replaced by markers.
pub open spec fn spec_redact(input: Seq<char>) -> Seq<char> {
    let a = regex_replaced_of(mac_pattern(), input, "[REDACTED_MAC]"@);
    let b = regex_replaced_of(private_ipv4_pattern(), a, "[REDACTED_IP]"@);
    regex_replaced_of(user_path_pattern(), b, "/$1/[REDACTED_USER]"@)
}

/// Redact identifying data from a telemetry text.
pub fn redact(input: &str) -> (r: String)
    ensures
        r@ == spec_redact(input@),
{
    let a = regex_replace_all("[0-9a-fA-F]{2}(:[0-9a-fA-F]{2}){5}", input, "[REDACTED_MAC]");
    let b = regex_replace_all(
        "(10\\.\\d{1,3}\\.\\d{1,3}\\.\\d{1,3}|192\\.168\\.\\d{1,3}\\.\\d{1,3}|172\\.(1[6-9]|2\\d|3[01])\\.\\d{1,3}\\.\\d{1,3})",
        a.as_str(),
        "[REDACTED_IP]",
    );
    regex_replace_all("/(home|Users)/[a-zA-Z0-9_.-]+", b.as_str(), "/$1/[REDACTED_USER]")
}

} // verus!
