//! Release channels and transparency-log records.
use vstd::prelude::*;
use crate::types::Timestamp;

verus! {

/// Provenance of a build.
#[derive(Debug, Clone)]
pub struct ProvenanceAttestation {
    /// Source repository and revision.
    pub build_source: String,
    /// Pipeline that built it.
    pub build_pipeline: String,
    /// When it was built.
    pub build_timestamp: Timestamp,
    /// Whether the build is reproducible.
    pub reproducible: bool,
}

/// What a binary knows of its own build.
#[derive(Debug, Clone, Copy)]
pub struct BuildMetadata {
    /// Git revision, or `unknown`.
    pub git_commit: &'static str,
    /// Build time, or `0`.
    pub build_timestamp: &'static str,
    /// Compiler version, or `unknown`.
    pub rustc_version: &'static str,
    /// Package version.
    pub version: &'static str,
}

/// The build's metadata. This crate is built without a build script, so no
/// revision, time or compiler version is recorded; the version is the
/// package's.
pub fn build_metadata() -> (r: BuildMetadata)
    ensures
        r.git_commit@ == "unknown"@,
        r.build_timestamp@ == "0"@,
        r.rustc_version@ == "unknown"@,
        r.version@ == "0.1.0"@,
{
    BuildMetadata { git_commit: "unknown", build_timestamp: "0", rustc_version: "unknown", version: "0.1.0" }
}

/// Outcome of recording an entry in the transparency log.
#[derive(Debug, Clone)]
pub enum TransparencyLogResult {
    /// Recorded at a log index.
    Recorded {
        /// Index in the log.
        log_index: String,
        /// When it was recorded.
        timestamp: Timestamp,
    },
    /// The log could not be reached; the reason.
    Unavailable(String),
}

/// Record an artifact signature. No transparency log is connected yet, so
/// the entry is kept locally and the result says so.
pub fn record_artifact_signature(
    artifact_cid: &str,
    signature: &[u8],
    provenance: &ProvenanceAttestation,
) -> (r: TransparencyLogResult)
    ensures
        r matches TransparencyLogResult::Unavailable(m) && m@ == "Sigstore Rekor integration pending — entries logged locally"@,
{
    TransparencyLogResult::Unavailable(String::from_str("Sigstore Rekor integration pending — entries logged locally"))
}

/// Record a policy decision. No transparency log is connected yet, so the
/// decision is kept locally and the result says so.
pub fn record_policy_decision(decision_id: &str, verdict: &str, policy_version: &str) -> (r: TransparencyLogResult)
    ensures
        r matches TransparencyLogResult::Unavailable(m) && m@ == "Sigstore Rekor integration pending — decisions logged locally"@,
{
    TransparencyLogResult::Unavailable(String::from_str("Sigstore Rekor integration pending — decisions logged locally"))
}

/// Release channel of a build.
#[derive(Debug, Clone, Copy, PartialEq, Eq, Structural, Hash)]
pub enum ReleaseChannel {
    /// Development builds.
    Development,
    /// Staging builds.
    Staging,
    /// Production builds.
    Production,
}

/// Promotion moves one step: development to staging, staging to production.
pub open spec fn promotion_allowed(from: ReleaseChannel, to: ReleaseChannel) -> bool {
    (from == ReleaseChannel::Development && to == ReleaseChannel::Staging) || (from == ReleaseChannel::Staging && to
        == ReleaseChannel::Production)
}

impl ReleaseChannel {
    /// Whether a build may be promoted from this channel to `target`.
    pub fn can_promote_to(self, target: ReleaseChannel) -> (r: bool)
        ensures
            r == promotion_allowed(self, target),
    {
        match (self, target) {
            (ReleaseChannel::Development, ReleaseChannel::Staging) => true,
            (ReleaseChannel::Staging, ReleaseChannel::Production) => true,
            _ => false,
        }
    }
}

/// No channel promotes to itself, production promotes nowhere, and no
/// channel can be reached back from the one it promotes to.
pub proof fn law_promotion_is_strict(a: ReleaseChannel, b: ReleaseChannel)
    ensures
        !promotion_allowed(a, a),
        !promotion_allowed(ReleaseChannel::Production, b),
        promotion_allowed(a, b) ==> !promotion_allowed(b, a),
{
}

} // verus!
