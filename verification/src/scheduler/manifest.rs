//! Job manifests and their structural validation.
use vstd::prelude::*;
use crate::acceptable_use::AcceptableUseClass;
use crate::error::{ErrorCode, WcError};
use crate::scheduler::{ConfidentialityLevel, JobCategory, ResourceEnvelope, VerificationMethod, WorkloadType};
use crate::text::{decimal, join3, spec_decimal};
use crate::types::Cid;

verus! {

/// A job manifest: the immutable, signed specification of work.
#[derive(Debug)]
pub struct JobManifest {
    /// CID of this manifest, once computed.
    pub manifest_cid: Option<Cid>,
    /// Human-readable job name.
    pub name: String,
    /// Workload artifact type.
    pub workload_type: WorkloadType,
    /// CID of the workload artifact.
    pub workload_cid: Cid,
    /// Command to run inside the workload.
    pub command: Vec<String>,
    /// Input data CIDs.
    pub inputs: Vec<Cid>,
    /// Output sink specification.
    pub output_sink: String,
    /// Resource requirements.
    pub resources: ResourceEnvelope,
    /// Accounting category.
    pub category: JobCategory,
    /// Confidentiality level.
    pub confidentiality: ConfidentialityLevel,
    /// Result verification method.
    pub verification: VerificationMethod,
    /// Acceptable-use classes this job falls under.
    pub acceptable_use_classes: Vec<AcceptableUseClass>,
    /// Maximum wall-clock time in milliseconds.
    pub max_wallclock_ms: u64,
    /// Submitter's signature over the canonical manifest bytes.
    pub submitter_signature: Vec<u8>,
    /// Network endpoints the job declares it will contact.
    pub allowed_endpoints: Vec<String>,
}

/// A DAG of task templates.
#[derive(Debug)]
pub struct WorkflowTemplate {
    pub tasks: Vec<TaskTemplate>,
    /// Dependency edges as (from, to) task indices.
    pub edges: Vec<(usize, usize)>,
}

/// A single task template within a workflow.
#[derive(Debug)]
pub struct TaskTemplate {
    pub name: String,
    pub workload_cid: Cid,
    pub command: Vec<String>,
    pub inputs: Vec<Cid>,
    pub resources: ResourceEnvelope,
}

/// Shortest allowed wall-clock budget: one second.
pub const MIN_WALLCLOCK_MS: u64 = 1000;

/// Longest allowed wall-clock budget: seven days.
pub const MAX_WALLCLOCK_MS: u64 = 604800000;

/// Every byte is zero.
pub open spec fn all_zero(bytes: Seq<u8>) -> bool {
    forall|i: int| 0 <= i < bytes.len() ==> bytes[i] == 0
}

/// The first structural defect of a manifest, as (code, message), or `None`.
pub open spec fn manifest_defect(
    command_len: nat,
    wallclock: u64,
    signature: Seq<u8>,
    confidentiality: ConfidentialityLevel,
    verification: VerificationMethod,
) -> Option<(ErrorCode, Seq<char>)> {
    if command_len == 0 {
        Some((ErrorCode::InvalidManifest, "Command is empty"@))
    } else if wallclock < MIN_WALLCLOCK_MS || wallclock > MAX_WALLCLOCK_MS {
        Some((
            ErrorCode::InvalidManifest,
            "Wallclock "@ + spec_decimal(wallclock as nat) + " ms out of range (1s to 7 days)"@,
        ))
    } else if signature.len() == 0 {
        Some((ErrorCode::InvalidManifest, "Submitter signature is empty"@))
    } else if all_zero(signature) {
        Some((ErrorCode::InvalidManifest, "Submitter signature is all zeros — rejected per FR-S012"@))
    } else if confidentiality == ConfidentialityLevel::ConfidentialHigh && verification
        != VerificationMethod::TeeAttested {
        Some((ErrorCode::TrustTierMismatch, "ConfidentialHigh jobs must use TeeAttested verification"@))
    } else {
        None
    }
}

/// The structural defect of a manifest, if any.
pub open spec fn spec_validate_manifest(m: &JobManifest) -> Option<(ErrorCode, Seq<char>)> {
    manifest_defect(
        m.command@.len(),
        m.max_wallclock_ms,
        m.submitter_signature@,
        m.confidentiality,
        m.verification,
    )
}

/// Whether every byte is zero.
pub fn is_all_zero(bytes: &[u8]) -> (r: bool)
    ensures
        r == all_zero(bytes@),
{
    let mut i: usize = 0;
    while i < bytes.len()
        invariant
            i <= bytes@.len(),
            forall|j: int| 0 <= j < i ==> bytes@[j] == 0,
        decreases bytes@.len() - i,
    {
        if bytes[i] != 0 {
            return false;
        }
        i = i + 1;
    }
    true
}

/// Structural validation of a manifest: a command, a wall-clock budget
/// between one second and seven days, a non-empty signature that is not all
/// zeros, and TEE verification for ConfidentialHigh jobs, checked in that
/// order.
pub fn validate_manifest(manifest: &JobManifest) -> (r: Result<(), WcError>)
    ensures
        r is Ok <==> spec_validate_manifest(manifest) is None,
        r matches Err(e) ==> spec_validate_manifest(manifest) == Some((e.kind, e.message@)),
{
    let cid_text = manifest.workload_cid.to_text();
    if cid_text.as_str().unicode_len() == 0 {
        return Err(WcError::with_text(ErrorCode::InvalidManifest, "Workload CID is empty"));
    }
    if manifest.command.len() == 0 {
        return Err(WcError::with_text(ErrorCode::InvalidManifest, "Command is empty"));
    }
    if manifest.max_wallclock_ms < MIN_WALLCLOCK_MS || manifest.max_wallclock_ms > MAX_WALLCLOCK_MS {
        let msg = join3("Wallclock ", decimal(manifest.max_wallclock_ms).as_str(), " ms out of range (1s to 7 days)");
        return Err(WcError::new(ErrorCode::InvalidManifest, msg));
    }
    if manifest.submitter_signature.len() == 0 {
        return Err(WcError::with_text(ErrorCode::InvalidManifest, "Submitter signature is empty"));
    }
    if is_all_zero(manifest.submitter_signature.as_slice()) {
        return Err(WcError::with_text(
            ErrorCode::InvalidManifest,
            "Submitter signature is all zeros — rejected per FR-S012",
        ));
    }
    if manifest.confidentiality == ConfidentialityLevel::ConfidentialHigh
        && !matches!(manifest.verification, VerificationMethod::TeeAttested) {
        return Err(WcError::with_text(
            ErrorCode::TrustTierMismatch,
            "ConfidentialHigh jobs must use TeeAttested verification",
        ));
    }
    Ok(())
}

} // verus!
