//! Auditable records of policy evaluations.
use vstd::prelude::*;
use crate::types::{Cid, Timestamp};

verus! {

/// Verdict of a policy evaluation.
#[derive(Debug, Clone, Copy, PartialEq, Eq, Structural, Hash)]
pub enum Verdict {
    Accept,
    Reject,
}

/// Result of one check of the pipeline.
#[derive(Debug)]
pub struct PolicyCheck {
    /// Name of the check, such as "submitter_identity".
    pub check_name: String,
    /// Whether the check passed.
    pub passed: bool,
    /// Explanation of the result.
    pub detail: String,
}

impl View for PolicyCheck {
    type V = (Seq<char>, bool, Seq<char>);

    open spec fn view(&self) -> (Seq<char>, bool, Seq<char>) {
        (self.check_name@, self.passed, self.detail@)
    }
}

impl PolicyCheck {
    /// A check result with the given name, outcome and detail.
    pub fn new(check_name: &str, passed: bool, detail: String) -> (r: PolicyCheck)
        ensures
            r@ == (check_name@, passed, detail@),
    {
        PolicyCheck { check_name: String::from_str(check_name), passed, detail }
    }
}

/// Views of a list of checks.
pub open spec fn check_views(checks: Seq<PolicyCheck>) -> Seq<(Seq<char>, bool, Seq<char>)> {
    checks.map_values(|c: PolicyCheck| c@)
}

/// Immutable record of one deterministic policy evaluation.
#[derive(Debug)]
pub struct PolicyDecision {
    pub decision_id: String,
    pub manifest_cid: Cid,
    pub submitter_peer_id: String,
    pub policy_version: String,
    pub checks: Vec<PolicyCheck>,
    pub verdict: Verdict,
    /// Reason, when rejected.
    pub reject_reason: Option<String>,
    /// Advisory opinion from the language-model layer, if any.
    pub llm_advisory_flag: Option<String>,
    /// Whether the advisory layer disagreed with the verdict.
    pub llm_disagrees: bool,
    /// Outcome of the artifact registry lookup, if recorded.
    pub artifact_registry_result: Option<String>,
    /// Outcome of egress endpoint validation, if recorded.
    pub egress_validation_result: Option<String>,
    /// When the evaluation happened.
    pub timestamp: Timestamp,
}

impl PolicyDecision {
    /// An accepted decision, timestamped now, with no advisory data.
    pub fn accept(
        decision_id: String,
        manifest_cid: Cid,
        submitter_peer_id: String,
        policy_version: String,
        checks: Vec<PolicyCheck>,
    ) -> (r: PolicyDecision)
        ensures
            r.decision_id == decision_id,
            r.manifest_cid == manifest_cid,
            r.submitter_peer_id == submitter_peer_id,
            r.policy_version == policy_version,
            r.checks == checks,
            r.verdict == Verdict::Accept,
            r.reject_reason is None,
            r.llm_advisory_flag is None,
            !r.llm_disagrees,
            r.artifact_registry_result is None,
            r.egress_validation_result is None,
    {
        PolicyDecision {
            decision_id,
            manifest_cid,
            submitter_peer_id,
            policy_version,
            checks,
            verdict: Verdict::Accept,
            reject_reason: None,
            llm_advisory_flag: None,
            llm_disagrees: false,
            artifact_registry_result: None,
            egress_validation_result: None,
            timestamp: Timestamp::now(),
        }
    }

    /// A rejected decision with its reason, timestamped now, with no
    /// advisory data.
    pub fn reject(
        decision_id: String,
        manifest_cid: Cid,
        submitter_peer_id: String,
        policy_version: String,
        checks: Vec<PolicyCheck>,
        reason: String,
    ) -> (r: PolicyDecision)
        ensures
            r.decision_id == decision_id,
            r.manifest_cid == manifest_cid,
            r.submitter_peer_id == submitter_peer_id,
            r.policy_version == policy_version,
            r.checks == checks,
            r.verdict == Verdict::Reject,
            r.reject_reason == Some(reason),
            r.llm_advisory_flag is None,
            !r.llm_disagrees,
            r.artifact_registry_result is None,
            r.egress_validation_result is None,
    {
        PolicyDecision {
            decision_id,
            manifest_cid,
            submitter_peer_id,
            policy_version,
            checks,
            verdict: Verdict::Reject,
            reject_reason: Some(reason),
            llm_advisory_flag: None,
            llm_disagrees: false,
            artifact_registry_result: None,
            egress_validation_result: None,
            timestamp: Timestamp::now(),
        }
    }
}

} // verus!
