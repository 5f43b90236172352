//! The admission pipeline: eight checks in order, stopping at the first
//! rejection, recorded in an auditable decision.
use vstd::prelude::*;
use vstd::string::StrSliceExecFns;
use crate::external::push_char;
use crate::error::WcResult;
use crate::policy::decision::{check_views, PolicyCheck, PolicyDecision, Verdict};
use crate::policy::rules::{
    check_artifact_registry, law_egress_needs_allowlist, check_ban_status, check_egress_allowlist, check_quota,
    check_signature, check_submitter_identity, check_workload_class, class_names,
    spec_check_artifact_registry, spec_check_ban_status, spec_check_egress, spec_check_quota,
    spec_check_signature, spec_check_workload_class, spec_submitter_identity, texts,
};
use crate::scheduler::manifest::{spec_validate_manifest, validate_manifest, JobManifest};
use crate::text::{decimal, join2, spec_decimal};
use crate::types::{spec_cid_text, Timestamp};

verus! {

/// Context submitted alongside a manifest.
#[derive(Debug)]
pub struct SubmissionContext {
    /// Submitter's peer ID.
    pub submitter_peer_id: String,
    /// Submitter's Ed25519 public key bytes.
    pub submitter_public_key: Vec<u8>,
    /// Submitter's Humanity Points score.
    pub submitter_hp_score: u32,
    /// Whether the submitter is banned.
    pub submitter_banned: bool,
    /// Submissions so far this epoch.
    pub epoch_submission_count: u32,
    /// Maximum submissions per epoch.
    pub epoch_submission_quota: u32,
}

/// Version of the policy ruleset.
pub const POLICY_VERSION: &'static str = "002-safety-hardening-v1";

/// Step 1: structural validation of the manifest.
pub open spec fn spec_structural_check(m: &JobManifest) -> (Seq<char>, bool, Seq<char>) {
    match spec_validate_manifest(m) {
        None => ("manifest_structural"@, true, "Manifest passes structural validation"@),
        Some((_, msg)) => ("manifest_structural"@, false, "Structural validation failed: "@ + msg),
    }
}

/// The eight checks of the pipeline, in order, as if all were run.
pub open spec fn pipeline_checks(m: &JobManifest, ctx: &SubmissionContext) -> Seq<(Seq<char>, bool, Seq<char>)> {
    seq![
        spec_structural_check(m),
        spec_submitter_identity(ctx.submitter_peer_id@, ctx.submitter_hp_score),
        spec_check_signature(m, ctx.submitter_public_key@),
        spec_check_artifact_registry(spec_cid_text(m.workload_cid@), None),
        spec_check_workload_class(class_names(m.acceptable_use_classes@), Seq::empty()),
        spec_check_quota(ctx.epoch_submission_count, ctx.epoch_submission_quota),
        spec_check_egress(m.resources.network_egress_bytes, texts(m.allowed_endpoints@), None),
        spec_check_ban_status(ctx.submitter_banned),
    ]
}

/// The rejection reason recorded when check `k` is the first to fail.
pub open spec fn rejection_reason(m: &JobManifest, k: int) -> Seq<char> {
    if k == 0 {
        match spec_validate_manifest(m) {
            Some((_, msg)) => "Structural validation failed: "@ + msg,
            None => Seq::empty(),
        }
    } else if k == 1 {
        "Submitter identity check failed"@
    } else if k == 2 {
        "Signature verification failed"@
    } else if k == 3 {
        "Workload artifact not in approved registry"@
    } else if k == 4 {
        "Workload class not approved or quarantined"@
    } else if k == 5 {
        "Submission quota exceeded"@
    } else if k == 6 {
        "Network egress requested without approved endpoint allowlist"@
    } else {
        "Submitter is banned"@
    }
}

/// Check `k` fails and every earlier check passes.
pub open spec fn first_failure(checks: Seq<(Seq<char>, bool, Seq<char>)>, k: int) -> bool {
    &&& 0 <= k < checks.len()
    &&& !checks[k].1
    &&& forall|j: int| 0 <= j < k ==> #[trigger] checks[j].1
}

/// Bytes that a character takes in UTF-8.
pub open spec fn utf8_width(c: char) -> int {
    if (c as u32) < 0x80 {
        1
    } else if (c as u32) < 0x800 {
        2
    } else if (c as u32) < 0x10000 {
        3
    } else {
        4
    }
}

/// The longest leading run of whole characters of `s` that fits in
/// `budget` UTF-8 bytes.
pub open spec fn prefix_within(s: Seq<char>, budget: int) -> Seq<char>
    decreases s.len(),
{
    if s.len() == 0 || utf8_width(s[0]) > budget {
        Seq::empty()
    } else {
        seq![s[0]] + prefix_within(s.drop_first(), budget - utf8_width(s[0]))
    }
}

/// The peer part of a decision ID: the peer ID cut to at most 8 bytes, at
/// the last character boundary.
pub open spec fn decision_peer_prefix(peer: Seq<char>) -> Seq<char> {
    prefix_within(peer, 8)
}

fn char_width(c: char) -> (r: usize)
    ensures
        r == utf8_width(c),
{
    if (c as u32) < 0x80 {
        1
    } else if (c as u32) < 0x800 {
        2
    } else if (c as u32) < 0x10000 {
        3
    } else {
        4
    }
}

/// The peer ID cut to at most 8 bytes at a character boundary.
fn peer_prefix(peer: &str) -> (r: String)
    ensures
        r@ == decision_peer_prefix(peer@),
{
    let n = peer.unicode_len();
    let mut out = String::new();
    let mut used: usize = 0;
    let mut i: usize = 0;
    assert(peer@.subrange(0, n as int) =~= peer@);
    assert(out@ + prefix_within(peer@, 8) =~= prefix_within(peer@, 8));
    while i < n
        invariant
            n == peer@.len(),
            i <= n,
            used <= 8,
            out@ + prefix_within(peer@.subrange(i as int, n as int), 8 - used) == prefix_within(peer@, 8),
        decreases n - i,
    {
        let ghost rest = peer@.subrange(i as int, n as int);
        let c = peer.get_char(i);
        assert(rest[0] == c);
        assert(rest.drop_first() =~= peer@.subrange(i as int + 1, n as int));
        let w = char_width(c);
        if w > 8 - used {
            assert(out@ + Seq::<char>::empty() =~= out@);
            return out;
        }
        let ghost before = out@;
        push_char(&mut out, c);
        assert(out@ + prefix_within(peer@.subrange(i as int + 1, n as int), 8 - (used + w)) =~= before + (seq![c]
            + prefix_within(rest.drop_first(), 8 - used - w)));
        used = used + w;
        i = i + 1;
    }
    assert(out@ + Seq::<char>::empty() =~= out@);
    out
}

fn push_check(checks: &mut Vec<PolicyCheck>, c: PolicyCheck)
    ensures
        check_views(final(checks)@) == check_views(old(checks)@).push(c@),
{
    checks.push(c);
    assert(check_views(checks@) =~= check_views(old(checks)@).push(c@));
}

/// Evaluate a submission through the pipeline: structural validation,
/// submitter identity, signature, artifact registry, workload class, quota,
/// egress allowlist, ban status. The first failing check stops the pipeline
/// and rejects with that step's reason; if all pass the job is accepted.
pub fn evaluate(manifest: &JobManifest, ctx: &SubmissionContext) -> (r: WcResult<PolicyDecision>)
    ensures
        r matches Ok(d) && {
            let checks = pipeline_checks(manifest, ctx);
            &&& d.manifest_cid@ == manifest.workload_cid@
            &&& d.submitter_peer_id@ == ctx.submitter_peer_id@
            &&& d.policy_version@ == POLICY_VERSION@
            &&& (forall|j: int| 0 <= j < 8 ==> #[trigger] checks[j].1) ==> {
                &&& d.verdict == Verdict::Accept
                &&& check_views(d.checks@) == checks
                &&& d.reject_reason is None
            }
            &&& forall|k: int| #[trigger] first_failure(checks, k) ==> {
                &&& d.verdict == Verdict::Reject
                &&& check_views(d.checks@) == checks.take(k + 1)
                &&& d.reject_reason matches Some(reason) && reason@ == rejection_reason(manifest, k)
            }
            &&& exists|t: u64| #[trigger] d.decision_id@ == "pd-"@ + spec_decimal(t as nat) + "-"@
                + decision_peer_prefix(ctx.submitter_peer_id@)
            &&& !d.llm_disagrees
            &&& d.llm_advisory_flag is None
        },
{
    let prefix = peer_prefix(ctx.submitter_peer_id.as_str());
    let now = Timestamp::now();
    let mut decision_id = String::from_str("pd-");
    let stamp = decimal(now.0);
    decision_id.append(stamp.as_str());
    decision_id.append("-");
    decision_id.append(prefix.as_str());
    assert(decision_id@ == "pd-"@ + spec_decimal(now.0 as nat) + "-"@ + prefix@);
    let ghost all = pipeline_checks(manifest, ctx);
    let mut checks: Vec<PolicyCheck> = Vec::new();

    match validate_manifest(manifest) {
        Ok(()) => {
            push_check(&mut checks, PolicyCheck::new(
                "manifest_structural",
                true,
                String::from_str("Manifest passes structural validation"),
            ));
        },
        Err(e) => {
            let detail = join2("Structural validation failed: ", e.message.as_str());
            let reason = join2("Structural validation failed: ", e.message.as_str());
            push_check(&mut checks, PolicyCheck::new("manifest_structural", false, detail));
            assert(check_views(checks@) =~= all.take(1));
            assert(all[0] == spec_structural_check(manifest));
            assert(!all[0].1);
            assert forall|k: int| #[trigger] first_failure(all, k) implies k == 0 by {}
            return Ok(PolicyDecision::reject(
                decision_id,
                manifest.workload_cid.clone(),
                ctx.submitter_peer_id.clone(),
                String::from_str(POLICY_VERSION),
                checks,
                reason,
            ));
        },
    }
    assert(check_views(checks@) =~= all.take(1));

    let identity = check_submitter_identity(ctx);
    let passed = identity.passed;
    push_check(&mut checks, identity);
    assert(check_views(checks@) =~= all.take(2));
    assert(all[1].1 == passed);
    if !passed {
        assert forall|k: int| #[trigger] first_failure(all, k) implies k == 1 by {}
        return Ok(PolicyDecision::reject(
            decision_id,
            manifest.workload_cid.clone(),
            ctx.submitter_peer_id.clone(),
            String::from_str(POLICY_VERSION),
            checks,
            String::from_str("Submitter identity check failed"),
        ));
    }

    let sig = check_signature(manifest, ctx);
    let passed = sig.passed;
    push_check(&mut checks, sig);
    assert(check_views(checks@) =~= all.take(3));
    assert(all[2].1 == passed);
    if !passed {
        assert forall|k: int| #[trigger] first_failure(all, k) implies k == 2 by {}
        return Ok(PolicyDecision::reject(
            decision_id,
            manifest.workload_cid.clone(),
            ctx.submitter_peer_id.clone(),
            String::from_str(POLICY_VERSION),
            checks,
            String::from_str("Signature verification failed"),
        ));
    }

    let artifact = check_artifact_registry(manifest);
    let passed = artifact.passed;
    push_check(&mut checks, artifact);
    assert(check_views(checks@) =~= all.take(4));
    assert(all[3].1 == passed);
    if !passed {
        assert forall|k: int| #[trigger] first_failure(all, k) implies k == 3 by {}
        return Ok(PolicyDecision::reject(
            decision_id,
            manifest.workload_cid.clone(),
            ctx.submitter_peer_id.clone(),
            String::from_str(POLICY_VERSION),
            checks,
            String::from_str("Workload artifact not in approved registry"),
        ));
    }

    let class = check_workload_class(manifest);
    let passed = class.passed;
    push_check(&mut checks, class);
    assert(check_views(checks@) =~= all.take(5));
    assert(all[4].1 == passed);
    if !passed {
        assert forall|k: int| #[trigger] first_failure(all, k) implies k == 4 by {}
        return Ok(PolicyDecision::reject(
            decision_id,
            manifest.workload_cid.clone(),
            ctx.submitter_peer_id.clone(),
            String::from_str(POLICY_VERSION),
            checks,
            String::from_str("Workload class not approved or quarantined"),
        ));
    }

    let quota = check_quota(ctx);
    let passed = quota.passed;
    push_check(&mut checks, quota);
    assert(check_views(checks@) =~= all.take(6));
    assert(all[5].1 == passed);
    if !passed {
        assert forall|k: int| #[trigger] first_failure(all, k) implies k == 5 by {}
        return Ok(PolicyDecision::reject(
            decision_id,
            manifest.workload_cid.clone(),
            ctx.submitter_peer_id.clone(),
            String::from_str(POLICY_VERSION),
            checks,
            String::from_str("Submission quota exceeded"),
        ));
    }

    let egress = check_egress_allowlist(manifest);
    let passed = egress.passed;
    push_check(&mut checks, egress);
    assert(check_views(checks@) =~= all.take(7));
    assert(all[6].1 == passed);
    if !passed {
        assert forall|k: int| #[trigger] first_failure(all, k) implies k == 6 by {}
        return Ok(PolicyDecision::reject(
            decision_id,
            manifest.workload_cid.clone(),
            ctx.submitter_peer_id.clone(),
            String::from_str(POLICY_VERSION),
            checks,
            String::from_str("Network egress requested without approved endpoint allowlist"),
        ));
    }

    let ban = check_ban_status(ctx);
    let passed = ban.passed;
    push_check(&mut checks, ban);
    assert(check_views(checks@) =~= all.take(8));
    assert(all.take(8) =~= all);
    assert(all[7].1 == passed);
    if !passed {
        assert forall|k: int| #[trigger] first_failure(all, k) implies k == 7 by {}
        return Ok(PolicyDecision::reject(
            decision_id,
            manifest.workload_cid.clone(),
            ctx.submitter_peer_id.clone(),
            String::from_str(POLICY_VERSION),
            checks,
            String::from_str("Submitter is banned"),
        ));
    }
    assert forall|k: int| !#[trigger] first_failure(all, k) by {}
    Ok(PolicyDecision::accept(
        decision_id,
        manifest.workload_cid.clone(),
        ctx.submitter_peer_id.clone(),
        String::from_str(POLICY_VERSION),
        checks,
    ))
}

} // verus!

verus! {

proof fn lemma_first_failure_at_most(checks: Seq<(Seq<char>, bool, Seq<char>)>, j: int)
    requires
        0 <= j < checks.len(),
        !checks[j].1,
    ensures
        exists|k: int| 0 <= k <= j && #[trigger] first_failure(checks, k),
    decreases j,
{
    if exists|i: int| 0 <= i < j && !#[trigger] checks[i].1 {
        let i = choose|i: int| 0 <= i < j && !#[trigger] checks[i].1;
        lemma_first_failure_at_most(checks, i);
    } else {
        assert(first_failure(checks, j));
    }
}

/// The pipeline always decides: either every check passes (and `evaluate`
/// accepts) or some check is the first to fail (and `evaluate` rejects with
/// its reason), never both.
pub proof fn law_pipeline_decides(manifest: &JobManifest, ctx: &SubmissionContext)
    ensures
        (forall|j: int| 0 <= j < 8 ==> #[trigger] pipeline_checks(manifest, ctx)[j].1) != (exists|k: int|
            #[trigger] first_failure(pipeline_checks(manifest, ctx), k)),
{
    let checks = pipeline_checks(manifest, ctx);
    if !(forall|j: int| 0 <= j < 8 ==> #[trigger] checks[j].1) {
        let j = choose|j: int| 0 <= j < 8 && !#[trigger] checks[j].1;
        lemma_first_failure_at_most(checks, j);
    } else {
        assert forall|k: int| !#[trigger] first_failure(checks, k) by {}
    }
}

/// Any failing check rejects the submission: some check at or before it is
/// the first to fail.
pub proof fn law_failed_check_rejects(manifest: &JobManifest, ctx: &SubmissionContext, j: int)
    requires
        0 <= j < 8,
        !pipeline_checks(manifest, ctx)[j].1,
    ensures
        exists|k: int| 0 <= k <= j && #[trigger] first_failure(pipeline_checks(manifest, ctx), k),
{
    lemma_first_failure_at_most(pipeline_checks(manifest, ctx), j);
}

/// A banned submitter is never accepted, whatever the manifest.
pub proof fn law_banned_submitter_rejected(manifest: &JobManifest, ctx: &SubmissionContext)
    requires
        ctx.submitter_banned,
    ensures
        exists|k: int| #[trigger] first_failure(pipeline_checks(manifest, ctx), k),
{
    lemma_first_failure_at_most(pipeline_checks(manifest, ctx), 7);
}

/// A submitter whose epoch quota is used up is never accepted.
pub proof fn law_exhausted_quota_rejected(manifest: &JobManifest, ctx: &SubmissionContext)
    requires
        ctx.epoch_submission_count >= ctx.epoch_submission_quota,
    ensures
        exists|k: int| #[trigger] first_failure(pipeline_checks(manifest, ctx), k),
{
    lemma_first_failure_at_most(pipeline_checks(manifest, ctx), 5);
}

/// A manifest without a signature is never accepted.
pub proof fn law_unsigned_manifest_rejected(manifest: &JobManifest, ctx: &SubmissionContext)
    requires
        manifest.submitter_signature@.len() == 0,
    ensures
        exists|k: int| #[trigger] first_failure(pipeline_checks(manifest, ctx), k),
{
    lemma_first_failure_at_most(pipeline_checks(manifest, ctx), 2);
}

/// A job that requests network egress is never accepted while no egress
/// allowlist is configured: some check no later than the egress check fails.
pub proof fn law_egress_without_allowlist_rejected(manifest: &JobManifest, ctx: &SubmissionContext)
    requires
        manifest.resources.network_egress_bytes > 0,
    ensures
        exists|k: int| 0 <= k <= 6 && #[trigger] first_failure(pipeline_checks(manifest, ctx), k),
        !(forall|j: int| 0 <= j < 8 ==> #[trigger] pipeline_checks(manifest, ctx)[j].1),
{
    law_egress_needs_allowlist(
        manifest.resources.network_egress_bytes,
        texts(manifest.allowed_endpoints@),
        None,
    );
    assert(!pipeline_checks(manifest, ctx)[6].1);
    lemma_first_failure_at_most(pipeline_checks(manifest, ctx), 6);
}

} // verus!
