use ed25519_dalek::{Signer, SigningKey};
use worldcompute::acceptable_use::AcceptableUseClass;
use worldcompute::policy::decision::Verdict;
use worldcompute::policy::engine::{evaluate, SubmissionContext, POLICY_VERSION};
use worldcompute::policy::rules::{
    check_ban_status, check_data_classification, check_egress_allowlist, check_egress_allowlist_with,
    check_quota, check_signature, check_submitter_identity, check_workload_class_with_quarantine,
    manifest_signing_bytes, EgressAllowlist,
};
use worldcompute::scheduler::manifest::JobManifest;
use worldcompute::scheduler::{
    ConfidentialityLevel, JobCategory, ResourceEnvelope, VerificationMethod, WorkloadType,
};
use worldcompute::types::compute_cid;

fn base_manifest(workload: &[u8], name: &str) -> JobManifest {
    JobManifest {
        manifest_cid: None,
        name: name.into(),
        workload_type: WorkloadType::WasmModule,
        workload_cid: compute_cid(workload),
        command: vec!["run".into()],
        inputs: Vec::new(),
        output_sink: "cid-store".into(),
        resources: ResourceEnvelope {
            cpu_millicores: 1000,
            ram_bytes: 512 * 1024 * 1024,
            gpu_class: None,
            gpu_vram_bytes: 0,
            scratch_bytes: 1024 * 1024 * 1024,
            network_egress_bytes: 0,
            walltime_budget_ms: 3_600_000,
        },
        category: JobCategory::PublicGood,
        confidentiality: ConfidentialityLevel::Public,
        verification: VerificationMethod::ReplicatedQuorum,
        acceptable_use_classes: vec![AcceptableUseClass::Scientific],
        max_wallclock_ms: 3_600_000,
        submitter_signature: vec![1u8; 64],
        allowed_endpoints: Vec::new(),
    }
}

fn signed_test_manifest() -> (JobManifest, SubmissionContext) {
    let mut manifest = base_manifest(b"test workload", "test");
    manifest.submitter_signature = vec![0u8; 64];
    let signing_key = SigningKey::from_bytes(&[42u8; 32]);
    let message = manifest_signing_bytes(&manifest);
    let signature = signing_key.sign(&message);
    manifest.submitter_signature = signature.to_bytes().to_vec();
    let ctx = SubmissionContext {
        submitter_peer_id: "12D3KooWTest".into(),
        submitter_public_key: signing_key.verifying_key().to_bytes().to_vec(),
        submitter_hp_score: 10,
        submitter_banned: false,
        epoch_submission_count: 0,
        epoch_submission_quota: 100,
    };
    (manifest, ctx)
}

fn test_manifest() -> JobManifest {
    signed_test_manifest().0
}

fn test_ctx() -> SubmissionContext {
    signed_test_manifest().1
}

#[test]
fn all_zero_signature_fails() {
    let mut m = test_manifest();
    m.submitter_signature = vec![0u8; 64];
    let check = check_signature(&m, &test_ctx());
    assert!(!check.passed);
    assert!(check.detail.contains("all zeros"));
}

#[test]
fn empty_signature_fails() {
    let mut m = test_manifest();
    m.submitter_signature = Vec::new();
    let check = check_signature(&m, &test_ctx());
    assert!(!check.passed);
}

#[test]
fn valid_signature_passes() {
    let m = test_manifest();
    let check = check_signature(&m, &test_ctx());
    assert!(check.passed);
}

#[test]
fn tampered_manifest_signature_fails() {
    let mut m = test_manifest();
    m.name = "tampered".into();
    let check = check_signature(&m, &test_ctx());
    assert!(!check.passed);
    assert_eq!(check.detail, "Ed25519 signature verification failed");
}

#[test]
fn short_public_key_fails() {
    let m = test_manifest();
    let mut ctx = test_ctx();
    ctx.submitter_public_key = vec![1u8; 16];
    let check = check_signature(&m, &ctx);
    assert!(!check.passed);
    assert_eq!(check.detail, "Submitter public key has invalid length 16 (expected 32 bytes)");
}

#[test]
fn egress_without_allowlist_rejected() {
    let mut m = test_manifest();
    m.resources.network_egress_bytes = 1024;
    let check = check_egress_allowlist(&m);
    assert!(!check.passed);
}

#[test]
fn egress_with_allowlist_checks_each_endpoint() {
    let mut m = test_manifest();
    m.resources.network_egress_bytes = 1024;
    m.allowed_endpoints = vec!["a.example".into(), "b.example".into()];
    let al = EgressAllowlist { approved_endpoints: vec!["a.example".into()] };
    let check = check_egress_allowlist_with(&m, Some(&al));
    assert!(!check.passed);
    assert_eq!(check.detail, "Unapproved endpoints: b.example");
    let al = EgressAllowlist { approved_endpoints: vec!["a.example".into(), "b.example".into()] };
    let check = check_egress_allowlist_with(&m, Some(&al));
    assert!(check.passed);
    assert_eq!(check.detail, "All 2 declared endpoints approved");
}

#[test]
fn no_egress_passes() {
    let m = test_manifest();
    let check = check_egress_allowlist(&m);
    assert!(check.passed);
}

#[test]
fn banned_submitter_fails() {
    let mut ctx = test_ctx();
    ctx.submitter_banned = true;
    let check = check_ban_status(&ctx);
    assert!(!check.passed);
}

#[test]
fn low_hp_fails() {
    let mut ctx = test_ctx();
    ctx.submitter_hp_score = 0;
    let check = check_submitter_identity(&ctx);
    assert!(!check.passed);
    assert_eq!(check.detail, "Submitter HP score 0 below minimum threshold 1");
}

#[test]
fn quota_boundary() {
    let mut ctx = test_ctx();
    ctx.epoch_submission_count = 99;
    ctx.epoch_submission_quota = 100;
    let check = check_quota(&ctx);
    assert!(check.passed);
    assert_eq!(check.detail, "Quota OK: 99/100 submissions this epoch");
    ctx.epoch_submission_count = 100;
    let check = check_quota(&ctx);
    assert!(!check.passed);
    assert_eq!(check.detail, "Submitter has 100 submissions this epoch, quota is 100");
}

#[test]
fn quarantined_class_rejected() {
    let m = test_manifest();
    let quarantined = vec!["Scientific".to_string()];
    let check = check_workload_class_with_quarantine(&m, &quarantined);
    assert!(!check.passed);
    assert!(check.detail.contains("quarantined"));
}

#[test]
fn non_quarantined_class_passes() {
    let m = test_manifest();
    let quarantined = vec!["MlTraining".to_string()];
    let check = check_workload_class_with_quarantine(&m, &quarantined);
    assert!(check.passed);
}

#[test]
fn data_classification_public_passes() {
    let m = test_manifest();
    let check = check_data_classification(&m);
    assert!(check.passed);
}

fn engine_manifest() -> JobManifest {
    base_manifest(b"test workload image", "test-job")
}

fn engine_context() -> SubmissionContext {
    SubmissionContext {
        submitter_peer_id: "12D3KooWTestPeerId".into(),
        submitter_public_key: vec![0u8; 32],
        submitter_hp_score: 10,
        submitter_banned: false,
        epoch_submission_count: 0,
        epoch_submission_quota: 100,
    }
}

#[test]
fn valid_submission_accepted() {
    let (manifest, ctx) = signed_test_manifest();
    let decision = evaluate(&manifest, &ctx).unwrap();
    assert_eq!(decision.verdict, Verdict::Accept);
    assert!(decision.reject_reason.is_none());
    assert_eq!(decision.checks.len(), 8);
    assert_eq!(decision.policy_version, POLICY_VERSION);
    assert!(decision.decision_id.starts_with("pd-"));
    assert!(decision.decision_id.ends_with("-12D3KooW"));
}

#[test]
fn unsigned_submission_rejected_at_signature_step() {
    let manifest = engine_manifest();
    let ctx = engine_context();
    let decision = evaluate(&manifest, &ctx).unwrap();
    assert_eq!(decision.verdict, Verdict::Reject);
    assert_eq!(decision.checks.len(), 3);
    assert_eq!(decision.reject_reason.unwrap(), "Signature verification failed");
}

#[test]
fn banned_submitter_rejected() {
    let (manifest, mut ctx) = signed_test_manifest();
    ctx.submitter_banned = true;
    let decision = evaluate(&manifest, &ctx).unwrap();
    assert_eq!(decision.verdict, Verdict::Reject);
    assert!(decision.reject_reason.unwrap().contains("banned"));
}

#[test]
fn quota_exceeded_rejected() {
    let (manifest, mut ctx) = signed_test_manifest();
    ctx.epoch_submission_count = 101;
    ctx.epoch_submission_quota = 100;
    let decision = evaluate(&manifest, &ctx).unwrap();
    assert_eq!(decision.verdict, Verdict::Reject);
    assert!(decision.reject_reason.unwrap().contains("quota"));
}

#[test]
fn engine_zero_signature_rejected() {
    let mut manifest = engine_manifest();
    manifest.submitter_signature = vec![0u8; 64];
    let ctx = engine_context();
    let decision = evaluate(&manifest, &ctx).unwrap();
    assert_eq!(decision.verdict, Verdict::Reject);
    let reason = decision.reject_reason.unwrap();
    assert!(reason.contains("signature") || reason.contains("Signature"), "Expected signature-related rejection, got: {reason}");
}

#[test]
fn short_peer_id_used_whole_in_decision_id() {
    let (manifest, mut ctx) = signed_test_manifest();
    ctx.submitter_peer_id = "abc".into();
    let decision = evaluate(&manifest, &ctx).unwrap();
    assert!(decision.decision_id.ends_with("-abc"));
}

#[test]
fn multibyte_peer_id_is_cut_at_a_character_boundary() {
    let mut ctx = engine_context();
    ctx.submitter_peer_id = "1234567é-rest".into();
    let decision = evaluate(&engine_manifest(), &ctx).unwrap();
    assert!(decision.decision_id.ends_with("-1234567"), "{}", decision.decision_id);
    ctx.submitter_peer_id = "12345678é".into();
    let decision = evaluate(&engine_manifest(), &ctx).unwrap();
    assert!(decision.decision_id.ends_with("-12345678"), "{}", decision.decision_id);
}

#[test]
fn all_zero_signature_detail_text() {
    let mut m = test_manifest();
    m.submitter_signature = vec![0u8; 64];
    let check = check_signature(&m, &test_ctx());
    assert_eq!(check.detail, "Submitter signature is all zeros — rejected per FR-S012");
}

#[test]
fn quarantined_class_detail_text() {
    let m = test_manifest();
    let quarantined = vec!["Scientific".to_string()];
    let check = check_workload_class_with_quarantine(&m, &quarantined);
    assert_eq!(check.detail, "Workload class Scientific is quarantined — rejected per FR-S062");
}
