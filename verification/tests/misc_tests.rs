use worldcompute::error::{ErrorCode, WcError};
use worldcompute::preemption::triggers::hid_idle_ms;
use worldcompute::preemption::{summarize_freeze, summarize_resume, PreemptionResult, FREEZE_BUDGET_US};
use worldcompute::registry::transparency::{
    build_metadata, record_artifact_signature, record_policy_decision, ProvenanceAttestation, ReleaseChannel,
    TransparencyLogResult,
};
use worldcompute::registry::{ApprovedArtifact, ArtifactRegistry};
use worldcompute::sandbox::SandboxCapability;
use worldcompute::telemetry::redaction::redact;
use worldcompute::types::{
    compute_cid, DenoisingStep, ExpertId, ReservationStatus, Timestamp, TransportKind, TrustScore,
};

#[test]
fn reservation_status_variants_distinct() {
    let all = [
        ReservationStatus::Requesting,
        ReservationStatus::Active,
        ReservationStatus::Renewing,
        ReservationStatus::Lost,
        ReservationStatus::Failed,
    ];
    for i in 0..all.len() {
        for j in (i + 1)..all.len() {
            assert_ne!(all[i], all[j]);
        }
    }
}

#[test]
fn transport_kind_variants_distinct() {
    assert_ne!(TransportKind::Tcp, TransportKind::Quic);
    assert_ne!(TransportKind::Tcp, TransportKind::Wss);
    assert_ne!(TransportKind::Quic, TransportKind::Wss);
    assert_ne!(TransportKind::Wss, TransportKind::Relay);
}

#[test]
fn expert_id_round_trip() {
    let a = ExpertId::new();
    let s = a.as_str().to_owned();
    let b = ExpertId::from_str(&s);
    assert_eq!(a, b);
}

#[test]
fn expert_ids_are_fresh() {
    let a = ExpertId::new();
    let b = ExpertId::new();
    assert_eq!(a.as_str().len(), 36);
    assert_ne!(a, b);
}

#[test]
fn denoising_step_display() {
    assert_eq!(DenoisingStep(42).to_text(), "step-42");
    assert_eq!(DenoisingStep(0).to_text(), "step-0");
}

#[test]
fn build_metadata_available() {
    let meta = build_metadata();
    assert!(!meta.version.is_empty());
    assert_eq!(meta.version, "0.1.0");
}

#[test]
fn dev_to_staging_allowed() {
    assert!(ReleaseChannel::Development.can_promote_to(ReleaseChannel::Staging));
}

#[test]
fn staging_to_production_allowed() {
    assert!(ReleaseChannel::Staging.can_promote_to(ReleaseChannel::Production));
}

#[test]
fn dev_to_production_blocked() {
    assert!(!ReleaseChannel::Development.can_promote_to(ReleaseChannel::Production));
}

#[test]
fn production_to_anything_blocked() {
    assert!(!ReleaseChannel::Production.can_promote_to(ReleaseChannel::Development));
    assert!(!ReleaseChannel::Production.can_promote_to(ReleaseChannel::Staging));
}

#[test]
fn same_channel_promotion_blocked() {
    assert!(!ReleaseChannel::Development.can_promote_to(ReleaseChannel::Development));
}

#[test]
fn transparency_log_is_reported_unavailable() {
    let prov = ProvenanceAttestation {
        build_source: "github.com/ContextLab/world-compute@abc123".into(),
        build_pipeline: "github-actions-12345".into(),
        build_timestamp: Timestamp::now(),
        reproducible: true,
    };
    match record_artifact_signature("bafy", &[1, 2, 3], &prov) {
        TransparencyLogResult::Unavailable(m) => assert!(m.contains("entries logged locally")),
        _ => panic!("expected Unavailable"),
    }
    match record_policy_decision("d1", "Accept", "v1") {
        TransparencyLogResult::Unavailable(m) => assert!(m.contains("decisions logged locally")),
        _ => panic!("expected Unavailable"),
    }
}

fn test_artifact() -> ApprovedArtifact {
    let cid = compute_cid(b"test workload artifact");
    ApprovedArtifact {
        artifact_cid: cid,
        workload_class: "scientific-batch".into(),
        signer_peer_id: "signer-peer-id".into(),
        approved_by: "approver-peer-id".into(),
        approved_at: Timestamp::now(),
        revoked: false,
        revoked_at: None,
        transparency_log_entry: None,
    }
}

#[test]
fn register_and_lookup() {
    let mut registry = ArtifactRegistry::new();
    let artifact = test_artifact();
    let cid = artifact.artifact_cid.clone();
    registry.register(artifact).unwrap();
    assert!(registry.lookup(&cid).is_some());
}

#[test]
fn revoked_artifact_not_found() {
    let mut registry = ArtifactRegistry::new();
    let artifact = test_artifact();
    let cid = artifact.artifact_cid.clone();
    registry.register(artifact).unwrap();
    registry.revoke(&cid).unwrap();
    assert!(registry.lookup(&cid).is_none());
}

#[test]
fn same_signer_and_approver_rejected() {
    let mut artifact = test_artifact();
    artifact.approved_by = artifact.signer_peer_id.clone();
    let mut registry = ArtifactRegistry::new();
    assert!(registry.register(artifact).is_err());
}

#[test]
fn revoking_unknown_artifact_fails() {
    let mut registry = ArtifactRegistry::new();
    let cid = compute_cid(b"never registered");
    assert_eq!(registry.revoke(&cid), Err("Artifact not found in registry".to_string()));
    assert!(registry.lookup(&cid).is_none());
}

#[test]
fn redacts_mac_address() {
    let input = "interface aa:bb:cc:dd:ee:ff is up";
    assert_eq!(redact(input), "interface [REDACTED_MAC] is up");
}

#[test]
fn redacts_private_ipv4() {
    assert!(redact("connecting to 192.168.1.42").contains("[REDACTED_IP]"));
    assert!(redact("host 10.0.0.1 is reachable").contains("[REDACTED_IP]"));
}

#[test]
fn redacts_username_paths() {
    assert!(redact("/Users/jmanning/data").contains("[REDACTED_USER]"));
    assert!(redact("/home/alice/.config").contains("[REDACTED_USER]"));
}

#[test]
fn leaves_public_ips_alone() {
    let input = "connecting to 8.8.8.8";
    assert_eq!(redact(input), input);
}

#[test]
fn redacts_home_path_keeps_prefix() {
    assert_eq!(redact("/home/alice/.config"), "/home/[REDACTED_USER]/.config");
}

#[test]
fn freeze_summary_counts_and_lists_failures() {
    let outcomes = vec![
        (SandboxCapability::Firecracker, Ok(())),
        (SandboxCapability::WasmOnly, Err(WcError::with_text(ErrorCode::Internal, "stuck"))),
        (SandboxCapability::AppleVF, Ok(())),
    ];
    let r: PreemptionResult = summarize_freeze(&outcomes, 4_000);
    assert_eq!(r.frozen_count, 2);
    assert_eq!(r.freeze_latency_us, 4_000);
    assert_eq!(r.errors, vec!["WasmOnly: stuck".to_string()]);
    assert!(r.within_budget());
    let slow = summarize_freeze(&outcomes, FREEZE_BUDGET_US + 1);
    assert!(!slow.within_budget());
}

#[test]
fn empty_freeze_is_instant() {
    let r = summarize_freeze(&Vec::new(), 0);
    assert_eq!(r.frozen_count, 0);
    assert!(r.errors.is_empty());
    assert!(r.within_budget());
}

#[test]
fn resume_summary_counts() {
    let outcomes = vec![(SandboxCapability::HyperV, Err(WcError::with_text(ErrorCode::Internal, "gone")))];
    let r = summarize_resume(&outcomes, 7);
    assert_eq!(r.resumed_count, 0);
    assert_eq!(r.resume_latency_us, 7);
    assert_eq!(r.errors, vec!["HyperV: gone".to_string()]);
}

#[test]
fn hid_idle_time_is_read_from_ioreg() {
    let out = "+-o IOHIDSystem  <class IOHIDSystem>\n    | |   \"HIDIdleTime\" = 2500000000\n    | |   \"Other\" = 7\n";
    assert_eq!(hid_idle_ms(out), Some(2500));
}

#[test]
fn hid_idle_time_absent_or_unreadable() {
    assert_eq!(hid_idle_ms(""), None);
    assert_eq!(hid_idle_ms("\"Other\" = 12\n"), None);
    assert_eq!(hid_idle_ms("\"HIDIdleTime\" = \n"), None);
    assert_eq!(hid_idle_ms("\"HIDIdleTime\" = 99999999999999999999999\n"), None);
}

#[test]
fn hid_idle_time_takes_first_readable_line() {
    let out = "\"HIDIdleTime\" = none\r\n\"HIDIdleTime\" = 1999999\r\n\"HIDIdleTime\" = 5000000\r\n";
    assert_eq!(hid_idle_ms(out), Some(1));
}

#[test]
fn trust_score_text_has_four_places() {
    assert_eq!(TrustScore(5_000).to_text(), "0.5000");
    assert_eq!(TrustScore(10_000).to_text(), "1.0000");
    assert_eq!(TrustScore(42).to_text(), "0.0042");
    assert_eq!(TrustScore::max().to_text(), "1.0000");
}

#[test]
fn same_signer_and_approver_error_text() {
    let mut artifact = test_artifact();
    artifact.approved_by = artifact.signer_peer_id.clone();
    let mut registry = ArtifactRegistry::new();
    assert_eq!(registry.register(artifact).unwrap_err(), "Signer and approver must be different identities (FR-S032)");
}

#[test]
fn expert_id_is_lowercase_v4_uuid_text() {
    for _ in 0..20 {
        let id = ExpertId::new();
        let chars: Vec<char> = id.as_str().chars().collect();
        assert_eq!(chars.len(), 36);
        for (i, c) in chars.iter().enumerate() {
            if i == 8 || i == 13 || i == 18 || i == 23 {
                assert_eq!(*c, '-');
            } else {
                assert!(c.is_ascii_digit() || ('a'..='f').contains(c));
            }
        }
        assert_eq!(chars[14], '4');
        assert!(['8', '9', 'a', 'b'].contains(&chars[19]));
    }
}

#[test]
fn whitespace_matches_char_is_whitespace() {
    for u in 0u32..0x3100 {
        if let Some(c) = char::from_u32(u) {
            assert_eq!(worldcompute::text::is_whitespace(c), c.is_whitespace(), "U+{u:04X}");
        }
    }
    assert!(!worldcompute::text::is_whitespace('\u{200B}'));
    assert!(worldcompute::text::is_whitespace('\u{3000}'));
}
