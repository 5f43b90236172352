use std::collections::HashMap;
use base64::Engine;
use sha2::{Digest, Sha256};
use worldcompute::error::ErrorCode;
use worldcompute::types::{compute_cid, AttestationQuote, AttestationType, Cid, NcuAmount, SignatureBundle};
use worldcompute::verification::attestation::{
    build_test_sev_snp_report, build_test_tdx_quote, build_test_tpm2_quote, generate_soft_attestation,
    get_chain_validator, verify_attestation, verify_attestation_with_registry, CertificateChainValidator,
    ChainValidator, KnownGoodMeasurement, MeasurementRegistry,
};
use worldcompute::verification::audit::audit_decision;
use worldcompute::verification::quorum::{evaluate_quorum, ReplicaResult};
use worldcompute::verification::receipt::{verify_receipt, WorkUnitReceipt};
use worldcompute::verification::trust_score::{classify_trust_tier, TrustTier};

fn measurement(version: &str, pcrs: HashMap<u32, String>, snp: String, tdx: String) -> KnownGoodMeasurement {
    KnownGoodMeasurement {
        agent_version: version.into(),
        binary_hash: String::new(),
        expected_pcr_values: pcrs,
        expected_snp_measurement: snp,
        expected_tdx_mrtd: tdx,
        active: true,
    }
}

#[test]
fn soft_attestation_round_trip() {
    let quote = generate_soft_attestation("0.1.0", "linux-x86_64");
    assert_eq!(quote.quote_type, AttestationType::Soft);
    assert_eq!(quote.quote_bytes, b"soft:0.1.0:linux-x86_64".to_vec());
    let valid = verify_attestation(&quote).unwrap();
    assert!(valid);
}

#[test]
fn empty_quote_is_invalid() {
    let quote = AttestationQuote { quote_type: AttestationType::Tpm2, quote_bytes: Vec::new(), platform_info: String::new() };
    let valid = verify_attestation(&quote).unwrap();
    assert!(!valid);
}

#[test]
fn forged_tpm2_quote_wrong_pcr_rejected() {
    let mut registry = MeasurementRegistry::new();
    let expected_pcr = [0xAA; 32];
    let mut m = measurement("0.1.0", HashMap::from([(0, hex::encode(expected_pcr))]), String::new(), String::new());
    m.binary_hash = hex::encode([0; 32]);
    registry.register(m).unwrap();
    let wrong_pcr = [0xBB; 32];
    let quote_bytes = build_test_tpm2_quote("0.1.0", &[(0, wrong_pcr)]);
    let quote = AttestationQuote { quote_type: AttestationType::Tpm2, quote_bytes, platform_info: "test".into() };
    let valid = verify_attestation_with_registry(&quote, &registry).unwrap();
    assert!(!valid, "Forged TPM2 quote with wrong PCR should be rejected");
}

#[test]
fn valid_tpm2_quote_accepted() {
    let mut registry = MeasurementRegistry::new();
    let expected_pcr = [0xAA; 32];
    let mut m = measurement("0.1.0", HashMap::from([(0, hex::encode(expected_pcr))]), String::new(), String::new());
    m.binary_hash = hex::encode([0; 32]);
    registry.register(m).unwrap();
    let quote_bytes = build_test_tpm2_quote("0.1.0", &[(0, expected_pcr)]);
    let quote = AttestationQuote { quote_type: AttestationType::Tpm2, quote_bytes, platform_info: "test".into() };
    let valid = verify_attestation_with_registry(&quote, &registry).unwrap();
    assert!(valid, "Valid TPM2 quote with correct PCR should be accepted");
}

#[test]
fn empty_tpm2_quote_invalid() {
    let registry = MeasurementRegistry::new();
    let quote = AttestationQuote { quote_type: AttestationType::Tpm2, quote_bytes: Vec::new(), platform_info: "test".into() };
    let valid = verify_attestation_with_registry(&quote, &registry).unwrap();
    assert!(!valid, "Empty quote should be invalid");
}

#[test]
fn all_zero_signature_rejected() {
    let mut quote_bytes = Vec::new();
    quote_bytes.extend_from_slice(b"TPM2");
    quote_bytes.push(5);
    quote_bytes.extend_from_slice(b"0.1.0");
    quote_bytes.push(0);
    quote_bytes.extend_from_slice(&[0u8; 64]);
    let quote = AttestationQuote { quote_type: AttestationType::Tpm2, quote_bytes, platform_info: "test".into() };
    let valid = verify_attestation(&quote).unwrap();
    assert!(!valid, "All-zero signature must be rejected");
}

#[test]
fn forged_sev_snp_measurement_rejected() {
    let mut registry = MeasurementRegistry::new();
    let expected_measurement = [0xCC; 32];
    registry.register(measurement("0.1.0", HashMap::new(), hex::encode(expected_measurement), String::new())).unwrap();
    let wrong_measurement = [0xDD; 32];
    let quote_bytes = build_test_sev_snp_report("0.1.0", &wrong_measurement);
    let quote = AttestationQuote { quote_type: AttestationType::SevSnp, quote_bytes, platform_info: "test".into() };
    let valid = verify_attestation_with_registry(&quote, &registry).unwrap();
    assert!(!valid, "Forged SEV-SNP measurement should be rejected");
}

#[test]
fn valid_sev_snp_report_accepted() {
    let mut registry = MeasurementRegistry::new();
    let expected_measurement = [0xCC; 32];
    registry.register(measurement("0.1.0", HashMap::new(), hex::encode(expected_measurement), String::new())).unwrap();
    let quote_bytes = build_test_sev_snp_report("0.1.0", &expected_measurement);
    let quote = AttestationQuote { quote_type: AttestationType::SevSnp, quote_bytes, platform_info: "test".into() };
    let valid = verify_attestation_with_registry(&quote, &registry).unwrap();
    assert!(valid, "Valid SEV-SNP report should be accepted");
}

#[test]
fn forged_tdx_mrtd_rejected() {
    let mut registry = MeasurementRegistry::new();
    let expected_mrtd = [0xEE; 48];
    registry.register(measurement("0.1.0", HashMap::new(), String::new(), hex::encode(expected_mrtd))).unwrap();
    let wrong_mrtd = [0xFF; 48];
    let quote_bytes = build_test_tdx_quote("0.1.0", &wrong_mrtd);
    let quote = AttestationQuote { quote_type: AttestationType::Tdx, quote_bytes, platform_info: "test".into() };
    let valid = verify_attestation_with_registry(&quote, &registry).unwrap();
    assert!(!valid, "Forged TDX MRTD should be rejected");
}

#[test]
fn valid_tdx_quote_accepted() {
    let mut registry = MeasurementRegistry::new();
    let mrtd = [0xEE; 48];
    registry.register(measurement("0.1.0", HashMap::new(), String::new(), hex::encode(mrtd))).unwrap();
    let quote_bytes = build_test_tdx_quote("0.1.0", &mrtd);
    let quote = AttestationQuote { quote_type: AttestationType::Tdx, quote_bytes, platform_info: "test".into() };
    assert!(verify_attestation_with_registry(&quote, &registry).unwrap());
}

#[test]
fn unknown_agent_version_rejected() {
    let registry = MeasurementRegistry::new();
    let quote_bytes = build_test_tpm2_quote("0.99.0", &[(0, [0xAA; 32])]);
    let quote = AttestationQuote { quote_type: AttestationType::Tpm2, quote_bytes, platform_info: "test".into() };
    let result = verify_attestation_with_registry(&quote, &registry);
    assert!(result.is_err(), "Unknown agent version should produce an error");
    let e = result.unwrap_err();
    assert_eq!(e.code(), Some(ErrorCode::AttestationFailed));
    assert_eq!(e.to_text(), "Agent version '0.99.0' not in measurement registry or not active");
}

#[test]
fn inactive_version_rejected() {
    let mut registry = MeasurementRegistry::new();
    registry.register(measurement("0.1.0", HashMap::from([(0, hex::encode([0xAA; 32]))]), String::new(), String::new())).unwrap();
    registry.set_active_versions(&["0.2.0"]).unwrap();
    let quote_bytes = build_test_tpm2_quote("0.1.0", &[(0, [0xAA; 32])]);
    let quote = AttestationQuote { quote_type: AttestationType::Tpm2, quote_bytes, platform_info: "test".into() };
    let result = verify_attestation_with_registry(&quote, &registry);
    assert!(result.is_err(), "Inactive agent version should be rejected");
}

#[test]
fn reactivated_version_accepted_again() {
    let mut registry = MeasurementRegistry::new();
    registry.register(measurement("0.1.0", HashMap::from([(0, hex::encode([0xAA; 32]))]), String::new(), String::new())).unwrap();
    registry.set_active_versions(&["0.2.0"]).unwrap();
    assert!(registry.lookup("0.1.0").is_none());
    registry.set_active_versions(&["0.1.0"]).unwrap();
    assert!(registry.lookup("0.1.0").is_some());
}

#[test]
fn re_registering_replaces_measurement() {
    let mut registry = MeasurementRegistry::new();
    registry.register(measurement("0.1.0", HashMap::new(), "aa".into(), String::new())).unwrap();
    registry.register(measurement("0.1.0", HashMap::new(), "bb".into(), String::new())).unwrap();
    assert_eq!(registry.lookup("0.1.0").unwrap().expected_snp_measurement, "bb");
}

#[test]
fn garbage_tpm2_data_rejected() {
    let quote = AttestationQuote { quote_type: AttestationType::Tpm2, quote_bytes: vec![0xFF, 0xFE, 0xFD, 0xFC, 0x00], platform_info: "test".into() };
    let result = verify_attestation(&quote);
    assert!(result.is_err(), "Garbage TPM2 data should error");
    assert_eq!(result.unwrap_err().to_text(), "TPM2 quote too short");
}

#[test]
fn garbage_sev_snp_data_rejected() {
    let quote = AttestationQuote { quote_type: AttestationType::SevSnp, quote_bytes: vec![0xFF, 0xFE, 0xFD, 0xFC, 0x00], platform_info: "test".into() };
    let result = verify_attestation(&quote);
    assert!(result.is_err(), "Garbage SEV-SNP data should error");
}

#[test]
fn tpm2_bad_magic_and_truncation_messages() {
    let q = AttestationQuote { quote_type: AttestationType::Tpm2, quote_bytes: b"XXXX\x05abcde".to_vec(), platform_info: String::new() };
    assert_eq!(verify_attestation(&q).unwrap_err().to_text(), "Invalid TPM2 magic bytes");
    let mut b = b"TPM2".to_vec();
    b.push(1);
    b.push(b'v');
    b.push(2);
    let q = AttestationQuote { quote_type: AttestationType::Tpm2, quote_bytes: b, platform_info: String::new() };
    assert_eq!(verify_attestation(&q).unwrap_err().to_text(), "TPM2 quote truncated: expected 143 bytes, got 7");
}

#[test]
fn built_tpm2_quote_layout() {
    let q = build_test_tpm2_quote("v1", &[(0x01020304, [7u8; 32])]);
    assert_eq!(&q[0..4], b"TPM2");
    assert_eq!(q[4], 2);
    assert_eq!(&q[5..7], b"v1");
    assert_eq!(q[7], 1);
    assert_eq!(&q[8..12], &[1, 2, 3, 4]);
    let body = &q[..44];
    let hash = Sha256::digest(body);
    assert_eq!(&q[44..76], hash.as_slice());
    assert_eq!(q[76], 1);
    assert_eq!(q[107], 32);
    assert_eq!(q.len(), 108);
}

#[test]
fn apple_secure_enclave_structure() {
    let short = AttestationQuote { quote_type: AttestationType::AppleSecureEnclave, quote_bytes: vec![1u8; 63], platform_info: String::new() };
    assert!(!verify_attestation(&short).unwrap());
    let mut zeros = vec![9u8; 10];
    zeros.extend_from_slice(&[0u8; 64]);
    let zeroed = AttestationQuote { quote_type: AttestationType::AppleSecureEnclave, quote_bytes: zeros, platform_info: String::new() };
    assert!(!verify_attestation(&zeroed).unwrap());
    let ok = AttestationQuote { quote_type: AttestationType::AppleSecureEnclave, quote_bytes: vec![1u8; 64], platform_info: String::new() };
    assert!(verify_attestation(&ok).unwrap());
}

#[test]
fn soft_attestation_needs_prefix() {
    let q = AttestationQuote { quote_type: AttestationType::Soft, quote_bytes: b"hard:0.1".to_vec(), platform_info: String::new() };
    assert!(!verify_attestation(&q).unwrap());
}

#[test]
fn platform_chain_too_short_is_invalid() {
    let one = base64::engine::general_purpose::STANDARD.encode([1u8, 2, 3]);
    let quote_bytes = build_test_tpm2_quote("0.1.0", &[]);
    let q = AttestationQuote { quote_type: AttestationType::Tpm2, quote_bytes, platform_info: format!("certs:{one}") };
    assert!(!verify_attestation(&q).unwrap());
}

#[test]
fn platform_chain_unparsable_cert_is_error() {
    let one = base64::engine::general_purpose::STANDARD.encode([1u8, 2, 3]);
    let quote_bytes = build_test_tpm2_quote("0.1.0", &[]);
    let q = AttestationQuote { quote_type: AttestationType::Tpm2, quote_bytes, platform_info: format!("certs:{one},{one}") };
    let e = verify_attestation(&q).unwrap_err();
    assert!(e.to_text().starts_with("Failed to parse certificate 0 in chain: "));
}

#[test]
fn chain_validators_per_platform() {
    assert_eq!(get_chain_validator(&AttestationType::Tpm2), Some(ChainValidator::Tpm2));
    assert_eq!(get_chain_validator(&AttestationType::Soft), None);
    assert_eq!(ChainValidator::SevSnp.platform_name(), "AMD SEV-SNP");
    assert!(!ChainValidator::Tdx.validate_chain(&[], &[]).unwrap());
}

fn make_cid(seed: &[u8]) -> Cid {
    let hash = Sha256::digest(seed);
    Cid::new_v1(0x55, 0x12, hash.to_vec()).unwrap()
}

#[test]
fn test_deterministic_same_cid() {
    let cid = make_cid(b"test-result-abc");
    let d1 = audit_decision(&cid);
    let d2 = audit_decision(&cid);
    assert_eq!(d1, d2, "same CID must always produce the same decision");
}

#[test]
fn test_audit_rate_converges_to_3_percent() {
    let n = 1000usize;
    let mut audited = 0usize;
    for i in 0..n {
        let cid = make_cid(format!("result-{i}").as_bytes());
        if audit_decision(&cid).should_audit {
            audited += 1;
        }
    }
    let rate = audited as f64 / n as f64;
    assert!((rate - 0.03).abs() < 0.015, "audit rate {:.2}% outside expected ~3% (±1.5%)", rate * 100.0);
}

#[test]
fn test_different_cids_can_differ() {
    let da = audit_decision(&make_cid(b"result-alpha"));
    let db = audit_decision(&make_cid(b"result-beta"));
    assert!(!da.reason.is_empty());
    assert!(!db.reason.is_empty());
}

#[test]
fn test_reason_reflects_decision() {
    for i in 0..50 {
        let cid = make_cid(format!("r-{i}").as_bytes());
        let d = audit_decision(&cid);
        if d.should_audit {
            assert!(d.reason.contains("selected for audit"), "reason should say selected: {}", d.reason);
        } else {
            assert!(d.reason.contains("not selected"), "reason should say not selected: {}", d.reason);
        }
    }
}

#[test]
fn test_audit_decision_struct_fields() {
    let d = audit_decision(&make_cid(b"struct-test"));
    let _ = d.should_audit;
    assert!(!d.reason.is_empty());
}

#[test]
fn audit_seed_from_short_digest() {
    let cid = Cid::new_v1(0x55, 0x12, vec![1]).unwrap();
    let d = audit_decision(&cid);
    let x: u64 = 1;
    let x = x ^ (x << 13);
    let x = x ^ (x >> 7);
    let x = x ^ (x << 17);
    assert_eq!(d.should_audit, x % 100 < 3);
    assert!(d.reason.contains(&format!("(bucket {}", x % 100)));
}

fn replica(node: &str, cid: &Cid, ms: u64) -> ReplicaResult {
    ReplicaResult { node_id: node.into(), result_cid: cid.clone(), execution_ms: ms }
}

#[test]
fn unanimous_quorum_passes() {
    let cid = compute_cid(b"correct result");
    let results = vec![replica("A", &cid, 100), replica("B", &cid, 110), replica("C", &cid, 105)];
    let outcome = evaluate_quorum(&results, 3).unwrap();
    assert!(outcome.quorum_reached);
    assert_eq!(outcome.agreeing_nodes.len(), 3);
    assert!(outcome.dissenting_nodes.is_empty());
}

#[test]
fn two_of_three_quorum_passes_with_dissenter() {
    let good = compute_cid(b"correct result");
    let bad = compute_cid(b"wrong result");
    let results = vec![replica("A", &good, 100), replica("B", &good, 110), replica("C", &bad, 105)];
    let outcome = evaluate_quorum(&results, 3).unwrap();
    assert!(outcome.quorum_reached);
    assert_eq!(outcome.accepted_cid, good);
    assert_eq!(outcome.dissenting_nodes, vec!["C"]);
}

#[test]
fn no_majority_fails() {
    let a = compute_cid(b"result A");
    let b = compute_cid(b"result B");
    let c = compute_cid(b"result C");
    let results = vec![replica("A", &a, 100), replica("B", &b, 110), replica("C", &c, 105)];
    let outcome = evaluate_quorum(&results, 3);
    assert!(outcome.is_err());
    let e = outcome.unwrap_err();
    assert_eq!(e.code(), Some(ErrorCode::QuorumFailure));
    assert_eq!(e.to_text(), "No majority: best result has 1/3 votes (need 2)");
}

#[test]
fn insufficient_replicas_fails() {
    let cid = compute_cid(b"result");
    let results = vec![replica("A", &cid, 100)];
    let outcome = evaluate_quorum(&results, 3);
    assert!(outcome.is_err());
    assert_eq!(outcome.unwrap_err().to_text(), "Only 1 replicas reported, need at least 3");
}

#[test]
fn five_of_five_unanimous() {
    let cid = compute_cid(b"result");
    let results: Vec<_> = (0..5u64).map(|i| replica(&format!("node-{i}"), &cid, 100 + i * 10)).collect();
    let outcome = evaluate_quorum(&results, 5).unwrap();
    assert!(outcome.quorum_reached);
    assert_eq!(outcome.agreeing_nodes.len(), 5);
}

#[test]
fn even_split_has_no_majority() {
    let a = compute_cid(b"a");
    let b = compute_cid(b"b");
    let results = vec![replica("1", &a, 1), replica("2", &b, 1), replica("3", &a, 1), replica("4", &b, 1)];
    assert_eq!(evaluate_quorum(&results, 0).unwrap_err().to_text(), "No majority: best result has 2/4 votes (need 3)");
    assert_eq!(evaluate_quorum(&[], 0).unwrap_err().to_text(), "No results to evaluate");
}

fn valid_signature() -> SignatureBundle {
    SignatureBundle { signer_ids: vec!["coord-1".into(), "coord-2".into()], signature: vec![0u8; 64], threshold: 2, total: 3 }
}

fn valid_receipt() -> WorkUnitReceipt {
    WorkUnitReceipt {
        receipt_id: "rcpt-001".into(),
        task_id: "task-abc".into(),
        accepted_cid: compute_cid(b"accepted output bytes"),
        quorum_node_ids: vec!["node-1".into(), "node-2".into(), "node-3".into()],
        dissenting_node_ids: vec![],
        coordinator_signature: valid_signature(),
        ncu_awarded_per_node: vec![
            ("node-1".into(), NcuAmount(1_500_000)),
            ("node-2".into(), NcuAmount(1_500_000)),
            ("node-3".into(), NcuAmount(1_500_000)),
        ],
    }
}

#[test]
fn receipt_construction_with_valid_fields() {
    let r = valid_receipt();
    assert_eq!(r.receipt_id, "rcpt-001");
    assert_eq!(r.task_id, "task-abc");
    assert_eq!(r.quorum_node_ids.len(), 3);
    assert!(r.dissenting_node_ids.is_empty());
    assert_eq!(r.ncu_awarded_per_node.len(), 3);
    for (_, ncu) in &r.ncu_awarded_per_node {
        assert_eq!(ncu.as_micro_ncu(), 1_500_000);
    }
}

#[test]
fn verify_valid_receipt_returns_true() {
    assert!(verify_receipt(&valid_receipt()).unwrap());
}

#[test]
fn verify_empty_receipt_id_fails() {
    let mut r = valid_receipt();
    r.receipt_id = String::new();
    assert_eq!(verify_receipt(&r).unwrap_err().code(), Some(ErrorCode::InvalidManifest));
}

#[test]
fn verify_empty_task_id_fails() {
    let mut r = valid_receipt();
    r.task_id = String::new();
    assert_eq!(verify_receipt(&r).unwrap_err().code(), Some(ErrorCode::InvalidManifest));
}

#[test]
fn verify_empty_quorum_fails() {
    let mut r = valid_receipt();
    r.quorum_node_ids = vec![];
    assert_eq!(verify_receipt(&r).unwrap_err().code(), Some(ErrorCode::QuorumFailure));
}

#[test]
fn verify_zero_threshold_fails() {
    let mut r = valid_receipt();
    r.coordinator_signature.threshold = 0;
    assert_eq!(verify_receipt(&r).unwrap_err().code(), Some(ErrorCode::LedgerVerificationFailed));
}

#[test]
fn receipt_with_dissenters_is_valid() {
    let mut r = valid_receipt();
    r.dissenting_node_ids = vec!["node-bad".into()];
    assert!(verify_receipt(&r).unwrap());
}

#[test]
fn trust_tier_classification() {
    assert_eq!(classify_trust_tier(false, false, false, false, false, true), TrustTier::T0);
    assert_eq!(classify_trust_tier(true, false, false, false, false, false), TrustTier::T1);
    assert_eq!(classify_trust_tier(true, false, false, false, true, false), TrustTier::T2);
    assert_eq!(classify_trust_tier(true, true, false, false, true, false), TrustTier::T3);
    assert_eq!(classify_trust_tier(true, false, false, true, true, false), TrustTier::T4);
}

#[test]
fn tier_requirements() {
    assert_eq!(TrustTier::T0.min_replicas(), 5);
    assert_eq!(TrustTier::T2.min_replicas(), 3);
    assert_eq!(TrustTier::T4.min_replicas(), 1);
    assert!(!TrustTier::T2.supports_confidential());
    assert!(TrustTier::T3.supports_confidential());
}

fn rcgen_chain(root_is_ca: bool) -> Vec<Vec<u8>> {
    let root_key = rcgen::KeyPair::generate().unwrap();
    let mut root_params = rcgen::CertificateParams::new(vec!["root.example".to_string()]).unwrap();
    root_params.distinguished_name.push(rcgen::DnType::CommonName, "Test Root");
    if root_is_ca {
        root_params.is_ca = rcgen::IsCa::Ca(rcgen::BasicConstraints::Unconstrained);
    }
    let root = root_params.self_signed(&root_key).unwrap();
    let leaf_key = rcgen::KeyPair::generate().unwrap();
    let mut leaf_params = rcgen::CertificateParams::new(vec!["leaf.example".to_string()]).unwrap();
    leaf_params.distinguished_name.push(rcgen::DnType::CommonName, "Test Leaf");
    let leaf = leaf_params.signed_by(&leaf_key, &root, &root_key).unwrap();
    vec![leaf.der().to_vec(), root.der().to_vec()]
}

#[test]
fn chain_with_ca_root_is_accepted() {
    let chain = rcgen_chain(true);
    assert!(ChainValidator::Tpm2.validate_chain(&[], &chain).unwrap());
}

#[test]
fn chain_root_without_basic_constraints_is_refused() {
    let chain = rcgen_chain(false);
    assert!(!ChainValidator::SevSnp.validate_chain(&[], &chain).unwrap());
}

#[test]
fn chain_in_wrong_order_is_refused() {
    let mut chain = rcgen_chain(true);
    chain.reverse();
    assert!(!ChainValidator::Tdx.validate_chain(&[], &chain).unwrap());
}

fn registry_expecting_pcr0(value: [u8; 32]) -> MeasurementRegistry {
    let mut registry = MeasurementRegistry::new();
    registry.register(measurement("0.1.0", HashMap::from([(0, hex::encode(value))]), String::new(), String::new())).unwrap();
    registry
}

#[test]
fn repeated_pcr_index_keeps_last_value() {
    let registry = registry_expecting_pcr0([0xAA; 32]);
    let quote_bytes = build_test_tpm2_quote("0.1.0", &[(0, [0x11; 32]), (0, [0xAA; 32])]);
    let quote = AttestationQuote { quote_type: AttestationType::Tpm2, quote_bytes, platform_info: String::new() };
    assert!(verify_attestation_with_registry(&quote, &registry).unwrap());
    let quote_bytes = build_test_tpm2_quote("0.1.0", &[(0, [0xAA; 32]), (0, [0x11; 32])]);
    let quote = AttestationQuote { quote_type: AttestationType::Tpm2, quote_bytes, platform_info: String::new() };
    assert!(!verify_attestation_with_registry(&quote, &registry).unwrap());
}

#[test]
fn missing_expected_pcr_is_refused() {
    let registry = registry_expecting_pcr0([0xAA; 32]);
    let quote_bytes = build_test_tpm2_quote("0.1.0", &[(7, [0xAA; 32])]);
    let quote = AttestationQuote { quote_type: AttestationType::Tpm2, quote_bytes, platform_info: String::new() };
    assert!(!verify_attestation_with_registry(&quote, &registry).unwrap());
}

#[test]
fn extra_quote_pcrs_are_ignored() {
    let registry = registry_expecting_pcr0([0xAA; 32]);
    let quote_bytes = build_test_tpm2_quote("0.1.0", &[(3, [0x33; 32]), (0, [0xAA; 32])]);
    let quote = AttestationQuote { quote_type: AttestationType::Tpm2, quote_bytes, platform_info: String::new() };
    assert!(verify_attestation_with_registry(&quote, &registry).unwrap());
}
