use base64::Engine;
use std::path::PathBuf;
use worldcompute::error::ErrorCode;
use worldcompute::network::dial_logging::DialAttempt;
use worldcompute::network::discovery::{ClusterMergeResult, DiscoveryConfig, BOOTSTRAP_DNS_SEEDS};
use worldcompute::network::dispatch::{TaskDispatchResponse, TaskStatus, PROTOCOL_TASK_DISPATCH, PROTOCOL_TASK_OFFER};
use worldcompute::network::doh_resolver::DohResolverConfig;
use worldcompute::network::gossip::{
    GossipConfig, ALL_TOPICS, TOPIC_CAPACITY_UPDATES, TOPIC_LEASE_GRANTS, TOPIC_TASK_ANNOUNCEMENTS,
};
use worldcompute::network::nat_traversal::{
    stun_binding_request_bytes, stun_response_address, classify_nat_type, nat_status_from_mappings, parse_xor_mapped_address, NatConfig, NatStatus,
};
use worldcompute::network::rate_limit::{RateLimitClass, RateLimiter, TokenBucket, TOKEN_UNIT};
use worldcompute::network::relay_reservation::{RelayReservation, MAX_REACQUIRE_SECONDS};
use worldcompute::network::rest_gateway::{rate_limit_class_for_path, verify_auth_token, RestGateway, RestResponse};
use worldcompute::network::tls::{
    needs_rotation, needs_rotation_at, CertRotationPolicy, CertSpec, CertificateAuthority, IssuedCert, TlsConfig,
    MICROS_PER_DAY,
};
use worldcompute::network::transport::{build_transport, TransportConfig};
use worldcompute::network::wss_transport::WssTransportConfig;
use worldcompute::types::{DialOutcome, IpAddress, ReservationStatus, SocketAddress, TransportKind};

fn now_us() -> i64 {
    chrono::Utc::now().timestamp_micros()
}

#[test]
fn success_record_has_no_root_cause() {
    let ev = DialAttempt::success("/ip4/127.0.0.1/tcp/4001", TransportKind::Tcp);
    assert!(ev.root_cause.is_none());
    assert_eq!(ev.outcome, DialOutcome::Success);
}

#[test]
fn failure_record_preserves_root_cause() {
    let ev = DialAttempt::failure(
        "/ip4/10.0.0.1/tcp/4001",
        TransportKind::Tcp,
        DialOutcome::TransportError("ECONNREFUSED".into()),
        "connection refused by remote host",
    );
    assert_eq!(ev.root_cause.as_deref(), Some("connection refused by remote host"));
    assert!(matches!(ev.outcome, DialOutcome::TransportError(_)));
}

#[test]
fn bootstrap_dns_seeds_is_non_empty() {
    assert!(BOOTSTRAP_DNS_SEEDS.len() >= 2, "Need at least 2 bootstrap seeds");
    for seed in BOOTSTRAP_DNS_SEEDS {
        assert!(seed.starts_with("/dnsaddr/"), "Seed should be a /dnsaddr/ multiaddr: {seed}");
    }
}

#[test]
fn cluster_merge_result_fields() {
    let result = ClusterMergeResult { peers_announced: 3, routes_added: 10, success: true };
    assert_eq!(result.peers_announced, 3);
    assert_eq!(result.routes_added, 10);
    assert!(result.success);
}

#[test]
fn discovery_config_has_sane_defaults() {
    let config = DiscoveryConfig::default();
    assert!(config.mdns_enabled);
    assert!(config.kademlia_enabled);
    assert!(!config.bootstrap_seeds.is_empty());
    assert_eq!(config.kad_query_timeout, std::time::Duration::from_secs(30));
}

#[test]
fn protocol_names_are_versioned() {
    assert!(PROTOCOL_TASK_OFFER.starts_with("/worldcompute/"));
    assert!(PROTOCOL_TASK_OFFER.contains("1.0.0"));
    assert!(PROTOCOL_TASK_DISPATCH.starts_with("/worldcompute/"));
    assert!(PROTOCOL_TASK_DISPATCH.contains("1.0.0"));
}

#[test]
fn task_status_all_variants() {
    assert_eq!(TaskStatus::Succeeded, TaskStatus::Succeeded);
    assert_ne!(TaskStatus::Succeeded, TaskStatus::Failed);
    assert_ne!(TaskStatus::Failed, TaskStatus::Timeout);
    assert_ne!(TaskStatus::Timeout, TaskStatus::Preempted);
}

#[test]
fn dispatch_response_fields() {
    let resp = TaskDispatchResponse {
        task_id: "task-002".into(),
        status: TaskStatus::Succeeded,
        output: b"hello world".to_vec(),
        output_cid: None,
        duration_ms: 1234,
        error: None,
    };
    assert_eq!(resp.status, TaskStatus::Succeeded);
    assert_eq!(resp.output, b"hello world");
    assert_eq!(resp.duration_ms, 1234);
}

#[test]
fn default_config_has_two_upstreams() {
    let cfg = DohResolverConfig::default();
    assert!(cfg.enabled);
    assert_eq!(cfg.upstreams.len(), 2);
    assert!(cfg.upstreams.iter().all(|u| u.starts_with("https://")));
}

#[test]
fn gossip_config_has_correct_topic_count() {
    let config = GossipConfig::default();
    assert_eq!(config.topics.len(), 3, "Expected 3 topics: task_announcements, capacity_updates, lease_grants");
    assert!(config.topics.contains(&TOPIC_TASK_ANNOUNCEMENTS.to_string()));
    assert!(config.topics.contains(&TOPIC_CAPACITY_UPDATES.to_string()));
    assert!(config.topics.contains(&TOPIC_LEASE_GRANTS.to_string()));
    assert_eq!(config.max_transmit_size, 1024 * 1024);
}

#[test]
fn all_topics_constant_has_three_entries() {
    assert_eq!(ALL_TOPICS.len(), 3);
}

#[test]
fn default_config_has_all_methods_enabled() {
    let config = NatConfig::default();
    assert!(config.upnp_enabled, "UPnP should be enabled by default");
    assert!(config.dcutr_enabled, "dcutr should be enabled by default");
    assert!(config.relay_enabled, "Relay should be enabled by default");
}

#[test]
fn default_config_has_stun_servers() {
    let config = NatConfig::default();
    assert!(!config.stun_servers.is_empty());
    assert!(config.stun_servers[0].contains("google"));
}

fn addr(a: u8, b: u8, c: u8, d: u8, port: u16) -> SocketAddress {
    SocketAddress { ip: IpAddress::V4(a, b, c, d), port }
}

#[test]
fn classify_single_address_as_direct() {
    assert_eq!(classify_nat_type(&[addr(1, 2, 3, 4, 5000)]), NatStatus::Direct);
}

#[test]
fn classify_same_ip_same_port_as_full_cone() {
    assert_eq!(classify_nat_type(&[addr(1, 2, 3, 4, 5000), addr(1, 2, 3, 4, 5000)]), NatStatus::FullCone);
}

#[test]
fn classify_same_ip_diff_port_as_port_restricted() {
    assert_eq!(classify_nat_type(&[addr(1, 2, 3, 4, 5000), addr(1, 2, 3, 4, 6000)]), NatStatus::PortRestricted);
}

#[test]
fn classify_diff_ip_as_symmetric() {
    assert_eq!(classify_nat_type(&[addr(1, 2, 3, 4, 5000), addr(5, 6, 7, 8, 5000)]), NatStatus::Symmetric);
}

#[test]
fn empty_stun_servers_returns_unknown() {
    let config = NatConfig { stun_servers: vec![], ..NatConfig::default() };
    assert_eq!(nat_status_from_mappings(&config, &[addr(1, 2, 3, 4, 5)]), NatStatus::Unknown);
    assert_eq!(nat_status_from_mappings(&NatConfig::default(), &[]), NatStatus::Unknown);
}

#[test]
fn nat_status_variants_are_distinct() {
    assert_ne!(NatStatus::Direct, NatStatus::Relayed);
    assert_ne!(NatStatus::HolePunched, NatStatus::Unreachable);
    assert_ne!(NatStatus::FullCone, NatStatus::Symmetric);
}

#[test]
fn parse_xor_mapped_address_valid() {
    let magic_cookie = [0x21, 0x12, 0xA4, 0x42];
    let port: u16 = 12345;
    let xor_port = port ^ 0x2112;
    let ip = [192u8, 168, 1, 100];
    let xor_ip = [ip[0] ^ magic_cookie[0], ip[1] ^ magic_cookie[1], ip[2] ^ magic_cookie[2], ip[3] ^ magic_cookie[3]];
    let mut attr = vec![0x00, 0x20, 0x00, 0x08, 0x00, 0x01];
    attr.extend_from_slice(&xor_port.to_be_bytes());
    attr.extend_from_slice(&xor_ip);
    let result = parse_xor_mapped_address(&attr, &magic_cookie);
    assert!(result.is_some());
    let a = result.unwrap();
    assert_eq!(a.port, port);
    assert_eq!(a.ip, IpAddress::V4(192, 168, 1, 100));
}

#[test]
fn parse_xor_mapped_address_skips_other_attributes() {
    let cookie = [0x21, 0x12, 0xA4, 0x42];
    let mut attrs = vec![0x80, 0x22, 0x00, 0x03, b'a', b'b', b'c', 0x00];
    attrs.extend_from_slice(&[0x00, 0x20, 0x00, 0x08, 0x00, 0x01, 0x21 ^ 0x00, 0x12 ^ 0x50, 10 ^ 0x21, 0 ^ 0x12, 0 ^ 0xA4, 1 ^ 0x42]);
    let a = parse_xor_mapped_address(&attrs, &cookie).unwrap();
    assert_eq!(a.ip, IpAddress::V4(10, 0, 0, 1));
    assert_eq!(a.port, 0x0050 ^ 0x0000);
    assert!(parse_xor_mapped_address(&[0x00, 0x20, 0x00, 0x08, 0x00], &cookie).is_none());
}

#[test]
fn heartbeat_allows_120_per_minute() {
    assert_eq!(RateLimitClass::DonorHeartbeat.per_minute(), 120);
}

#[test]
fn job_submit_allows_10_per_minute() {
    assert_eq!(RateLimitClass::JobSubmit.per_minute(), 10);
}

#[test]
fn cluster_status_allows_30_per_minute() {
    assert_eq!(RateLimitClass::ClusterStatus.per_minute(), 30);
}

#[test]
fn governance_allows_5_per_minute() {
    assert_eq!(RateLimitClass::Governance.per_minute(), 5);
}

#[test]
fn under_limit_passes() {
    let mut limiter = RateLimiter::new();
    assert!(limiter.check("user-1", RateLimitClass::AdminAction).is_ok());
}

#[test]
fn over_limit_returns_rate_limited() {
    let mut limiter = RateLimiter::new();
    limiter.exhaust("user-2", RateLimitClass::AdminAction);
    let result = limiter.check("user-2", RateLimitClass::AdminAction);
    assert!(result.is_err());
    let err = result.unwrap_err();
    assert_eq!(err.code(), Some(ErrorCode::RateLimited));
    assert_eq!(err.to_text(), "Rate limit exceeded for class AdminAction: max 1 req/min");
}

#[test]
fn different_callers_have_independent_buckets() {
    let mut limiter = RateLimiter::new();
    limiter.exhaust("user-a", RateLimitClass::JobSubmit);
    assert!(limiter.check("user-a", RateLimitClass::JobSubmit).is_err());
    assert!(limiter.check("user-b", RateLimitClass::JobSubmit).is_ok());
}

#[test]
fn try_acquire_succeeds_under_limit() {
    let mut limiter = RateLimiter::new();
    assert!(limiter.try_acquire(RateLimitClass::DonorHeartbeat, "node-1").is_ok());
    assert!(limiter.try_acquire(RateLimitClass::DonorHeartbeat, "node-1").is_ok());
}

#[test]
fn try_acquire_returns_retry_after_on_exhaustion() {
    let mut limiter = RateLimiter::new();
    limiter.exhaust("node-x", RateLimitClass::AdminAction);
    let err = limiter.try_acquire(RateLimitClass::AdminAction, "node-x").unwrap_err();
    assert!(err.retry_after_micros > 0, "retry_after should be positive");
    assert!(err.message.contains("Rate limit exceeded"));
}

#[test]
fn token_bucket_refill_arithmetic() {
    let mut b = TokenBucket::new(60);
    b.tokens = 0;
    let now = std::time::Instant::now();
    assert_eq!(b.consume_after(999_999, now), Err(1));
    assert_eq!(b.tokens, 999_999 * 60);
    assert_eq!(b.consume_after(1, now), Ok(()));
    assert_eq!(b.tokens, 0);
    assert_eq!(b.consume_after(u64::MAX, now), Ok(()));
    assert_eq!(b.tokens, 60 * TOKEN_UNIT - TOKEN_UNIT);
}

#[test]
fn gateway_creation() {
    let gw = RestGateway::new(8080);
    assert_eq!(gw.port, 8080);
}

#[test]
fn known_path_returns_200() {
    let mut gw = RestGateway::new(8080);
    let resp = gw.handle_request("GET", "/api/v1/donor/status", "");
    assert_eq!(resp.status, 200);
    assert!(resp.body.contains("trust_score"));
    assert_eq!(resp.body, r#"{"credit_balance":0,"state":"idle","trust_score":0.5,"uptime_secs":0}"#);
}

#[test]
fn unknown_path_returns_404() {
    let mut gw = RestGateway::new(8080);
    let resp = gw.handle_request("GET", "/api/v1/unknown", "");
    assert_eq!(resp.status, 404);
    assert_eq!(resp.body, r#"{"error":"not found","status":404}"#);
}

#[test]
fn job_submit_requires_body() {
    let mut gw = RestGateway::new(8080);
    let resp = gw.handle_request("POST", "/api/v1/job/submit", "");
    assert_eq!(resp.status, 400);
}

#[test]
fn job_submit_with_body_returns_200() {
    let mut gw = RestGateway::new(8080);
    let resp = gw.handle_request("POST", "/api/v1/job/submit", r#"{"manifest":"test"}"#);
    assert_eq!(resp.status, 200);
    assert!(resp.body.contains("job_id"));
}

#[test]
fn cluster_status_returns_200() {
    let mut gw = RestGateway::new(8080);
    let resp = gw.handle_request("GET", "/api/v1/cluster/status", "");
    assert_eq!(resp.status, 200);
    assert!(resp.body.contains("nodes_online"));
}

#[test]
fn governance_proposals_returns_200() {
    let mut gw = RestGateway::new(8080);
    let resp = gw.handle_request("GET", "/api/v1/governance/proposals", "");
    assert_eq!(resp.status, 200);
}

#[test]
fn admin_health_returns_200() {
    let mut gw = RestGateway::new(8080);
    let resp = gw.handle_request("GET", "/api/v1/admin/health", "");
    assert_eq!(resp.status, 200);
}

#[test]
fn mesh_status_returns_200() {
    let mut gw = RestGateway::new(8080);
    let resp = gw.handle_request("GET", "/api/v1/mesh/status", "");
    assert_eq!(resp.status, 200);
}

#[test]
fn wrong_method_returns_405() {
    let mut gw = RestGateway::new(8080);
    let resp = gw.handle_request("DELETE", "/api/v1/mesh/status", "");
    assert_eq!(resp.status, 405);
    assert_eq!(resp.body, r#"{"error":"method not allowed","status":405}"#);
}

#[test]
fn rate_limiting_integration() {
    let mut gw = RestGateway::new(8080);
    let resp1 = gw.handle_request("GET", "/api/v1/admin/health", "");
    assert_eq!(resp1.status, 200);
    let resp2 = gw.handle_request("GET", "/api/v1/admin/health", "");
    assert_eq!(resp2.status, 429);
    assert!(resp2.headers.iter().any(|(k, v)| k == "retry-after" && v == "60"));
}

#[test]
fn verify_auth_token_rejects_invalid_base64() {
    let result = verify_auth_token("not-valid-base64!!!");
    assert!(result.is_err());
    assert_eq!(result.unwrap_err().to_text(), "invalid base64 token encoding");
}

#[test]
fn verify_auth_token_rejects_missing_parts() {
    let token = base64::engine::general_purpose::STANDARD.encode("just-a-string");
    let result = verify_auth_token(&token);
    assert!(result.is_err());
    assert_eq!(result.unwrap_err().to_text(), "token must contain peer_id:timestamp:signature");
}

#[test]
fn verify_auth_token_rejects_bad_signature_hex() {
    let token = base64::engine::general_purpose::STANDARD.encode("peer1:12345:not-hex!!!");
    let result = verify_auth_token(&token);
    assert!(result.is_err());
    assert_eq!(result.unwrap_err().to_text(), "invalid hex signature in token");
}

#[test]
fn verify_auth_token_rejects_wrong_length_signature() {
    let token = base64::engine::general_purpose::STANDARD.encode("peer1:12345:aabb");
    let result = verify_auth_token(&token);
    assert!(result.is_err());
    assert_eq!(result.unwrap_err().code(), Some(ErrorCode::Unauthorized));
}

#[test]
fn verify_auth_token_accepts_well_formed_token() {
    let sig_hex = "00".repeat(64);
    let raw = format!("peer-abc:1713300000:{sig_hex}");
    let token = base64::engine::general_purpose::STANDARD.encode(&raw);
    let result = verify_auth_token(&token);
    assert!(result.is_ok());
    assert_eq!(result.unwrap(), "peer-abc");
}

#[test]
fn all_six_route_prefixes_match() {
    let prefixes = [
        "/api/v1/donor/status",
        "/api/v1/job/list",
        "/api/v1/cluster/status",
        "/api/v1/governance/proposals",
        "/api/v1/admin/health",
        "/api/v1/mesh/status",
    ];
    let mut gw = RestGateway::new(9090);
    for path in prefixes {
        let resp = gw.handle_request("GET", path, "");
        assert_eq!(resp.status, 200, "expected 200 for {path}");
    }
}

#[test]
fn rate_classes_by_path() {
    assert_eq!(rate_limit_class_for_path("/api/v1/mesh/x"), Some(RateLimitClass::ClusterStatus));
    assert_eq!(rate_limit_class_for_path("/api/v1/jobs"), Some(RateLimitClass::JobSubmit));
    assert_eq!(rate_limit_class_for_path("/health"), None);
}

#[test]
fn response_headers_include_content_type() {
    let resp = RestResponse::ok(r#"{"ok":true}"#);
    assert!(resp.headers.iter().any(|(k, v)| k == "content-type" && v == "application/json"));
}

#[test]
fn error_body_escapes_message() {
    let resp = RestResponse::error(400, "bad \"input\"\n");
    assert_eq!(resp.body, "{\"error\":\"bad \\\"input\\\"\\n\",\"status\":400}");
}

#[test]
fn new_reservation_is_requesting() {
    let r = RelayReservation::requesting("12D3KooWRelay".into(), "/ip4/10.0.0.1/tcp/4001".into());
    assert_eq!(r.status, ReservationStatus::Requesting);
    assert!(r.lost_at.is_none());
}

#[test]
fn active_transition_sets_deadlines() {
    let mut r = RelayReservation::requesting("peer".into(), "/ip4/10.0.0.1/tcp/4001".into());
    r.mark_active(300);
    assert_eq!(r.status, ReservationStatus::Active);
    assert!(r.renew_at < r.expires_at);
    let delta = (r.expires_at - now_us()) / 1_000_000;
    assert!(delta > 290 && delta <= 300);
}

#[test]
fn healthy_until_renew_threshold() {
    let mut r = RelayReservation::requesting("peer".into(), "addr".into());
    r.mark_active(300);
    assert!(r.is_healthy(now_us()));
    let past_renew = r.renew_at + 1_000_000;
    assert!(!r.is_healthy(past_renew));
    assert!(r.needs_renewal(past_renew));
}

#[test]
fn lost_state_records_timestamp() {
    let mut r = RelayReservation::requesting("peer".into(), "addr".into());
    r.mark_active(300);
    r.mark_lost();
    assert_eq!(r.status, ReservationStatus::Lost);
    assert!(r.lost_at.is_some());
    assert!(r.within_reacquire_budget(now_us()));
}

#[test]
fn reacquire_budget_expires_after_60s() {
    let mut r = RelayReservation::requesting("peer".into(), "addr".into());
    r.mark_active(300);
    r.mark_lost();
    let after_window = r.lost_at.unwrap() + (MAX_REACQUIRE_SECONDS + 1) * 1_000_000;
    assert!(!r.within_reacquire_budget(after_window));
}

#[test]
fn failed_state_is_terminal() {
    let mut r = RelayReservation::requesting("peer".into(), "addr".into());
    r.mark_failed();
    assert_eq!(r.status, ReservationStatus::Failed);
}

#[test]
fn renewing_only_from_active() {
    let mut r = RelayReservation::requesting_at("peer".into(), "addr".into(), 0);
    r.mark_renewing();
    assert_eq!(r.status, ReservationStatus::Requesting);
    r.mark_active_at(100, 1_000_000);
    assert_eq!(r.expires_at, 101_000_000);
    assert_eq!(r.renew_at, 71_000_000);
    r.mark_renewing();
    assert_eq!(r.status, ReservationStatus::Renewing);
    r.mark_lost_at(10_000_000);
    assert_eq!(r.time_since_lost(9_500_000), Some(0));
    assert_eq!(r.time_since_lost(7_500_000), Some(-2));
}

#[test]
fn default_config_has_90_day_rotation() {
    let cfg = TlsConfig::default();
    assert_eq!(cfg.auto_rotate_days, 90);
    assert_eq!(cfg.rotation_policy.rotate_after_days, 90);
    assert!(cfg.rotation_policy.auto_rotate);
}

#[test]
fn rotation_policy_has_overlap_window() {
    let policy = CertRotationPolicy::default();
    assert!(policy.overlap_days > 0, "overlap window should be positive");
}

#[test]
fn custom_paths_are_stored() {
    let cfg = TlsConfig {
        cert_path: PathBuf::from("/custom/cert.pem"),
        key_path: PathBuf::from("/custom/key.pem"),
        ca_path: PathBuf::from("/custom/ca.pem"),
        auto_rotate_days: 30,
        rotation_policy: CertRotationPolicy { rotate_after_days: 30, overlap_days: 3, auto_rotate: false },
    };
    assert_eq!(cfg.cert_path, PathBuf::from("/custom/cert.pem"));
    assert_eq!(cfg.auto_rotate_days, 30);
    assert!(!cfg.rotation_policy.auto_rotate);
}

#[test]
fn needs_rotation_expiring_soon() {
    let cert = IssuedCert {
        cert_der: vec![],
        key_der: vec![],
        not_after: now_us() + 3 * 86_400_000_000,
        subject: CertSpec::for_account("acct"),
        issuer: CertSpec::for_ca(),
    };
    assert!(needs_rotation(&cert, 7), "cert expiring in 3 days should need rotation at 7-day threshold");
}

#[test]
fn no_rotation_needed_far_expiry() {
    let cert = IssuedCert {
        cert_der: vec![],
        key_der: vec![],
        not_after: now_us() + 30 * 86_400_000_000,
        subject: CertSpec::for_account("acct"),
        issuer: CertSpec::for_ca(),
    };
    assert!(!needs_rotation(&cert, 7), "cert expiring in 30 days should not need rotation at 7-day threshold");
}

#[test]
fn rotation_threshold_is_inclusive() {
    let cert = IssuedCert {
        cert_der: vec![],
        key_der: vec![],
        not_after: 7 * 86_400_000_000,
        subject: CertSpec::for_account("acct"),
        issuer: CertSpec::for_ca(),
    };
    assert!(needs_rotation_at(&cert, 7, 0));
    assert!(!needs_rotation_at(&cert, 6, 0));
}

#[test]
fn transport_config_defaults_are_sane() {
    let config = TransportConfig::default();
    assert!(config.quic_enabled, "QUIC should be enabled by default");
    assert!(config.tcp_enabled, "TCP fallback should be enabled by default");
    assert!(config.relay_enabled, "Relay should be enabled by default");
}

#[test]
fn default_is_fallback_not_listener() {
    let cfg = WssTransportConfig::default();
    assert!(cfg.enabled);
    assert!(!cfg.listen_on_443);
    assert!(cfg.middlebox_pin_check);
    assert!(!cfg.allow_ssl_inspection);
    assert_eq!(cfg.kind(), TransportKind::Wss);
}

#[test]
fn relay_preset_listens_on_443() {
    let cfg = WssTransportConfig::for_relay();
    assert!(cfg.listen_on_443);
    assert!(cfg.middlebox_pin_check);
}

#[test]
fn ssl_inspection_preset_downgrades_tier() {
    let cfg = WssTransportConfig::with_ssl_inspection_allowed();
    assert!(cfg.produces_inspected_tier());
    assert!(!cfg.middlebox_pin_check);
    cfg.validate().expect("config should be valid");
}

#[test]
fn invalid_combination_rejected() {
    let cfg = WssTransportConfig {
        enabled: true,
        listen_on_443: false,
        fallback_priority: 2,
        middlebox_pin_check: true,
        allow_ssl_inspection: true,
    };
    assert!(cfg.validate().is_err());
}

#[test]
fn ca_generation_succeeds() {
    let ca = CertificateAuthority::new().expect("CA generation should succeed");
    assert!(!ca.ca_cert_der.is_empty(), "CA cert DER should not be empty");
    assert!(!ca.ca_key_der.is_empty(), "CA key DER should not be empty");
}

#[test]
fn cert_issuance_succeeds() {
    let ca = CertificateAuthority::new().unwrap();
    let cert = ca.issue_cert("test-account-001").expect("cert issuance should succeed");
    assert!(!cert.cert_der.is_empty());
    assert!(!cert.key_der.is_empty());
    let days_until = (cert.not_after - chrono::Utc::now().timestamp_micros()) / MICROS_PER_DAY;
    assert!((89..=91).contains(&days_until), "cert should expire in ~90 days, got {days_until}");
}

#[test]
fn issued_cert_expiry_is_exact_at_a_given_time() {
    let ca = CertificateAuthority::new().unwrap();
    let cert = ca.issue_cert_at("acct-7", 1_000).unwrap();
    assert_eq!(cert.not_after, 1_000 + 90 * MICROS_PER_DAY);
    assert_ne!(cert.cert_der, ca.ca_cert_der);
}

#[test]
fn issued_cert_rejects_invalid_subject() {
    let ca = CertificateAuthority::new().unwrap();
    let e = ca.issue_cert_at("café", 0).unwrap_err();
    assert!(e.message.starts_with("cert params creation failed: "), "{}", e.message);
}

#[test]
fn stun_request_layout() {
    let txn = [1u8, 2, 3, 4, 5, 6, 7, 8, 9, 10, 11, 12];
    let req = stun_binding_request_bytes(&txn);
    assert_eq!(req.len(), 20);
    assert_eq!(&req[..8], &[0x00, 0x01, 0x00, 0x00, 0x21, 0x12, 0xA4, 0x42]);
    assert_eq!(&req[8..], &txn);
}

#[test]
fn stun_response_reading() {
    assert_eq!(stun_response_address(&[0u8; 19]), Err("STUN response too short".to_string()));
    let mut resp = vec![0x01u8, 0x01, 0x00, 0x0c, 0x21, 0x12, 0xA4, 0x42];
    resp.extend_from_slice(&[0u8; 12]);
    assert_eq!(stun_response_address(&resp), Err("No XOR-MAPPED-ADDRESS in STUN response".to_string()));
    // XOR-MAPPED-ADDRESS, IPv4, port 4001 and 192.0.2.1 xored with the cookie.
    let port = 4001u16 ^ 0x2112;
    let ip = [192u8 ^ 0x21, 0 ^ 0x12, 2 ^ 0xA4, 1 ^ 0x42];
    resp.extend_from_slice(&[0x00, 0x20, 0x00, 0x08, 0x00, 0x01]);
    resp.extend_from_slice(&port.to_be_bytes());
    resp.extend_from_slice(&ip);
    let addr = stun_response_address(&resp).unwrap();
    assert_eq!(addr, SocketAddress { ip: IpAddress::V4(192, 0, 2, 1), port: 4001 });
}

#[test]
fn build_transport_returns_ok() {
    let keypair = libp2p::identity::Keypair::generate_ed25519();
    let config = TransportConfig::default();
    let result = build_transport(&keypair, config);
    assert!(result.is_ok(), "build_transport should succeed");
}

#[test]
fn built_transport_preserves_config() {
    let keypair = libp2p::identity::Keypair::generate_ed25519();
    let config = TransportConfig { quic_enabled: true, tcp_enabled: false, relay_enabled: true };
    let bt = build_transport(&keypair, config).unwrap();
    assert!(bt.config.quic_enabled);
    assert!(!bt.config.tcp_enabled);
    assert_eq!(bt.keypair.public().to_peer_id(), keypair.public().to_peer_id());
}

#[test]
fn failed_reservation_reports_no_loss_time() {
    let mut r = RelayReservation::requesting_at("peer".into(), "addr".into(), 0);
    r.mark_active_at(300, 0);
    r.mark_lost_at(1_000_000);
    assert_eq!(r.time_since_lost(3_000_000), Some(2));
    r.mark_failed();
    assert_eq!(r.time_since_lost(3_000_000), None);
    assert!(!r.within_reacquire_budget(3_000_000));
}

#[test]
fn issued_cert_names_subject_and_issuer() {
    let ca = CertificateAuthority::new().unwrap();
    let cert = ca.issue_cert_at("acct-7", 0).unwrap();
    assert_eq!(cert.subject.common_name, "acct-7");
    assert_eq!(cert.subject.alt_names, vec!["acct-7".to_string()]);
    assert!(!cert.subject.is_ca);
    assert_eq!(cert.issuer.common_name, "World Compute CA");
    assert_eq!(cert.issuer.organization.as_deref(), Some("World Compute"));
    assert!(cert.issuer.is_ca);
    assert_eq!(cert.issuer.not_before, (2024, 1, 1));
    assert_eq!(cert.issuer.not_after, (2034, 1, 1));
}
