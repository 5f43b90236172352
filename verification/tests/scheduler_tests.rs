use worldcompute::acceptable_use::AcceptableUseClass;
use worldcompute::error::ErrorCode;
use worldcompute::scheduler::adapter::AdapterTaskStatus;
use worldcompute::scheduler::broker::{Broker, NodeInfo, TaskRequirements};
use worldcompute::scheduler::coordinator::{
    Coordinator, CoordinatorAction, CoordinatorRole, RaftCoordinatorStorage, RaftLogEntry,
};
use worldcompute::scheduler::job::{JobState, Task, TaskState};
use worldcompute::scheduler::manifest::{validate_manifest, JobManifest};
use worldcompute::scheduler::submitter::{AcceptableUseStanding, Submitter};
use worldcompute::scheduler::{
    ConfidentialityLevel, JobCategory, ResourceEnvelope, VerificationMethod, WorkloadType,
};
use worldcompute::types::{compute_cid, Cid, NcuAmount, Timestamp};

fn test_envelope(cpu: u64, ram: u64) -> ResourceEnvelope {
    ResourceEnvelope {
        cpu_millicores: cpu,
        ram_bytes: ram,
        gpu_class: None,
        gpu_vram_bytes: 0,
        scratch_bytes: 10 * 1024 * 1024 * 1024,
        network_egress_bytes: 0,
        walltime_budget_ms: 3_600_000,
    }
}

fn test_node(peer_id: &str, cpu: u64, ram: u64) -> NodeInfo {
    NodeInfo {
        peer_id: peer_id.to_string(),
        region_code: "us-east-1".to_string(),
        capacity: test_envelope(cpu, ram),
        trust_tier: 1,
    }
}

#[test]
fn register_node_success() {
    let mut broker = Broker::new("broker-001".into(), "us-east-1".into());
    let node = test_node("peer-aaa", 4000, 8 * 1024 * 1024 * 1024);
    assert!(broker.register_node(node).is_ok());
    assert_eq!(broker.node_roster.len(), 1);
}

#[test]
fn register_duplicate_node_fails() {
    let mut broker = Broker::new("broker-001".into(), "us-east-1".into());
    let node1 = test_node("peer-aaa", 4000, 8 * 1024 * 1024 * 1024);
    let node2 = test_node("peer-aaa", 4000, 8 * 1024 * 1024 * 1024);
    assert!(broker.register_node(node1).is_ok());
    let err = broker.register_node(node2).unwrap_err();
    assert_eq!(err.code(), Some(ErrorCode::AlreadyExists));
}

#[test]
fn deregister_node_success() {
    let mut broker = Broker::new("broker-001".into(), "us-east-1".into());
    let node = test_node("peer-bbb", 4000, 8 * 1024 * 1024 * 1024);
    broker.register_node(node).unwrap();
    assert!(broker.deregister_node(&"peer-bbb".to_string()).is_ok());
    assert!(broker.node_roster.is_empty());
}

#[test]
fn deregister_missing_node_fails() {
    let mut broker = Broker::new("broker-001".into(), "us-east-1".into());
    let err = broker.deregister_node(&"peer-zzz".to_string()).unwrap_err();
    assert_eq!(err.code(), Some(ErrorCode::NotFound));
}

#[test]
fn match_task_returns_eligible_nodes() {
    let mut broker = Broker::new("broker-001".into(), "us-east-1".into());
    broker.register_node(test_node("peer-big", 8000, 16 * 1024 * 1024 * 1024)).unwrap();
    broker.register_node(test_node("peer-small", 1000, 1024 * 1024 * 1024)).unwrap();
    let reqs = TaskRequirements {
        min_cpu_millicores: 4000,
        min_ram_bytes: 8 * 1024 * 1024 * 1024,
        min_scratch_bytes: 1,
        min_trust_tier: 1,
    };
    let matched = broker.match_task(&reqs).unwrap();
    assert_eq!(matched.len(), 1);
    assert_eq!(matched[0], "peer-big");
}

#[test]
fn match_task_no_eligible_returns_error() {
    let mut broker = Broker::new("broker-001".into(), "us-east-1".into());
    broker.register_node(test_node("peer-tiny", 500, 512 * 1024 * 1024)).unwrap();
    let reqs = TaskRequirements {
        min_cpu_millicores: 4000,
        min_ram_bytes: 8 * 1024 * 1024 * 1024,
        min_scratch_bytes: 1,
        min_trust_tier: 1,
    };
    let err = broker.match_task(&reqs).unwrap_err();
    assert_eq!(err.code(), Some(ErrorCode::NoEligibleNodes));
}

#[test]
fn match_task_trust_tier_filter() {
    let mut broker = Broker::new("broker-001".into(), "us-east-1".into());
    let mut node = test_node("peer-t1", 8000, 16 * 1024 * 1024 * 1024);
    node.trust_tier = 1;
    broker.register_node(node).unwrap();
    let reqs = TaskRequirements {
        min_cpu_millicores: 1000,
        min_ram_bytes: 1,
        min_scratch_bytes: 1,
        min_trust_tier: 3,
    };
    let err = broker.match_task(&reqs).unwrap_err();
    assert_eq!(err.code(), Some(ErrorCode::NoEligibleNodes));
}

#[test]
fn match_task_keeps_registration_order() {
    let mut broker = Broker::new("b".into(), "eu".into());
    broker.register_node(test_node("n1", 8000, 1 << 34)).unwrap();
    broker.register_node(test_node("n2", 100, 1 << 20)).unwrap();
    broker.register_node(test_node("n3", 9000, 1 << 34)).unwrap();
    let reqs = TaskRequirements { min_cpu_millicores: 4000, min_ram_bytes: 1 << 30, min_scratch_bytes: 1, min_trust_tier: 0 };
    assert_eq!(broker.match_task(&reqs).unwrap(), vec!["n1".to_string(), "n3".to_string()]);
}

#[test]
fn coordinator_creation_defaults() {
    let coord = Coordinator::new("coord-001".into(), 0);
    assert_eq!(coord.coordinator_id, "coord-001");
    assert_eq!(coord.shard_id, 0);
    assert_eq!(coord.raft_term, 0);
    assert_eq!(coord.raft_role, CoordinatorRole::Follower);
}

#[test]
fn is_leader_false_when_follower() {
    let coord = Coordinator::new("coord-001".into(), 0);
    assert!(!coord.is_leader());
}

#[test]
fn is_leader_true_after_become_leader() {
    let mut coord = Coordinator::new("coord-001".into(), 0);
    coord.start_election();
    coord.become_leader();
    assert!(coord.is_leader());
    assert_eq!(coord.raft_role, CoordinatorRole::Leader);
}

#[test]
fn start_election_increments_term_and_sets_candidate() {
    let mut coord = Coordinator::new("coord-001".into(), 0);
    coord.start_election();
    assert_eq!(coord.raft_term, 1);
    assert_eq!(coord.raft_role, CoordinatorRole::Candidate);
    assert!(!coord.is_leader());
}

#[test]
fn step_down_reverts_to_follower() {
    let mut coord = Coordinator::new("coord-001".into(), 0);
    coord.start_election();
    coord.become_leader();
    assert!(coord.is_leader());
    coord.step_down(5);
    assert!(!coord.is_leader());
    assert_eq!(coord.raft_role, CoordinatorRole::Follower);
    assert_eq!(coord.raft_term, 5);
}

#[test]
fn multiple_shards_are_independent() {
    let coord0 = Coordinator::new("coord-A".into(), 0);
    let mut coord1 = Coordinator::new("coord-B".into(), 1);
    coord1.start_election();
    coord1.become_leader();
    assert!(!coord0.is_leader());
    assert!(coord1.is_leader());
    assert_eq!(coord0.shard_id, 0);
    assert_eq!(coord1.shard_id, 1);
}

#[test]
fn raft_storage_append_and_get() {
    let mut storage = RaftCoordinatorStorage::new();
    let entry = RaftLogEntry { term: 1, index: 1, action: CoordinatorAction::Noop };
    assert!(storage.append(entry).is_ok());
    assert_eq!(storage.len(), 1);
    assert_eq!(storage.last_log_index(), 1);
    assert_eq!(storage.last_log_term(), 1);
    assert!(storage.get(1).is_some());
}

#[test]
fn raft_storage_commit_and_apply() {
    let mut storage = RaftCoordinatorStorage::new();
    for i in 1..=3u64 {
        let entry = RaftLogEntry {
            term: 1,
            index: i,
            action: CoordinatorAction::AssignJob { job_id: format!("job-{i}"), donor_id: format!("donor-{i}") },
        };
        storage.append(entry).unwrap();
    }
    storage.set_commit_index(2);
    let applied = storage.apply_committed();
    assert_eq!(applied.len(), 2);
}

#[test]
fn raft_apply_twice_gives_nothing_new() {
    let mut storage = RaftCoordinatorStorage::new();
    for i in 1..=2u64 {
        storage.append(RaftLogEntry { term: 1, index: i, action: CoordinatorAction::Noop }).unwrap();
    }
    storage.set_commit_index(2);
    assert_eq!(storage.apply_committed().len(), 2);
    assert_eq!(storage.apply_committed().len(), 0);
}

#[test]
fn raft_vote_tracking() {
    let mut storage = RaftCoordinatorStorage::new();
    assert!(storage.voted_for(1).is_none());
    storage.record_vote(1, "coord-A".into());
    assert_eq!(storage.voted_for(1), Some("coord-A"));
    assert!(storage.voted_for(2).is_none());
}

#[test]
fn quorum_election_with_peers() {
    let peers = vec!["coord-B".into(), "coord-C".into()];
    let mut coord = Coordinator::with_peers("coord-A".into(), 0, peers);
    assert_eq!(coord.quorum_size(), 2);
    coord.start_election();
    assert_eq!(coord.raft_role, CoordinatorRole::Candidate);
    coord.receive_vote("coord-B", 1, true);
    assert!(coord.is_leader());
}

#[test]
fn leader_can_replicate() {
    let mut coord = Coordinator::new("coord-001".into(), 0);
    coord.start_election();
    coord.become_leader();
    let result = coord.replicate(CoordinatorAction::AssignJob { job_id: "job-1".into(), donor_id: "donor-1".into() });
    assert!(result.is_ok());
    assert_eq!(coord.storage().len(), 2);
}

#[test]
fn follower_cannot_replicate() {
    let mut coord = Coordinator::new("coord-001".into(), 0);
    let result = coord.replicate(CoordinatorAction::Noop);
    assert!(result.is_err());
    assert_eq!(result.unwrap_err().code(), Some(ErrorCode::PermissionDenied));
}

fn test_cid(data: &[u8]) -> Cid {
    compute_cid(data)
}

fn test_task() -> Task {
    Task {
        task_id: "task-001".into(),
        job_id: "job-001".into(),
        state: TaskState::Ready,
        workload_cid: test_cid(b"test workload"),
        replica_count: 3,
        checkpoint_cid: None,
        checkpoint_sequence: 0,
        created_at: Timestamp::now(),
    }
}

#[test]
fn job_valid_transitions() {
    let s = JobState::Queued;
    let s = s.transition(JobState::Dispatching).unwrap();
    let s = s.transition(JobState::Running).unwrap();
    let s = s.transition(JobState::Verifying).unwrap();
    let s = s.transition(JobState::Completed).unwrap();
    assert_eq!(s, JobState::Completed);
}

#[test]
fn job_invalid_transition_rejected() {
    let r = JobState::Queued.transition(JobState::Completed);
    assert!(r.is_err());
    assert_eq!(r.unwrap_err(), "Invalid transition: Queued → Completed");
}

#[test]
fn job_cancel_from_queued() {
    assert!(JobState::Queued.transition(JobState::Cancelled).is_ok());
}

#[test]
fn task_valid_transitions() {
    let mut task = test_task();
    assert!(task.transition(TaskState::Dispatched).is_ok());
    assert!(task.transition(TaskState::Running).is_ok());
    assert!(task.transition(TaskState::Verifying).is_ok());
    assert!(task.transition(TaskState::Accepted).is_ok());
}

#[test]
fn task_checkpoint_cycle() {
    let mut task = test_task();
    assert!(task.transition(TaskState::Dispatched).is_ok());
    assert!(task.transition(TaskState::Running).is_ok());
    assert!(task.transition(TaskState::Checkpointing).is_ok());
    assert!(task.transition(TaskState::Running).is_ok());
}

#[test]
fn task_invalid_transition_rejected() {
    let mut task = test_task();
    assert!(task.transition(TaskState::Accepted).is_err());
    assert_eq!(task.state, TaskState::Ready);
}

fn test_manifest() -> JobManifest {
    JobManifest {
        manifest_cid: None,
        name: "test-job".into(),
        workload_type: WorkloadType::WasmModule,
        workload_cid: test_cid(b"test workload image"),
        command: vec!["run".into()],
        inputs: Vec::new(),
        output_sink: "cid-store".into(),
        resources: ResourceEnvelope {
            cpu_millicores: 1000,
            ram_bytes: 512 * 1024 * 1024,
            gpu_class: None,
            gpu_vram_bytes: 0,
            scratch_bytes: 1024 * 1024 * 1024,
            network_egress_bytes: 0,
            walltime_budget_ms: 3_600_000,
        },
        category: JobCategory::PublicGood,
        confidentiality: ConfidentialityLevel::Public,
        verification: VerificationMethod::ReplicatedQuorum,
        acceptable_use_classes: vec![AcceptableUseClass::Scientific],
        max_wallclock_ms: 3_600_000,
        submitter_signature: vec![1u8; 64],
        allowed_endpoints: Vec::new(),
    }
}

#[test]
fn valid_manifest_passes() {
    assert!(validate_manifest(&test_manifest()).is_ok());
}

#[test]
fn manifest_zero_signature_rejected() {
    let mut m = test_manifest();
    m.submitter_signature = vec![0u8; 64];
    assert!(validate_manifest(&m).is_err());
}

#[test]
fn empty_signature_rejected() {
    let mut m = test_manifest();
    m.submitter_signature = Vec::new();
    assert!(validate_manifest(&m).is_err());
}

#[test]
fn empty_command_rejected() {
    let mut m = test_manifest();
    m.command = Vec::new();
    let e = validate_manifest(&m).unwrap_err();
    assert_eq!(e.code(), Some(ErrorCode::InvalidManifest));
}

#[test]
fn excessive_wallclock_rejected() {
    let mut m = test_manifest();
    m.max_wallclock_ms = 30 * 24 * 3600 * 1000;
    assert!(validate_manifest(&m).is_err());
}

#[test]
fn confidential_high_requires_tee() {
    let mut m = test_manifest();
    m.confidentiality = ConfidentialityLevel::ConfidentialHigh;
    m.verification = VerificationMethod::ReplicatedQuorum;
    assert!(validate_manifest(&m).is_err());
    m.verification = VerificationMethod::TeeAttested;
    assert!(validate_manifest(&m).is_ok());
}

#[test]
fn submitter_creation_with_zero_balance() {
    let s = Submitter::new("did:wc:abc123".into());
    assert_eq!(s.submitter_id, "did:wc:abc123");
    assert_eq!(s.credit_balance, NcuAmount::zero());
    assert_eq!(s.acceptable_use_standing, AcceptableUseStanding::Good);
    assert_eq!(s.total_jobs_submitted, 0);
}

#[test]
fn new_submitter_can_submit() {
    let s = Submitter::new("did:wc:submitter-1".into());
    assert!(s.can_submit());
}

#[test]
fn suspended_submitter_cannot_submit() {
    let mut s = Submitter::new("did:wc:bad-actor".into());
    s.acceptable_use_standing = AcceptableUseStanding::Suspended;
    assert!(!s.can_submit());
}

#[test]
fn under_review_submitter_can_still_submit() {
    let mut s = Submitter::new("did:wc:under-review".into());
    s.acceptable_use_standing = AcceptableUseStanding::UnderReview;
    assert!(s.can_submit());
}

#[test]
fn credit_balance_arithmetic() {
    let mut s = Submitter::new("did:wc:rich".into());
    s.credit_balance = NcuAmount(50_000_000);
    let deducted = s.credit_balance.saturating_sub(NcuAmount(10_000_000));
    assert_eq!(deducted.as_micro_ncu(), 40_000_000);
    assert_eq!(NcuAmount(5).saturating_sub(NcuAmount(9)), NcuAmount(0));
    assert_eq!(NcuAmount(u64::MAX).saturating_add(NcuAmount(1)), NcuAmount(u64::MAX));
}

#[test]
fn adapter_task_status_pending_variant() {
    let s = AdapterTaskStatus::Pending;
    assert_eq!(s, AdapterTaskStatus::Pending);
}

#[test]
fn adapter_task_status_running_variant() {
    let s = AdapterTaskStatus::Running;
    assert_eq!(s, AdapterTaskStatus::Running);
}

#[test]
fn adapter_task_status_failed_variant() {
    let s = AdapterTaskStatus::Failed("out of memory".to_string());
    assert!(matches!(s, AdapterTaskStatus::Failed(_)));
    if let AdapterTaskStatus::Failed(msg) = s {
        assert_eq!(msg, "out of memory");
    }
}

#[test]
fn adapter_task_status_completed_variant() {
    let cid = Cid::new_v1(0x55, 0x12, vec![0u8; 32]).expect("cid");
    let s = AdapterTaskStatus::Completed(cid);
    assert!(matches!(s, AdapterTaskStatus::Completed(_)));
}
