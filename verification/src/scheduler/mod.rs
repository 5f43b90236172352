//! Scheduler: job model, broker, coordinator, manifests and submitters.
use vstd::prelude::*;

pub mod adapter;
pub mod broker;
pub mod coordinator;
pub mod job;
pub mod manifest;
pub mod submitter;

verus! {

/// Job category label used for accounting.
#[derive(Debug, Clone, Copy, PartialEq, Eq, Structural, Hash)]
pub enum JobCategory {
    DonorRedemption,
    PaidSponsored,
    PublicGood,
    SelfImprovement,
}

/// Confidentiality level of a job.
#[derive(Debug, Clone, Copy, PartialEq, Eq, Structural, Hash)]
pub enum ConfidentialityLevel {
    /// Plaintext, any trust tier.
    Public,
    /// Encrypted bundle with attested key release.
    ConfidentialMedium,
    /// Guest-measurement key wrapping; T3 and above only.
    ConfidentialHigh,
}

/// How a task's results are verified.
#[derive(Debug, Clone, Copy, PartialEq, Eq, Structural, Hash)]
pub enum VerificationMethod {
    /// Replicated execution with canonical-hash quorum.
    ReplicatedQuorum,
    /// Single TEE-attested execution.
    TeeAttested,
    /// Custom replication factor.
    CustomReplicas(u32),
}

/// Workload artifact format.
#[derive(Debug, Clone, Copy, PartialEq, Eq, Structural, Hash)]
pub enum WorkloadType {
    OciContainer,
    WasmModule,
}

/// How a workload handles preemption.
#[derive(Debug, Clone, Copy, PartialEq, Eq, Structural, Hash)]
pub enum PreemptClass {
    Yieldable,
    Checkpointable,
    Restartable,
}

/// Resource envelope for a task or a node's capacity.
#[derive(Debug, Clone, Copy, PartialEq, Eq, Structural)]
pub struct ResourceEnvelope {
    pub cpu_millicores: u64,
    pub ram_bytes: u64,
    pub gpu_class: Option<u32>,
    pub gpu_vram_bytes: u64,
    pub scratch_bytes: u64,
    pub network_egress_bytes: u64,
    pub walltime_budget_ms: u64,
}

} // verus!
