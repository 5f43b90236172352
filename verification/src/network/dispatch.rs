//! Task offer and dispatch messages exchanged between coordinator and
//! donors, and their protocol names.
use vstd::prelude::*;
use crate::scheduler::manifest::JobManifest;

verus! {

/// Protocol for task offers.
pub const PROTOCOL_TASK_OFFER: &'static str = "/worldcompute/offer/1.0.0";

/// Protocol for task dispatch.
pub const PROTOCOL_TASK_DISPATCH: &'static str = "/worldcompute/dispatch/1.0.0";

/// An offer of a task to a donor.
#[derive(Debug, Clone)]
pub struct TaskOffer {
    /// Task identifier.
    pub task_id: String,
    /// CID of the job manifest.
    pub manifest_cid: String,
    /// CPU cores needed.
    pub min_cpu_cores: u32,
    /// Memory needed, MiB.
    pub min_memory_mb: u64,
    /// Whether a GPU is needed.
    pub needs_gpu: bool,
    /// Wall-clock budget, milliseconds.
    pub max_wallclock_ms: u64,
}

/// A task sent to a donor for execution.
#[derive(Debug)]
pub struct TaskDispatchRequest {
    /// Task identifier.
    pub task_id: String,
    /// The job manifest.
    pub manifest: JobManifest,
    /// Small inputs sent inline: name and bytes.
    pub inline_inputs: Vec<(String, Vec<u8>)>,
}

/// How a dispatched task ended.
#[derive(Debug, Clone, Copy, PartialEq, Eq, Structural)]
pub enum TaskStatus {
    /// Completed successfully.
    Succeeded,
    /// Failed.
    Failed,
    /// Ran out of time.
    Timeout,
    /// Preempted by the donor.
    Preempted,
}

/// A donor's report on a dispatched task.
#[derive(Debug, Clone)]
pub struct TaskDispatchResponse {
    /// Task identifier.
    pub task_id: String,
    /// Outcome.
    pub status: TaskStatus,
    /// Output bytes.
    pub output: Vec<u8>,
    /// CID of the output, if stored.
    pub output_cid: Option<String>,
    /// Run time, milliseconds.
    pub duration_ms: u64,
    /// Error text, if any.
    pub error: Option<String>,
}

} // verus!
