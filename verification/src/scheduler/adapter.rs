//! The interface that external compute back-ends implement to take tasks.
use vstd::prelude::*;
use crate::error::WcResult;
use crate::scheduler::ResourceEnvelope;
use crate::types::Cid;

verus! {

/// Status of a task on an external back-end.
#[derive(Debug, PartialEq, Eq)]
pub enum AdapterTaskStatus {
    /// Queued.
    Pending,
    /// Running.
    Running,
    /// Finished, with the CID of its output.
    Completed(Cid),
    /// Failed, with the reason.
    Failed(String),
}

/// A compute back-end (a cluster scheduler, a cloud batch service) that
/// accepts tasks from the federation. Implemented by the back-end's
/// integration.
pub trait ComputeAdapter {
    /// Join the federation.
    fn register(&mut self) -> WcResult<()>;

    /// Leave the federation.
    fn deregister(&mut self) -> WcResult<()>;

    /// Submit a task.
    fn submit_task(&mut self, task_id: &str, workload_cid: Cid, resources: ResourceEnvelope) -> WcResult<()>;

    /// Status of a task.
    fn get_status(&self, task_id: &str) -> WcResult<AdapterTaskStatus>;

    /// Free capacity.
    fn get_capacity(&self) -> ResourceEnvelope;

    /// Whether the back-end is healthy.
    fn health_check(&self) -> WcResult<bool>;
}

} // verus!
