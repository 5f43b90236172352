//! Workflow, job, task and replica state machines.
use vstd::prelude::*;
use crate::text::join4;
use crate::types::{Cid, Timestamp};

verus! {

/// Workflow state.
#[derive(Debug, Clone, Copy, PartialEq, Eq, Structural, Hash)]
pub enum WorkflowState {
    Pending,
    Running,
    Checkpointed,
    Completed,
    Failed,
}

/// Job state.
#[derive(Debug, Clone, Copy, PartialEq, Eq, Structural, Hash)]
pub enum JobState {
    Queued,
    Dispatching,
    Running,
    Verifying,
    Completed,
    Checkpointed,
    Failed,
    Cancelled,
}

/// Task state.
#[derive(Debug, Clone, Copy, PartialEq, Eq, Structural, Hash)]
pub enum TaskState {
    Ready,
    Dispatched,
    Running,
    Checkpointing,
    Verifying,
    Accepted,
    Failed,
}

/// Replica state.
#[derive(Debug, Clone, Copy, PartialEq, Eq, Structural, Hash)]
pub enum ReplicaState {
    Leased,
    Running,
    Checkpointing,
    Completed,
    Failed,
    Preempted,
    Expired,
}

/// The transitions a job may take.
pub open spec fn job_step_allowed(from: JobState, to: JobState) -> bool {
    match (from, to) {
        (JobState::Queued, JobState::Dispatching) => true,
        (JobState::Dispatching, JobState::Running) => true,
        (JobState::Running, JobState::Verifying) => true,
        (JobState::Running, JobState::Checkpointed) => true,
        (JobState::Running, JobState::Failed) => true,
        (JobState::Verifying, JobState::Completed) => true,
        (JobState::Verifying, JobState::Failed) => true,
        (JobState::Checkpointed, JobState::Dispatching) => true,
        (JobState::Queued, JobState::Cancelled) => true,
        (JobState::Dispatching, JobState::Cancelled) => true,
        (JobState::Running, JobState::Cancelled) => true,
        _ => false,
    }
}

/// The transitions a task may take.
pub open spec fn task_step_allowed(from: TaskState, to: TaskState) -> bool {
    match (from, to) {
        (TaskState::Ready, TaskState::Dispatched) => true,
        (TaskState::Dispatched, TaskState::Running) => true,
        (TaskState::Running, TaskState::Checkpointing) => true,
        (TaskState::Running, TaskState::Verifying) => true,
        (TaskState::Running, TaskState::Failed) => true,
        (TaskState::Checkpointing, TaskState::Running) => true,
        (TaskState::Verifying, TaskState::Accepted) => true,
        (TaskState::Verifying, TaskState::Failed) => true,
        _ => false,
    }
}

/// The name of a job state.
pub open spec fn job_state_name(s: JobState) -> Seq<char> {
    match s {
        JobState::Queued => "Queued"@,
        JobState::Dispatching => "Dispatching"@,
        JobState::Running => "Running"@,
        JobState::Verifying => "Verifying"@,
        JobState::Completed => "Completed"@,
        JobState::Checkpointed => "Checkpointed"@,
        JobState::Failed => "Failed"@,
        JobState::Cancelled => "Cancelled"@,
    }
}

/// The name of a task state.
pub open spec fn task_state_name(s: TaskState) -> Seq<char> {
    match s {
        TaskState::Ready => "Ready"@,
        TaskState::Dispatched => "Dispatched"@,
        TaskState::Running => "Running"@,
        TaskState::Checkpointing => "Checkpointing"@,
        TaskState::Verifying => "Verifying"@,
        TaskState::Accepted => "Accepted"@,
        TaskState::Failed => "Failed"@,
    }
}

/// Message for a refused transition between two named states.
pub open spec fn transition_refusal(from: Seq<char>, to: Seq<char>) -> Seq<char> {
    "Invalid transition: "@ + from + " → "@ + to
}

impl JobState {
    /// The state's name.
    pub fn name(self) -> (r: &'static str)
        ensures
            r@ == job_state_name(self),
    {
        match self {
            JobState::Queued => "Queued",
            JobState::Dispatching => "Dispatching",
            JobState::Running => "Running",
            JobState::Verifying => "Verifying",
            JobState::Completed => "Completed",
            JobState::Checkpointed => "Checkpointed",
            JobState::Failed => "Failed",
            JobState::Cancelled => "Cancelled",
        }
    }

    /// The state a job moves to, or the refusal message when the transition
    /// is not allowed.
    pub fn transition(self, new_state: JobState) -> (r: Result<JobState, String>)
        ensures
            r is Ok <==> job_step_allowed(self, new_state),
            r matches Ok(s) ==> s == new_state,
            r matches Err(m) ==> m@ == transition_refusal(job_state_name(self), job_state_name(new_state)),
    {
        let valid = match (self, new_state) {
            (JobState::Queued, JobState::Dispatching) => true,
            (JobState::Dispatching, JobState::Running) => true,
            (JobState::Running, JobState::Verifying) => true,
            (JobState::Running, JobState::Checkpointed) => true,
            (JobState::Running, JobState::Failed) => true,
            (JobState::Verifying, JobState::Completed) => true,
            (JobState::Verifying, JobState::Failed) => true,
            (JobState::Checkpointed, JobState::Dispatching) => true,
            (JobState::Queued, JobState::Cancelled) => true,
            (JobState::Dispatching, JobState::Cancelled) => true,
            (JobState::Running, JobState::Cancelled) => true,
            _ => false,
        };
        if valid {
            Ok(new_state)
        } else {
            Err(join4("Invalid transition: ", self.name(), " → ", new_state.name()))
        }
    }
}

impl TaskState {
    /// The state's name.
    pub fn name(self) -> (r: &'static str)
        ensures
            r@ == task_state_name(self),
    {
        match self {
            TaskState::Ready => "Ready",
            TaskState::Dispatched => "Dispatched",
            TaskState::Running => "Running",
            TaskState::Checkpointing => "Checkpointing",
            TaskState::Verifying => "Verifying",
            TaskState::Accepted => "Accepted",
            TaskState::Failed => "Failed",
        }
    }
}

/// A live task instance, the atomic scheduling unit.
#[derive(Debug)]
pub struct Task {
    pub task_id: String,
    pub job_id: String,
    pub state: TaskState,
    pub workload_cid: Cid,
    pub replica_count: u32,
    pub checkpoint_cid: Option<Cid>,
    pub checkpoint_sequence: u32,
    pub created_at: Timestamp,
}

/// A single replica execution instance.
#[derive(Debug)]
pub struct Replica {
    pub replica_id: String,
    pub task_id: String,
    pub node_id: String,
    pub state: ReplicaState,
    pub result_cid: Option<Cid>,
    pub execution_ms: Option<u64>,
    pub lease_expires_at: Timestamp,
}

impl Task {
    /// Move to `new_state` if the task state machine allows it; otherwise
    /// leave the task unchanged and return the refusal message.
    pub fn transition(&mut self, new_state: TaskState) -> (r: Result<(), String>)
        ensures
            r is Ok <==> task_step_allowed(old(self).state, new_state),
            r is Ok ==> final(self).state == new_state,
            r matches Err(m) ==> m@ == transition_refusal(
                task_state_name(old(self).state),
                task_state_name(new_state),
            ) && final(self).state == old(self).state,
            final(self).task_id == old(self).task_id,
            final(self).job_id == old(self).job_id,
            final(self).workload_cid == old(self).workload_cid,
            final(self).replica_count == old(self).replica_count,
            final(self).checkpoint_cid == old(self).checkpoint_cid,
            final(self).checkpoint_sequence == old(self).checkpoint_sequence,
            final(self).created_at == old(self).created_at,
    {
        let valid = match (self.state, new_state) {
            (TaskState::Ready, TaskState::Dispatched) => true,
            (TaskState::Dispatched, TaskState::Running) => true,
            (TaskState::Running, TaskState::Checkpointing) => true,
            (TaskState::Running, TaskState::Verifying) => true,
            (TaskState::Running, TaskState::Failed) => true,
            (TaskState::Checkpointing, TaskState::Running) => true,
            (TaskState::Verifying, TaskState::Accepted) => true,
            (TaskState::Verifying, TaskState::Failed) => true,
            _ => false,
        };
        if valid {
            self.state = new_state;
            Ok(())
        } else {
            Err(join4("Invalid transition: ", self.state.name(), " → ", new_state.name()))
        }
    }
}

/// Completed, Failed and Cancelled jobs never leave their state.
pub proof fn law_job_terminal_states(to: JobState)
    ensures
        !job_step_allowed(JobState::Completed, to),
        !job_step_allowed(JobState::Failed, to),
        !job_step_allowed(JobState::Cancelled, to),
{
}

/// Accepted and Failed tasks never leave their state.
pub proof fn law_task_terminal_states(to: TaskState)
    ensures
        !task_step_allowed(TaskState::Accepted, to),
        !task_step_allowed(TaskState::Failed, to),
{
}

/// No transition leads back to Queued or Ready: jobs and tasks are never
/// re-queued, and no state moves to itself.
pub proof fn law_no_requeue(jf: JobState, tf: TaskState)
    ensures
        !job_step_allowed(jf, JobState::Queued),
        !task_step_allowed(tf, TaskState::Ready),
        !job_step_allowed(jf, jf),
        !task_step_allowed(tf, tf),
{
}

} // verus!
