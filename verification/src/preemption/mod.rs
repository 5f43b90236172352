//! Donor sovereignty: local activity freezes cluster work at once, then it
//! is checkpointed and released. This module holds the events and the
//! accounting of a preemption round; running the sandboxes is the caller's.
pub mod triggers;

use vstd::prelude::*;
use crate::error::WcError;
use crate::sandbox::SandboxCapability;
use crate::text::{join3, str_eq};
use crate::types::Cid;

verus! {

/// Freezes must complete within this many microseconds (10 ms).
pub const FREEZE_BUDGET_US: u64 = 10_000;

/// Outcome of freezing every sandbox.
#[derive(Debug)]
pub struct PreemptionResult {
    /// Sandboxes frozen.
    pub frozen_count: usize,
    /// Time taken, microseconds.
    pub freeze_latency_us: u64,
    /// One line per sandbox that failed to freeze.
    pub errors: Vec<String>,
}

impl PreemptionResult {
    /// Whether the freeze met its 10 ms budget.
    pub fn within_budget(&self) -> (r: bool)
        ensures
            r == (self.freeze_latency_us < FREEZE_BUDGET_US),
    {
        self.freeze_latency_us < FREEZE_BUDGET_US
    }
}

/// Outcome of resuming every sandbox.
#[derive(Debug)]
pub struct ResumeResult {
    /// Sandboxes resumed.
    pub resumed_count: usize,
    /// Time taken, microseconds.
    pub resume_latency_us: u64,
    /// One line per sandbox that failed to resume.
    pub errors: Vec<String>,
}

/// Outcome of checkpointing one sandbox.
#[derive(Debug)]
pub struct CheckpointResult {
    /// The sandbox technology.
    pub capability: SandboxCapability,
    /// CID of the checkpoint, if one was taken.
    pub cid: Option<Cid>,
    /// Time taken, milliseconds.
    pub latency_ms: u64,
}

/// The name of a sandbox technology.
pub open spec fn capability_name(c: SandboxCapability) -> Seq<char> {
    match c {
        SandboxCapability::Firecracker => "Firecracker"@,
        SandboxCapability::AppleVF => "AppleVF"@,
        SandboxCapability::HyperV => "HyperV"@,
        SandboxCapability::Wsl2 => "Wsl2"@,
        SandboxCapability::WasmOnly => "WasmOnly"@,
    }
}

fn capability_text(c: SandboxCapability) -> (r: &'static str)
    ensures
        r@ == capability_name(c),
{
    match c {
        SandboxCapability::Firecracker => "Firecracker",
        SandboxCapability::AppleVF => "AppleVF",
        SandboxCapability::HyperV => "HyperV",
        SandboxCapability::Wsl2 => "Wsl2",
        SandboxCapability::WasmOnly => "WasmOnly",
    }
}

/// Sandboxes whose operation succeeded.
pub open spec fn successes(outcomes: Seq<(SandboxCapability, Result<(), WcError>)>) -> nat {
    outcomes.filter(|o: (SandboxCapability, Result<(), WcError>)| o.1 is Ok).len()
}

/// One line per failure: the sandbox's name and the error's message.
pub open spec fn failure_lines(outcomes: Seq<(SandboxCapability, Result<(), WcError>)>) -> Seq<Seq<char>> {
    outcomes.filter(|o: (SandboxCapability, Result<(), WcError>)| o.1 is Err).map_values(
        |o: (SandboxCapability, Result<(), WcError>)| capability_name(o.0) + ": "@ + o.1->Err_0.message@,
    )
}

fn tally(outcomes: &Vec<(SandboxCapability, Result<(), WcError>)>) -> (r: (usize, Vec<String>))
    ensures
        r.0 == successes(outcomes@),
        r.1@.map_values(|s: String| s@) == failure_lines(outcomes@),
{
    let ghost ok = |o: (SandboxCapability, Result<(), WcError>)| o.1 is Ok;
    let ghost bad = |o: (SandboxCapability, Result<(), WcError>)| o.1 is Err;
    let ghost line = |o: (SandboxCapability, Result<(), WcError>)| capability_name(o.0) + ": "@ + o.1->Err_0.message@;
    let mut count: usize = 0;
    let mut errors: Vec<String> = Vec::new();
    let mut i: usize = 0;
    while i < outcomes.len()
        invariant
            i <= outcomes@.len(),
            ok == (|o: (SandboxCapability, Result<(), WcError>)| o.1 is Ok),
            bad == (|o: (SandboxCapability, Result<(), WcError>)| o.1 is Err),
            line == (|o: (SandboxCapability, Result<(), WcError>)| capability_name(o.0) + ": "@ + o.1->Err_0.message@),
            count == outcomes@.take(i as int).filter(ok).len(),
            count <= i,
            errors@.map_values(|s: String| s@) =~= outcomes@.take(i as int).filter(bad).map_values(line),
        decreases outcomes@.len() - i,
    {
        proof {
            outcomes@.take(i as int).lemma_filter_push(outcomes@[i as int], ok);
            outcomes@.take(i as int).lemma_filter_push(outcomes@[i as int], bad);
            assert(outcomes@.take(i as int + 1) =~= outcomes@.take(i as int).push(outcomes@[i as int]));
        }
        match &outcomes[i].1 {
            Ok(()) => {
                count = count + 1;
            },
            Err(e) => {
                let ghost before = errors@;
                let l = join3(capability_text(outcomes[i].0), ": ", e.message.as_str());
                errors.push(l);
                assert(errors@.map_values(|s: String| s@) =~= before.map_values(|s: String| s@).push(l@));
            },
        }
        i = i + 1;
    }
    assert(outcomes@.take(outcomes@.len() as int) =~= outcomes@);
    (count, errors)
}

/// Account for a freeze round from each sandbox's outcome and the time the
/// round took.
pub fn summarize_freeze(outcomes: &Vec<(SandboxCapability, Result<(), WcError>)>, latency_us: u64) -> (r:
    PreemptionResult)
    ensures
        r.frozen_count == successes(outcomes@),
        r.freeze_latency_us == latency_us,
        r.errors@.map_values(|s: String| s@) == failure_lines(outcomes@),
{
    let (frozen_count, errors) = tally(outcomes);
    PreemptionResult { frozen_count, freeze_latency_us: latency_us, errors }
}

/// Account for a resume round from each sandbox's outcome and the time the
/// round took.
pub fn summarize_resume(outcomes: &Vec<(SandboxCapability, Result<(), WcError>)>, latency_us: u64) -> (r:
    ResumeResult)
    ensures
        r.resumed_count == successes(outcomes@),
        r.resume_latency_us == latency_us,
        r.errors@.map_values(|s: String| s@) == failure_lines(outcomes@),
{
    let (resumed_count, errors) = tally(outcomes);
    ResumeResult { resumed_count, resume_latency_us: latency_us, errors }
}

/// Every sandbox is counted once: as frozen or as an error line.
pub proof fn law_every_sandbox_accounted(outcomes: Seq<(SandboxCapability, Result<(), WcError>)>)
    ensures
        successes(outcomes) + failure_lines(outcomes).len() == outcomes.len(),
    decreases outcomes.len(),
{
    let ok = |o: (SandboxCapability, Result<(), WcError>)| o.1 is Ok;
    let bad = |o: (SandboxCapability, Result<(), WcError>)| o.1 is Err;
    if outcomes.len() > 0 {
        let init = outcomes.drop_last();
        law_every_sandbox_accounted(init);
        assert(init.push(outcomes.last()) =~= outcomes);
        init.lemma_filter_push(outcomes.last(), ok);
        init.lemma_filter_push(outcomes.last(), bad);
    }
}

} // verus!
