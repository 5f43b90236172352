//! Records of dial attempts: every failure carries its root cause.
use vstd::prelude::*;
use crate::types::now_micros;
use crate::types::{DialOutcome, TransportKind};

verus! {

/// One dial attempt.
#[derive(Debug, Clone)]
pub struct DialAttempt {
    /// When it was made, microseconds since the Unix epoch.
    pub timestamp: i64,
    /// The address dialed.
    pub target_multiaddr: String,
    /// Transport used.
    pub transport: TransportKind,
    /// Outcome.
    pub outcome: DialOutcome,
    /// Root cause of a failure; none for a success.
    pub root_cause: Option<String>,
}

impl DialAttempt {
    /// A successful dial, stamped now.
    pub fn success(target: &str, transport: TransportKind) -> (r: DialAttempt)
        ensures
            r.target_multiaddr@ == target@,
            r.transport == transport,
            r.outcome == DialOutcome::Success,
            r.root_cause is None,
    {
        DialAttempt {
            timestamp: now_micros(),
            target_multiaddr: String::from_str(target),
            transport,
            outcome: DialOutcome::Success,
            root_cause: None,
        }
    }

    /// A failed dial with its root cause, stamped now.
    pub fn failure(target: &str, transport: TransportKind, outcome: DialOutcome, root_cause: &str) -> (r: DialAttempt)
        requires
            !(outcome is Success),
        ensures
            r.target_multiaddr@ == target@,
            r.transport == transport,
            r.outcome == outcome,
            r.root_cause matches Some(c) && c@ == root_cause@,
    {
        DialAttempt {
            timestamp: now_micros(),
            target_multiaddr: String::from_str(target),
            transport,
            outcome,
            root_cause: Some(String::from_str(root_cause)),
        }
    }
}

} // verus!
