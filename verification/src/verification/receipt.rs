//! Work-unit receipts: the record of a quorum-accepted result and the
//! credits awarded for it.
use vstd::prelude::*;
use crate::error::{ErrorCode, WcError, WcResult};
use crate::types::{Cid, NcuAmount, SignatureBundle};

verus! {

/// Receipt for a verified work unit.
#[derive(Debug)]
pub struct WorkUnitReceipt {
    /// Receipt identifier.
    pub receipt_id: String,
    /// The task it covers.
    pub task_id: String,
    /// The accepted result.
    pub accepted_cid: Cid,
    /// Nodes in the agreeing quorum.
    pub quorum_node_ids: Vec<String>,
    /// Nodes that dissented.
    pub dissenting_node_ids: Vec<String>,
    /// Coordinators' threshold signature.
    pub coordinator_signature: SignatureBundle,
    /// Credits awarded to each node.
    pub ncu_awarded_per_node: Vec<(String, NcuAmount)>,
}

/// The error a receipt is refused with, checked in this order: empty
/// receipt ID, empty task ID, empty quorum, zero signature threshold.
pub open spec fn receipt_defect(r: &WorkUnitReceipt) -> Option<(ErrorCode, Seq<char>)> {
    if r.receipt_id@.len() == 0 {
        Some((ErrorCode::InvalidManifest, "receipt_id is empty"@))
    } else if r.task_id@.len() == 0 {
        Some((ErrorCode::InvalidManifest, "task_id is empty"@))
    } else if r.quorum_node_ids@.len() == 0 {
        Some((ErrorCode::QuorumFailure, "quorum_node_ids must not be empty"@))
    } else if r.coordinator_signature.threshold == 0 {
        Some((ErrorCode::LedgerVerificationFailed, "coordinator_signature threshold must be > 0"@))
    } else {
        None
    }
}

/// Check a receipt's structure: `Ok(true)` when well formed, else the
/// first defect as an error.
pub fn verify_receipt(receipt: &WorkUnitReceipt) -> (r: WcResult<bool>)
    ensures
        r is Ok <==> receipt_defect(receipt) is None,
        r matches Ok(b) ==> b,
        r matches Err(e) ==> receipt_defect(receipt) == Some((e.kind, e.message@)),
{
    if receipt.receipt_id.as_str().unicode_len() == 0 {
        return Err(WcError::with_text(ErrorCode::InvalidManifest, "receipt_id is empty"));
    }
    if receipt.task_id.as_str().unicode_len() == 0 {
        return Err(WcError::with_text(ErrorCode::InvalidManifest, "task_id is empty"));
    }
    if receipt.quorum_node_ids.len() == 0 {
        return Err(WcError::with_text(ErrorCode::QuorumFailure, "quorum_node_ids must not be empty"));
    }
    if receipt.coordinator_signature.threshold == 0 {
        return Err(WcError::with_text(
            ErrorCode::LedgerVerificationFailed,
            "coordinator_signature threshold must be > 0",
        ));
    }
    Ok(true)
}

} // verus!
