//! Submitters: parties that request compute work.
use vstd::prelude::*;
use crate::types::NcuAmount;

verus! {

/// Standing of a submitter with respect to acceptable-use policy.
#[derive(Debug, Clone, Copy, PartialEq, Eq, Structural)]
pub enum AcceptableUseStanding {
    Good,
    UnderReview,
    Suspended,
}

/// A party that submits jobs. No field affects scheduling priority.
#[derive(Debug)]
pub struct Submitter {
    pub submitter_id: String,
    pub credit_balance: NcuAmount,
    pub acceptable_use_standing: AcceptableUseStanding,
    pub total_jobs_submitted: u64,
}

impl Submitter {
    /// A submitter with zero balance, good standing and no jobs.
    pub fn new(submitter_id: String) -> (r: Submitter)
        ensures
            r.submitter_id@ == submitter_id@,
            r.credit_balance.0 == 0,
            r.acceptable_use_standing == AcceptableUseStanding::Good,
            r.total_jobs_submitted == 0,
    {
        Submitter {
            submitter_id,
            credit_balance: NcuAmount(0),
            acceptable_use_standing: AcceptableUseStanding::Good,
            total_jobs_submitted: 0,
        }
    }

    /// Whether the submitter may submit new jobs: all but suspended ones may.
    pub fn can_submit(&self) -> (r: bool)
        ensures
            r == (self.acceptable_use_standing != AcceptableUseStanding::Suspended),
    {
        self.acceptable_use_standing != AcceptableUseStanding::Suspended
    }
}

} // verus!
