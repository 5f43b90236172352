//! Result verification: attestation, replica quorum, receipts, audit
//! sampling and trust tiers.
pub mod attestation;
pub mod quorum;
pub mod receipt;
pub mod audit;
pub mod trust_score;
