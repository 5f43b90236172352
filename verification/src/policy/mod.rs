//! Deterministic admission policy: the authoritative gate for job admission.
pub mod decision;
pub mod engine;
pub mod rules;
