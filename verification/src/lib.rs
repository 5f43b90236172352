//! World Compute core library: scheduling, admission policy, result
//! verification, network policy and sandbox policy for a volunteer compute
//! federation, with machine-checked contracts.
#![allow(unused_imports)]

pub mod acceptable_use;
pub mod error;
pub mod policy;
pub mod preemption;
pub mod registry;
pub mod sandbox;
pub mod external;
pub mod keyed;
pub mod network;
pub mod scheduler;
pub mod telemetry;
pub mod text;
pub mod types;
pub mod verification;
