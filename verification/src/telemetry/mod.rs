//! Telemetry settings and the redaction of identifying data from logs.
pub mod redaction;

use vstd::prelude::*;

verus! {

/// Where traces are exported.
#[derive(Debug, Clone)]
pub struct OtlpConfig {
    /// Collector endpoint.
    pub endpoint: String,
    /// Service name attached to traces.
    pub service_name: String,
}

impl OtlpConfig {
    /// Export to `endpoint` as service `worldcompute`.
    pub fn new(endpoint: &str) -> (r: OtlpConfig)
        ensures
            r.endpoint@ == endpoint@,
            r.service_name@ == "worldcompute"@,
    {
        OtlpConfig { endpoint: String::from_str(endpoint), service_name: String::from_str("worldcompute") }
    }
}

} // verus!
