//! Settings of Apple Virtualization.framework sandboxes.
use vstd::prelude::*;
use crate::sandbox::egress::EgressPolicy;

verus! {

/// Apple VF sandbox settings.
#[derive(Debug, Clone)]
pub struct AppleVfConfig {
    /// Virtual CPUs.
    pub cpu_count: u32,
    /// Memory, bytes.
    pub mem_bytes: u64,
    /// Scratch disk, bytes.
    pub scratch_bytes: u64,
    /// Egress policy.
    pub egress_policy: EgressPolicy,
}

impl Default for AppleVfConfig {
    /// One CPU, 512 MiB memory, 1 GiB scratch, no egress.
    fn default() -> (r: AppleVfConfig)
        ensures
            r.cpu_count == 1,
            r.mem_bytes == 512 * 1024 * 1024,
            r.scratch_bytes == 1024 * 1024 * 1024,
            !r.egress_policy.egress_allowed,
            r.egress_policy.approved_endpoints@.len() == 0,
    {
        AppleVfConfig {
            cpu_count: 1,
            mem_bytes: 512 * 1024 * 1024,
            scratch_bytes: 1024 * 1024 * 1024,
            egress_policy: EgressPolicy::deny_all(),
        }
    }
}

} // verus!
