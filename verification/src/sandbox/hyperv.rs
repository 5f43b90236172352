//! Settings of Hyper-V sandboxes and the choice between Hyper-V and WSL2.
use vstd::prelude::*;
use crate::external::{trim_text, trimmed_of};
use crate::sandbox::egress::EgressPolicy;
use crate::sandbox::SandboxCapability;
use crate::text::str_eq;

verus! {

/// Hyper-V sandbox settings.
#[derive(Debug, Clone)]
pub struct HyperVConfig {
    /// Virtual CPUs.
    pub cpu_count: u32,
    /// Memory, bytes.
    pub mem_bytes: u64,
    /// Scratch disk, bytes.
    pub scratch_bytes: u64,
    /// Egress policy.
    pub egress_policy: EgressPolicy,
}

impl Default for HyperVConfig {
    /// One CPU, 512 MiB memory, 1 GiB scratch, no egress.
    fn default() -> (r: HyperVConfig)
        ensures
            r.cpu_count == 1,
            r.mem_bytes == 512 * 1024 * 1024,
            r.scratch_bytes == 1024 * 1024 * 1024,
            !r.egress_policy.egress_allowed,
            r.egress_policy.approved_endpoints@.len() == 0,
    {
        HyperVConfig {
            cpu_count: 1,
            mem_bytes: 512 * 1024 * 1024,
            scratch_bytes: 1024 * 1024 * 1024,
            egress_policy: EgressPolicy::deny_all(),
        }
    }
}

/// The Windows sandbox from the probes: the Hyper-V feature state reported
/// as `Enabled` gives Hyper-V; else a working WSL gives WSL2; a probe that
/// could not run gives nothing.
pub open spec fn spec_windows_capability(hyperv_state: Option<Seq<char>>, wsl_ok: Option<bool>) -> Option<
    SandboxCapability,
> {
    match hyperv_state {
        None => None,
        Some(state) => if trimmed_of(state) == "Enabled"@ {
            Some(SandboxCapability::HyperV)
        } else {
            match wsl_ok {
                Some(true) => Some(SandboxCapability::Wsl2),
                _ => None,
            }
        },
    }
}

/// Decide the Windows sandbox from the Hyper-V feature probe's output and
/// the WSL status probe's success (`None` for a probe that could not run).
pub fn windows_capability(hyperv_state: Option<&str>, wsl_ok: Option<bool>) -> (r: Option<SandboxCapability>)
    ensures
        r == spec_windows_capability(
            match hyperv_state {
                Some(s) => Some(s@),
                None => None,
            },
            wsl_ok,
        ),
{
    match hyperv_state {
        None => None,
        Some(state) => {
            let t = trim_text(state);
            if str_eq(t.as_str(), "Enabled") {
                Some(SandboxCapability::HyperV)
            } else {
                match wsl_ok {
                    Some(true) => Some(SandboxCapability::Wsl2),
                    _ => None,
                }
            }
        },
    }
}

} // verus!
