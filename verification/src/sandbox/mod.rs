//! Sandbox policy: platforms and their sandbox technology, egress rules,
//! GPU passthrough eligibility and VM configuration.
pub mod apple_vf;
pub mod egress;
pub mod firecracker;
pub mod gpu;
pub mod hyperv;

use vstd::prelude::*;
use crate::error::WcError;
use crate::types::{Cid, DurationMs};

verus! {

/// Host platform.
#[derive(Debug, Clone, Copy, PartialEq, Eq, Structural, Hash)]
pub enum Platform {
    /// Linux.
    Linux,
    /// macOS.
    MacOS,
    /// Windows.
    Windows,
    /// A web browser.
    Browser,
    /// A mobile OS.
    Mobile,
}

/// Sandbox technology.
#[derive(Debug, Clone, Copy, PartialEq, Eq, Structural, Hash)]
pub enum SandboxCapability {
    /// Firecracker microVMs (Linux, KVM).
    Firecracker,
    /// Apple Virtualization.framework.
    AppleVF,
    /// Hyper-V.
    HyperV,
    /// WSL2 on Windows Home.
    Wsl2,
    /// WebAssembly only.
    WasmOnly,
}

/// The sandbox each platform uses.
pub open spec fn spec_capability_for(p: Platform) -> SandboxCapability {
    match p {
        Platform::Linux => SandboxCapability::Firecracker,
        Platform::MacOS => SandboxCapability::AppleVF,
        Platform::Windows => SandboxCapability::HyperV,
        Platform::Browser | Platform::Mobile => SandboxCapability::WasmOnly,
    }
}

/// The sandbox technology of a platform: Firecracker on Linux, AppleVF on
/// macOS, Hyper-V on Windows, WebAssembly elsewhere.
pub fn capability_for(platform: Platform) -> (r: SandboxCapability)
    ensures
        r == spec_capability_for(platform),
{
    match platform {
        Platform::Linux => SandboxCapability::Firecracker,
        Platform::MacOS => SandboxCapability::AppleVF,
        Platform::Windows => SandboxCapability::HyperV,
        Platform::Browser | Platform::Mobile => SandboxCapability::WasmOnly,
    }
}

/// The lifecycle of a sandbox driver. Implemented by each platform's
/// driver, which runs the hypervisor.
pub trait Sandbox {
    /// Create the sandbox for a workload.
    fn create(&mut self, workload_cid: &Cid) -> Result<(), WcError>;

    /// Start the workload.
    fn start(&mut self) -> Result<(), WcError>;

    /// Freeze the workload; meant to finish within 10 ms.
    fn freeze(&mut self) -> Result<(), WcError>;

    /// Checkpoint the workload within the budget; the CID of the snapshot.
    fn checkpoint(&mut self, budget: DurationMs) -> Result<Cid, WcError>;

    /// Stop the workload and release its resources.
    fn terminate(&mut self) -> Result<(), WcError>;

    /// Remove everything the sandbox left on the host.
    fn cleanup(&mut self) -> Result<(), WcError>;

    /// Whether GPU passthrough is available and safe; none unless the
    /// driver says so.
    fn gpu_available(&self) -> (r: bool)
        default_ensures
            !r,
    {
        false
    }

    /// The sandbox technology.
    fn capability(&self) -> SandboxCapability;
}

} // verus!
