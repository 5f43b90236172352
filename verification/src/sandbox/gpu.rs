//! GPU passthrough eligibility: a GPU may be passed to a VM only when it
//! sits alone in its IOMMU group and no ACS override weakens isolation.
//! The functions here decide from what the host reports; reading sysfs and
//! procfs is left to the caller.
use vstd::prelude::*;
use crate::error::{ErrorCode, WcError};
use crate::external::{trim_text, trimmed_of};
use crate::text::{contains_text, has_infix, has_prefix, join2, starts_with, str_eq};

verus! {

/// Whether a GPU can be passed through, and why.
#[derive(Debug, Clone)]
pub struct GpuPassthroughResult {
    /// Passthrough is safe.
    pub eligible: bool,
    /// PCI address of the GPU considered.
    pub gpu_model: Option<String>,
    /// Its IOMMU group, when known.
    pub iommu_group: Option<u32>,
    /// Human-readable reason.
    pub reason: String,
}

/// A GPU found on the PCI bus.
#[derive(Debug)]
pub struct GpuDevice {
    /// PCI address, e.g. `0000:01:00.0`.
    pub pci_address: String,
    /// Its sysfs directory.
    pub sysfs_path: std::path::PathBuf,
}

/// A PCI `class` file names a VGA controller (class `0x0300xx`).
pub open spec fn spec_is_vga_class(contents: Seq<char>) -> bool {
    has_prefix(trimmed_of(contents), "0x0300"@)
}

/// Whether the contents of a PCI device's `class` file name a VGA controller.
pub fn is_vga_class(class_contents: &str) -> (r: bool)
    ensures
        r == spec_is_vga_class(class_contents@),
{
    let t = trim_text(class_contents);
    starts_with(t.as_str(), "0x0300")
}

/// An ACS override or unsafe no-IOMMU mode is in effect: the vfio
/// `enable_unsafe_noiommu_mode` parameter reads `Y`, or the kernel command
/// line mentions `pcie_acs_override`. Unreadable files count as absent.
pub open spec fn spec_acs_override(noiommu: Option<Seq<char>>, cmdline: Option<Seq<char>>) -> bool {
    (noiommu matches Some(n) && trimmed_of(n) == "Y"@) || (cmdline matches Some(c) && has_infix(c, "pcie_acs_override"@))
}

/// Detect an ACS override from the vfio parameter and the kernel command
/// line (`None` for a file that could not be read).
pub fn acs_override_from(noiommu: Option<&str>, cmdline: Option<&str>) -> (r: bool)
    ensures
        r == spec_acs_override(
            match noiommu {
                Some(s) => Some(s@),
                None => None,
            },
            match cmdline {
                Some(s) => Some(s@),
                None => None,
            },
        ),
{
    if let Some(n) = noiommu {
        let t = trim_text(n);
        if str_eq(t.as_str(), "Y") {
            return true;
        }
    }
    if let Some(c) = cmdline {
        if contains_text(c, "pcie_acs_override") {
            return true;
        }
    }
    false
}

/// Whether a device is alone in its IOMMU group, from whether the group's
/// `devices` directory exists and how many entries it has (or why it could
/// not be read). `device_path` names the device in the error.
pub fn iommu_singleton_from(group_exists: bool, device_count: Result<usize, String>, device_path: &str) -> (r: Result<
    bool,
    WcError,
>)
    ensures
        !group_exists ==> (r matches Err(e) && e.kind == ErrorCode::SandboxUnavailable && e.message@
            == "No IOMMU group found for device "@ + device_path@),
        group_exists ==> match device_count {
            Ok(n) => r == Ok::<bool, WcError>(n == 1),
            Err(m) => (r matches Err(e) && e.kind == ErrorCode::Internal && e.message@
                == "Failed to read IOMMU group devices: "@ + m@),
        },
{
    if !group_exists {
        return Err(WcError::new(ErrorCode::SandboxUnavailable, join2("No IOMMU group found for device ", device_path)));
    }
    match device_count {
        Ok(n) => Ok(n == 1),
        Err(m) => Err(WcError::new(ErrorCode::Internal, join2("Failed to read IOMMU group devices: ", m.as_str()))),
    }
}

/// The result off Linux.
pub fn non_linux_gpu_result() -> (r: GpuPassthroughResult)
    ensures
        !r.eligible,
        r.gpu_model is None,
        r.iommu_group is None,
        r.reason@ == "GPU passthrough is only supported on Linux with IOMMU"@,
{
    GpuPassthroughResult {
        eligible: false,
        gpu_model: None,
        iommu_group: None,
        reason: String::from_str("GPU passthrough is only supported on Linux with IOMMU"),
    }
}

/// The passthrough decision on Linux as values: eligibility, the GPU
/// considered, and the reason. An ACS override rejects first; with no GPU
/// nothing is eligible; else the first GPU is eligible exactly when it is
/// alone in its IOMMU group.
pub open spec fn spec_gpu_decision(
    acs_override: bool,
    gpus: Seq<Seq<char>>,
    iommu: Option<Result<bool, Seq<char>>>,
) -> (bool, Option<Seq<char>>, Seq<char>) {
    if acs_override {
        (false, None, "ACS override detected — unsafe IOMMU bypass, passthrough rejected"@)
    } else if gpus.len() == 0 {
        (false, None, "No VGA controllers (class 0x0300xx) found on PCI bus"@)
    } else {
        match iommu {
            Some(Ok(true)) => (true, Some(gpus[0]), "GPU is in singleton IOMMU group — passthrough safe"@),
            Some(Ok(false)) => (false, Some(gpus[0]), "GPU shares IOMMU group with other devices — passthrough rejected"@),
            Some(Err(m)) => (false, Some(gpus[0]), "IOMMU check failed: "@ + m),
            None => (false, Some(gpus[0]), Seq::empty()),
        }
    }
}

/// The view of a decision.
pub open spec fn gpu_result_view(r: GpuPassthroughResult) -> (bool, Option<Seq<char>>, Seq<char>) {
    (
        r.eligible,
        match r.gpu_model {
            Some(s) => Some(s@),
            None => None,
        },
        r.reason@,
    )
}

/// Decide GPU passthrough from the ACS probe, the GPUs found, and the IOMMU
/// check of the first GPU. A failed ACS probe counts as no override; GPUs
/// found without an IOMMU reading are refused, with an empty reason.
pub fn decide_gpu_passthrough(
    acs: Result<bool, WcError>,
    gpus: &[GpuDevice],
    iommu: Option<Result<bool, WcError>>,
) -> (r: GpuPassthroughResult)
    ensures
        gpu_result_view(r) == spec_gpu_decision(
            acs == Ok::<bool, WcError>(true),
            gpus@.map_values(|g: GpuDevice| g.pci_address@),
            match iommu {
                Some(Ok(b)) => Some(Ok(b)),
                Some(Err(e)) => Some(Err(e.message@)),
                None => None,
            },
        ),
        r.iommu_group is None,
{
    let ghost names = gpus@.map_values(|g: GpuDevice| g.pci_address@);
    if let Ok(true) = acs {
        return GpuPassthroughResult {
            eligible: false,
            gpu_model: None,
            iommu_group: None,
            reason: String::from_str("ACS override detected — unsafe IOMMU bypass, passthrough rejected"),
        };
    }
    if gpus.len() == 0 {
        return GpuPassthroughResult {
            eligible: false,
            gpu_model: None,
            iommu_group: None,
            reason: String::from_str("No VGA controllers (class 0x0300xx) found on PCI bus"),
        };
    }
    let model = gpus[0].pci_address.clone();
    assert(names[0] == model@);
    match iommu {
        Some(Ok(true)) => GpuPassthroughResult {
            eligible: true,
            gpu_model: Some(model),
            iommu_group: None,
            reason: String::from_str("GPU is in singleton IOMMU group — passthrough safe"),
        },
        Some(Ok(false)) => GpuPassthroughResult {
            eligible: false,
            gpu_model: Some(model),
            iommu_group: None,
            reason: String::from_str("GPU shares IOMMU group with other devices — passthrough rejected"),
        },
        Some(Err(e)) => GpuPassthroughResult {
            eligible: false,
            gpu_model: Some(model),
            iommu_group: None,
            reason: join2("IOMMU check failed: ", e.message.as_str()),
        },
        None => GpuPassthroughResult { eligible: false, gpu_model: Some(model), iommu_group: None, reason: String::new() },
    }
}

/// Passthrough is never granted under an ACS override, nor without a
/// singleton IOMMU group.
pub proof fn law_passthrough_needs_isolation(
    acs_override: bool,
    gpus: Seq<Seq<char>>,
    iommu: Option<Result<bool, Seq<char>>>,
)
    requires
        spec_gpu_decision(acs_override, gpus, iommu).0,
    ensures
        !acs_override,
        gpus.len() > 0,
        iommu == Some(Ok::<bool, Seq<char>>(true)),
{
}

} // verus!
