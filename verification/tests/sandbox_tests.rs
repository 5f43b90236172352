use std::path::PathBuf;
use worldcompute::error::ErrorCode;
use worldcompute::sandbox::apple_vf::AppleVfConfig;
use worldcompute::sandbox::egress::{is_blocked_destination, ApprovedEndpoint, EgressPolicy, EgressProtocol};
use worldcompute::sandbox::firecracker::{
    api_put_outcome, api_put_request, api_response_status, snapshot_request_body, vm_configuration_requests,
    FirecrackerConfig, FirecrackerVmConfig,
};
use worldcompute::sandbox::gpu::{acs_override_from, decide_gpu_passthrough, iommu_singleton_from, is_vga_class, GpuDevice};
use worldcompute::sandbox::hyperv::{windows_capability, HyperVConfig};
use worldcompute::sandbox::{capability_for, Platform, SandboxCapability};
use worldcompute::types::IpAddress;

fn v4(a: u8, b: u8, c: u8, d: u8) -> IpAddress {
    IpAddress::V4(a, b, c, d)
}

#[test]
fn rfc1918_blocked() {
    assert!(is_blocked_destination(&v4(10, 0, 0, 1)));
    assert!(is_blocked_destination(&v4(172, 16, 0, 1)));
    assert!(is_blocked_destination(&v4(192, 168, 1, 1)));
}

#[test]
fn loopback_blocked() {
    assert!(is_blocked_destination(&v4(127, 0, 0, 1)));
    assert!(is_blocked_destination(&IpAddress::V6(0, 0, 0, 0, 0, 0, 0, 1)));
}

#[test]
fn cloud_metadata_blocked() {
    assert!(is_blocked_destination(&v4(169, 254, 169, 254)));
}

#[test]
fn link_local_blocked() {
    assert!(is_blocked_destination(&v4(169, 254, 1, 1)));
}

#[test]
fn public_ip_allowed() {
    assert!(!is_blocked_destination(&v4(8, 8, 8, 8)));
    assert!(!is_blocked_destination(&v4(1, 1, 1, 1)));
}

#[test]
fn default_deny_policy() {
    let policy = EgressPolicy::deny_all();
    assert!(!policy.egress_allowed);
    assert!(policy.approved_endpoints.is_empty());
}

#[test]
fn egress_edges_of_private_ranges() {
    assert!(!is_blocked_destination(&v4(172, 15, 255, 255)));
    assert!(is_blocked_destination(&v4(172, 31, 255, 255)));
    assert!(!is_blocked_destination(&v4(172, 32, 0, 0)));
    assert!(!is_blocked_destination(&v4(0, 0, 0, 0)));
    assert!(is_blocked_destination(&v4(255, 255, 255, 255)));
    assert!(is_blocked_destination(&v4(224, 0, 0, 1)));
    assert!(is_blocked_destination(&IpAddress::V6(0xfe80, 0, 0, 0, 0, 0, 0, 1)));
    assert!(is_blocked_destination(&IpAddress::V6(0xff02, 0, 0, 0, 0, 0, 0, 1)));
    assert!(!is_blocked_destination(&IpAddress::V6(0xfd00, 0, 0, 0, 0, 0, 0, 1)));
    assert!(!is_blocked_destination(&IpAddress::V6(0x2001, 0x4860, 0, 0, 0, 0, 0, 0x8888)));
}

#[test]
fn allow_endpoints_needs_one() {
    let none = EgressPolicy::allow_endpoints(Vec::new(), 10);
    assert!(!none.egress_allowed);
    let one = EgressPolicy::allow_endpoints(
        vec![ApprovedEndpoint { host: "example.org".into(), port: 443, protocol: EgressProtocol::Https }],
        1000,
    );
    assert!(one.egress_allowed);
    assert_eq!(one.approved_endpoints.len(), 1);
    assert_eq!(one.max_egress_bytes, 1000);
}

#[test]
fn apple_vf_default_config_deny_all_egress() {
    let config = AppleVfConfig::default();
    assert!(!config.egress_policy.egress_allowed);
}

#[test]
fn hyperv_default_config_deny_all_egress() {
    let config = HyperVConfig::default();
    assert!(!config.egress_policy.egress_allowed);
}

#[test]
fn default_config_has_deny_all_egress() {
    let config = FirecrackerConfig::default();
    assert!(!config.egress_policy.egress_allowed);
    assert_eq!(config.vcpu_count, 1);
    assert_eq!(config.mem_size_mib, 512);
}

#[test]
fn vm_config_valid() {
    let cfg = FirecrackerVmConfig::new(2, 256, PathBuf::from("/boot/vmlinux"), PathBuf::from("/tmp/rootfs.ext4"));
    assert!(cfg.is_ok());
    let cfg = cfg.unwrap();
    assert_eq!(cfg.vcpu_count, 2);
    assert_eq!(cfg.mem_size_mib, 256);
    assert_eq!(cfg.boot_args, "console=ttyS0 reboot=k panic=1 pci=off");
    assert_eq!(cfg.host_dev_name, "tap0");
}

#[test]
fn vm_config_rejects_zero_vcpus() {
    let result = FirecrackerVmConfig::new(0, 256, PathBuf::from("/boot/vmlinux"), PathBuf::from("/tmp/rootfs.ext4"));
    assert!(result.is_err());
    let err = result.unwrap_err();
    assert!(err.to_text().contains("vcpu_count"), "Error should mention vcpu_count: {}", err.to_text());
}

#[test]
fn vm_config_rejects_low_memory() {
    let result = FirecrackerVmConfig::new(1, 64, PathBuf::from("/boot/vmlinux"), PathBuf::from("/tmp/rootfs.ext4"));
    assert!(result.is_err());
    let err = result.unwrap_err();
    assert!(err.to_text().contains("mem_size_mib"), "Error should mention mem_size_mib: {}", err.to_text());
}

#[test]
fn vm_config_accepts_minimum_values() {
    let result = FirecrackerVmConfig::new(1, 128, PathBuf::from("/boot/vmlinux"), PathBuf::from("/tmp/rootfs.ext4"));
    assert!(result.is_ok());
}

#[test]
fn api_request_counts_body_bytes() {
    let r = api_put_request("/machine-config", "{\"a\":\"é\"}");
    assert_eq!(
        r,
        "PUT /machine-config HTTP/1.1\r\nHost: localhost\r\nContent-Type: application/json\r\nContent-Length: 10\r\nAccept: application/json\r\n\r\n{\"a\":\"é\"}"
    );
}

#[test]
fn api_status_is_read_from_the_first_line() {
    assert_eq!(api_response_status("HTTP/1.1 204 No Content\r\n\r\n"), 204);
    assert_eq!(api_response_status("HTTP/1.1 400 Bad Request\r\n"), 400);
    assert_eq!(api_response_status(""), 0);
    assert_eq!(api_response_status("garbage"), 0);
    assert_eq!(api_response_status("HTTP/1.1 abc"), 0);
}

#[test]
fn api_outcome_accepts_only_2xx() {
    assert!(api_put_outcome("/actions", "HTTP/1.1 204 No Content\r\n\r\n").is_ok());
    let e = api_put_outcome("/actions", "HTTP/1.1 400 Bad Request").unwrap_err();
    assert_eq!(e.kind, ErrorCode::Internal);
    assert_eq!(e.message, "Firecracker API PUT /actions failed with status 400: HTTP/1.1 400 Bad Request");
}

#[test]
fn vm_requests_in_order() {
    let cfg = FirecrackerVmConfig::new(2, 256, PathBuf::from("/boot/vmlinux"), PathBuf::from("/tmp/rootfs.ext4")).unwrap();
    let reqs = vm_configuration_requests(&cfg);
    assert_eq!(reqs.len(), 5);
    assert_eq!(reqs[0].0, "/machine-config");
    assert_eq!(reqs[0].1, "{\"vcpu_count\":2,\"mem_size_mib\":256}");
    assert_eq!(reqs[1].0, "/boot-source");
    assert_eq!(
        reqs[1].1,
        "{\"kernel_image_path\":\"/boot/vmlinux\",\"boot_args\":\"console=ttyS0 reboot=k panic=1 pci=off\"}"
    );
    assert_eq!(reqs[2].0, "/drives/rootfs");
    assert!(reqs[2].1.contains("/tmp/rootfs.ext4"));
    assert_eq!(reqs[3].1, "{\"iface_id\":\"eth0\",\"host_dev_name\":\"tap0\"}");
    assert_eq!(reqs[4].1, "{\"action_type\":\"InstanceStart\"}");
}

#[test]
fn snapshot_body_names_both_files() {
    assert_eq!(
        snapshot_request_body("/s/snap", "/s/mem"),
        "{\"snapshot_type\":\"Full\",\"snapshot_path\":\"/s/snap\",\"mem_file_path\":\"/s/mem\"}"
    );
}

#[test]
fn enumerate_gpus_finds_vga_class() {
    assert!(is_vga_class("0x030000\n"));
    assert!(!is_vga_class("0x060100\n"));
}

#[test]
fn acs_override_detected_via_noiommu() {
    assert!(acs_override_from(Some("Y\n"), None));
}

#[test]
fn acs_override_detected_via_cmdline() {
    assert!(acs_override_from(None, Some("root=/dev/sda1 pcie_acs_override=downstream\n")));
}

#[test]
fn acs_override_not_detected_when_absent() {
    assert!(!acs_override_from(None, None));
    assert!(!acs_override_from(Some("N\n"), Some("root=/dev/sda1\n")));
}

#[test]
fn iommu_singleton_with_one_device() {
    assert!(iommu_singleton_from(true, Ok(1), "/sys/bus/pci/devices/0000:01:00.0").unwrap());
}

#[test]
fn iommu_non_singleton_rejects() {
    assert!(!iommu_singleton_from(true, Ok(2), "/sys/bus/pci/devices/0000:01:00.0").unwrap());
}

#[test]
fn iommu_missing_group_returns_error() {
    let e = iommu_singleton_from(false, Ok(0), "/x/0000:02:00.0").unwrap_err();
    assert_eq!(e.kind, ErrorCode::SandboxUnavailable);
    assert_eq!(e.message, "No IOMMU group found for device /x/0000:02:00.0");
}

#[test]
fn gpu_decision_cases() {
    let gpus = vec![GpuDevice { pci_address: "0000:01:00.0".into(), sysfs_path: PathBuf::from("/sys/bus/pci/devices/0000:01:00.0") }];
    let acs = decide_gpu_passthrough(Ok(true), &gpus, Some(Ok(true)));
    assert!(!acs.eligible);
    let none = decide_gpu_passthrough(Ok(false), &[], None);
    assert!(!none.eligible);
    let ok = decide_gpu_passthrough(Ok(false), &gpus, Some(Ok(true)));
    assert!(ok.eligible);
    assert_eq!(ok.gpu_model.as_deref(), Some("0000:01:00.0"));
    let shared = decide_gpu_passthrough(Ok(false), &gpus, Some(Ok(false)));
    assert!(!shared.eligible);
}

#[test]
fn platform_capabilities() {
    assert_eq!(capability_for(Platform::Linux), SandboxCapability::Firecracker);
    assert_eq!(capability_for(Platform::MacOS), SandboxCapability::AppleVF);
    assert_eq!(capability_for(Platform::Windows), SandboxCapability::HyperV);
    assert_eq!(capability_for(Platform::Browser), SandboxCapability::WasmOnly);
}

#[test]
fn windows_capability_choice() {
    assert_eq!(windows_capability(Some("Enabled\r\n"), Some(true)), Some(SandboxCapability::HyperV));
    assert_eq!(windows_capability(Some("Disabled"), Some(true)), Some(SandboxCapability::Wsl2));
    assert_eq!(windows_capability(Some("Disabled"), Some(false)), None);
    assert_eq!(windows_capability(None, Some(true)), None);
}

#[test]
fn gpu_check_returns_result() {
    let result = worldcompute::sandbox::gpu::non_linux_gpu_result();
    assert!(!result.eligible);
    assert!(result.gpu_model.is_none());
}

#[test]
fn gpu_without_iommu_reading_is_refused() {
    let gpus = vec![GpuDevice { pci_address: "0000:01:00.0".into(), sysfs_path: PathBuf::from("/sys/bus/pci/devices/0000:01:00.0") }];
    let r = decide_gpu_passthrough(Ok(false), &gpus, None);
    assert!(!r.eligible);
    assert_eq!(r.gpu_model.as_deref(), Some("0000:01:00.0"));
    assert_eq!(r.reason, "");
}
