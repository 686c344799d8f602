use gpu_monitor::machine::{next_manager, phase_command, phase_step, Phase, ProcEvent, POLL_INTERVAL_SECS};
use gpu_monitor::types::{GpuVendor, MonitorError, PackageManagerKind};

fn exited(success: bool, stdout: &[u8]) -> ProcEvent {
    ProcEvent::Exited { success, stdout: stdout.to_vec() }
}

#[test]
fn each_phase_names_its_subprocess() {
    let c = phase_command(&Phase::IdentifyGpu).unwrap();
    assert_eq!(c.program, "lspci");
    assert_eq!(c.args, vec!["-v"]);

    let c = phase_command(&Phase::ProbeTool(GpuVendor::Amd)).unwrap();
    assert_eq!(c.program, "which");
    assert_eq!(c.args, vec!["radeontop"]);

    let c = phase_command(&Phase::ProbeManager(GpuVendor::Amd, PackageManagerKind::Yum)).unwrap();
    assert_eq!(c.program, "which");
    assert_eq!(c.args, vec!["yum"]);

    let c = phase_command(&Phase::Install(GpuVendor::Intel, PackageManagerKind::Apt)).unwrap();
    assert_eq!(c.program, "apt");
    assert_eq!(c.args, vec!["install", "-y", "intel_gpu_top"]);

    let c = phase_command(&Phase::Poll(GpuVendor::Nvidia)).unwrap();
    assert_eq!(c.program, "nvidia-smi");
    assert_eq!(c.args, vec!["--query-gpu=utilization.gpu", "--format=csv,noheader,nounits"]);

    assert!(phase_command(&Phase::Failed(MonitorError::InstallFailed)).is_none());
}

#[test]
fn managers_are_probed_in_fixed_order() {
    assert_eq!(next_manager(PackageManagerKind::Apt), Some(PackageManagerKind::Pacman));
    assert_eq!(next_manager(PackageManagerKind::Pacman), Some(PackageManagerKind::Yum));
    assert_eq!(next_manager(PackageManagerKind::Yum), None);
}

#[test]
fn tool_probe_exit_signal_decides_presence() {
    let r = phase_step(Phase::ProbeTool(GpuVendor::Nvidia), exited(true, b""));
    assert_eq!(r.next, Phase::Poll(GpuVendor::Nvidia));
    assert!(r.emit.is_none());

    let r = phase_step(Phase::ProbeTool(GpuVendor::Nvidia), exited(false, b""));
    assert_eq!(r.next, Phase::ProbeManager(GpuVendor::Nvidia, PackageManagerKind::Apt));
    assert!(r.emit.is_none());
}

#[test]
fn tool_probe_spawn_failure_is_fatal() {
    let r = phase_step(Phase::ProbeTool(GpuVendor::Amd), ProcEvent::SpawnFailed);
    assert_eq!(r.next, Phase::Failed(MonitorError::ToolExecutionFailed));
}

#[test]
fn identify_spawn_failure_is_fatal() {
    let r = phase_step(Phase::IdentifyGpu, ProcEvent::SpawnFailed);
    assert_eq!(r.next, Phase::Failed(MonitorError::ToolExecutionFailed));
}

#[test]
fn scenario_nvidia_pci_listing_starts_probing() {
    let listing = b"01:00.0 NVIDIA Corporation GA102 VGA compatible controller";
    let r = phase_step(Phase::IdentifyGpu, exited(true, listing));
    assert_eq!(r.next, Phase::ProbeTool(GpuVendor::Nvidia));
    assert!(r.emit.is_none());
}

#[test]
fn scenario_amd_tool_absent_pacman_installs() {
    // The Amd tool is absent: probing starts at Apt.
    let r = phase_step(Phase::ProbeTool(GpuVendor::Amd), exited(false, b""));
    assert_eq!(r.next, Phase::ProbeManager(GpuVendor::Amd, PackageManagerKind::Apt));

    // Apt does not resolve; Pacman does.
    let r = phase_step(r.next, exited(false, b""));
    assert_eq!(r.next, Phase::ProbeManager(GpuVendor::Amd, PackageManagerKind::Pacman));
    let r = phase_step(r.next, exited(true, b"/usr/bin/pacman\n"));
    assert_eq!(r.next, Phase::Install(GpuVendor::Amd, PackageManagerKind::Pacman));

    // The install invocation is exactly `pacman -S --noconfirm radeontop`.
    let c = phase_command(&r.next).unwrap();
    assert_eq!(c.program, "pacman");
    assert_eq!(c.args, vec!["-S", "--noconfirm", "radeontop"]);

    // On exit 0, polling begins with `radeontop -d -`.
    let r = phase_step(r.next, exited(true, b""));
    assert_eq!(r.next, Phase::Poll(GpuVendor::Amd));
    let c = phase_command(&r.next).unwrap();
    assert_eq!(c.program, "radeontop");
    assert_eq!(c.args, vec!["-d", "-"]);
}

#[test]
fn scenario_intel_tool_present_skips_manager_probe() {
    let r = phase_step(Phase::ProbeTool(GpuVendor::Intel), exited(true, b"/usr/bin/intel_gpu_top\n"));
    assert_eq!(r.next, Phase::Poll(GpuVendor::Intel));
}

#[test]
fn scenario_poll_with_invalid_bytes_ends_the_run() {
    let r = phase_step(Phase::Poll(GpuVendor::Nvidia), exited(true, &[0xc3, 0x28]));
    assert_eq!(r.next, Phase::Failed(MonitorError::InvalidOutputEncoding));
    assert!(r.emit.is_none());

    // No further tick changes anything: the failure is terminal.
    let r = phase_step(r.next, exited(true, b"42\n"));
    assert_eq!(r.next, Phase::Failed(MonitorError::InvalidOutputEncoding));
    assert!(r.emit.is_none());
}

#[test]
fn poll_tick_emits_the_trimmed_utilization_line() {
    let r = phase_step(Phase::Poll(GpuVendor::Nvidia), exited(true, b" 42 \n"));
    assert_eq!(r.next, Phase::Poll(GpuVendor::Nvidia));
    assert_eq!(r.emit, Some("GPU Utilization: 42%".to_string()));
}

#[test]
fn poll_spawn_failure_is_fatal() {
    let r = phase_step(Phase::Poll(GpuVendor::Intel), ProcEvent::SpawnFailed);
    assert_eq!(r.next, Phase::Failed(MonitorError::ToolExecutionFailed));
}

#[test]
fn manager_exhaustion_is_fatal() {
    let r = phase_step(
        Phase::ProbeManager(GpuVendor::Amd, PackageManagerKind::Yum),
        exited(false, b""),
    );
    assert_eq!(r.next, Phase::Failed(MonitorError::NoPackageManagerFound));
}

#[test]
fn manager_probe_spawn_failure_is_fatal() {
    let r = phase_step(
        Phase::ProbeManager(GpuVendor::Amd, PackageManagerKind::Apt),
        ProcEvent::SpawnFailed,
    );
    assert_eq!(r.next, Phase::Failed(MonitorError::ToolExecutionFailed));
}

#[test]
fn install_failures_are_fatal() {
    let r = phase_step(Phase::Install(GpuVendor::Amd, PackageManagerKind::Apt), exited(false, b""));
    assert_eq!(r.next, Phase::Failed(MonitorError::InstallFailed));

    let r = phase_step(
        Phase::Install(GpuVendor::Amd, PackageManagerKind::Apt),
        ProcEvent::SpawnFailed,
    );
    assert_eq!(r.next, Phase::Failed(MonitorError::InstallFailed));
}

#[test]
fn identify_with_unknown_listing_is_fatal() {
    let r = phase_step(Phase::IdentifyGpu, exited(true, b"no graphics here"));
    assert_eq!(r.next, Phase::Failed(MonitorError::UnsupportedHardware));
}

#[test]
fn identify_with_invalid_bytes_is_fatal() {
    let r = phase_step(Phase::IdentifyGpu, exited(true, &[0xff, 0x00, 0x80]));
    assert_eq!(r.next, Phase::Failed(MonitorError::InvalidOutputEncoding));
}

#[test]
fn every_error_has_a_message() {
    assert_eq!(MonitorError::UnsupportedHardware.message(), "GPU not found");
    assert_eq!(MonitorError::NoPackageManagerFound.message(), "package manager not found");
    assert!(!MonitorError::ToolExecutionFailed.message().is_empty());
    assert!(!MonitorError::InstallFailed.message().is_empty());
    assert!(!MonitorError::InvalidOutputEncoding.message().is_empty());
}

#[test]
fn polling_interval_is_one_second() {
    assert_eq!(POLL_INTERVAL_SECS, 1);
}
