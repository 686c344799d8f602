//! The monitor's control flow as a state machine: identify the GPU, probe
//! for its tool, pick a package manager if the tool is absent, install, then
//! poll forever. Each phase names one subprocess to run; each subprocess
//! outcome drives one transition. Every error is terminal for the run.

use vstd::prelude::*;
use vstd::string::StringExecFns;
use vstd::utf8::{decode_utf8, valid_utf8};

use crate::identify::{classify_gpu, spec_classify};
use crate::registry::{
    install_command, manager_binary, poll_invocation, spec_install_command, spec_manager_binary,
    spec_poll_args, spec_tool_binary, tool_binary, Invocation,
};
use crate::text::{decode_output, spec_trim, trim_text};
use crate::types::{GpuVendor, MonitorError, PackageManagerKind};

verus! {

/// Seconds slept between two polling ticks.
pub const POLL_INTERVAL_SECS: u64 = 1;

/// Where the monitor stands in its run. A phase other than `Failed` names
/// exactly one subprocess to run next.
#[derive(Clone, Copy, Debug, PartialEq, Eq, Structural)]
pub enum Phase {
    /// Enumerate PCI devices to classify the GPU vendor.
    IdentifyGpu,
    /// Look the vendor's monitoring tool up on the search path.
    ProbeTool(GpuVendor),
    /// Look one package manager's binary up on the search path.
    ProbeManager(GpuVendor, PackageManagerKind),
    /// Install the vendor's package with the manager that resolved.
    Install(GpuVendor, PackageManagerKind),
    /// Poll the monitoring tool, print one utilization line per tick.
    Poll(GpuVendor),
    /// The run is over; nothing more is spawned.
    Failed(MonitorError),
}

/// What became of one spawned subprocess.
#[derive(Debug)]
pub enum ProcEvent {
    /// The process ran to completion with this exit signal and captured output.
    Exited { success: bool, stdout: Vec<u8> },
    /// The process could not be spawned at all.
    SpawnFailed,
}

/// One transition's result: the next phase, and a line to print if the tick
/// produced one.
#[derive(Debug)]
pub struct StepOutcome {
    pub next: Phase,
    pub emit: Option<String>,
}

/// The fixed priority order in which package managers are probed: Apt first,
/// then Pacman, then Yum, then none is left.
pub open spec fn spec_next_manager(m: PackageManagerKind) -> Option<PackageManagerKind> {
    match m {
        PackageManagerKind::Apt => Some(PackageManagerKind::Pacman),
        PackageManagerKind::Pacman => Some(PackageManagerKind::Yum),
        PackageManagerKind::Yum => None,
    }
}

/// The package manager probed after this one, if any is left.
pub fn next_manager(m: PackageManagerKind) -> (r: Option<PackageManagerKind>)
    ensures
        r == spec_next_manager(m),
{
    match m {
        PackageManagerKind::Apt => Some(PackageManagerKind::Pacman),
        PackageManagerKind::Pacman => Some(PackageManagerKind::Yum),
        PackageManagerKind::Yum => None,
    }
}

/// The subprocess each phase runs, as (program, arguments); `Failed` runs
/// none.
pub open spec fn spec_phase_command(p: Phase) -> Option<(Seq<char>, Seq<Seq<char>>)> {
    match p {
        Phase::IdentifyGpu => Some(("lspci"@, seq!["-v"@])),
        Phase::ProbeTool(v) => Some(("which"@, seq![spec_tool_binary(v)])),
        Phase::ProbeManager(_, m) => Some(("which"@, seq![spec_manager_binary(m)])),
        Phase::Install(v, m) => Some(spec_install_command(v, m)),
        Phase::Poll(v) => Some((spec_tool_binary(v), spec_poll_args(v))),
        Phase::Failed(_) => None,
    }
}

/// The phase a subprocess outcome moves the monitor to.
pub open spec fn spec_step_next(p: Phase, e: ProcEvent) -> Phase {
    match p {
        Phase::IdentifyGpu => match e {
            ProcEvent::SpawnFailed => Phase::Failed(MonitorError::ToolExecutionFailed),
            ProcEvent::Exited { success, stdout } => match spec_classify(stdout@) {
                Ok(v) => Phase::ProbeTool(v),
                Err(err) => Phase::Failed(err),
            },
        },
        Phase::ProbeTool(v) => match e {
            ProcEvent::SpawnFailed => Phase::Failed(MonitorError::ToolExecutionFailed),
            ProcEvent::Exited { success, stdout } => if success {
                Phase::Poll(v)
            } else {
                Phase::ProbeManager(v, PackageManagerKind::Apt)
            },
        },
        Phase::ProbeManager(v, m) => match e {
            ProcEvent::SpawnFailed => Phase::Failed(MonitorError::ToolExecutionFailed),
            ProcEvent::Exited { success, stdout } => if success {
                Phase::Install(v, m)
            } else {
                match spec_next_manager(m) {
                    Some(after) => Phase::ProbeManager(v, after),
                    None => Phase::Failed(MonitorError::NoPackageManagerFound),
                }
            },
        },
        Phase::Install(v, m) => match e {
            ProcEvent::SpawnFailed => Phase::Failed(MonitorError::InstallFailed),
            ProcEvent::Exited { success, stdout } => if success {
                Phase::Poll(v)
            } else {
                Phase::Failed(MonitorError::InstallFailed)
            },
        },
        Phase::Poll(v) => match e {
            ProcEvent::SpawnFailed => Phase::Failed(MonitorError::ToolExecutionFailed),
            ProcEvent::Exited { success, stdout } => if valid_utf8(stdout@) {
                Phase::Poll(v)
            } else {
                Phase::Failed(MonitorError::InvalidOutputEncoding)
            },
        },
        Phase::Failed(err) => Phase::Failed(err),
    }
}

/// The utilization line printed for one tick's trimmed output.
pub open spec fn spec_utilization_line(t: Seq<char>) -> Seq<char> {
    "GPU Utilization: "@ + t + "%"@
}

/// The line a transition prints: one per successful polling tick, none
/// anywhere else.
pub open spec fn spec_step_emit(p: Phase, e: ProcEvent) -> Option<Seq<char>> {
    match p {
        Phase::Poll(v) => match e {
            ProcEvent::Exited { success, stdout } => if valid_utf8(stdout@) {
                Some(spec_utilization_line(spec_trim(decode_utf8(stdout@))))
            } else {
                None
            },
            ProcEvent::SpawnFailed => None,
        },
        _ => None,
    }
}

/// The subprocess invocation the given phase asks for.
pub fn phase_command(p: &Phase) -> (r: Option<Invocation>)
    ensures
        r is Some <==> spec_phase_command(*p) is Some,
        r matches Some(inv) ==> Some(inv.view_parts()) == spec_phase_command(*p),
{
    match p {
        Phase::IdentifyGpu => {
            let mut args: Vec<&'static str> = Vec::new();
            args.push("-v");
            proof {
                assert(args.deep_view() =~~= seq!["-v"@]);
            }
            Some(Invocation { program: "lspci", args })
        },
        Phase::ProbeTool(v) => {
            let mut args: Vec<&'static str> = Vec::new();
            args.push(tool_binary(*v));
            proof {
                assert(args.deep_view() =~~= seq![spec_tool_binary(*v)]);
            }
            Some(Invocation { program: "which", args })
        },
        Phase::ProbeManager(_, m) => {
            let mut args: Vec<&'static str> = Vec::new();
            args.push(manager_binary(*m));
            proof {
                assert(args.deep_view() =~~= seq![spec_manager_binary(*m)]);
            }
            Some(Invocation { program: "which", args })
        },
        Phase::Install(v, m) => Some(install_command(*v, *m)),
        Phase::Poll(v) => Some(poll_invocation(*v)),
        Phase::Failed(_) => None,
    }
}

/// Builds the printed utilization line for one tick's trimmed output.
fn utilization_line(t: &str) -> (r: String)
    ensures
        r@ == spec_utilization_line(t@),
{
    let mut line = String::from_str("GPU Utilization: ");
    line.append(t);
    line.append("%");
    line
}

/// Drives the monitor one step: feeds a phase the outcome of the subprocess
/// it asked for, and yields the next phase and the line to print, if any.
pub fn phase_step(p: Phase, e: ProcEvent) -> (r: StepOutcome)
    ensures
        r.next == spec_step_next(p, e),
        r.emit is Some <==> spec_step_emit(p, e) is Some,
        r.emit matches Some(line) ==> Some(line@) == spec_step_emit(p, e),
{
    match p {
        Phase::IdentifyGpu => match e {
            ProcEvent::SpawnFailed => StepOutcome {
                next: Phase::Failed(MonitorError::ToolExecutionFailed),
                emit: None,
            },
            ProcEvent::Exited { success: _, stdout } => match classify_gpu(stdout.as_slice()) {
                Ok(v) => StepOutcome { next: Phase::ProbeTool(v), emit: None },
                Err(err) => StepOutcome { next: Phase::Failed(err), emit: None },
            },
        },
        Phase::ProbeTool(v) => match e {
            ProcEvent::SpawnFailed => StepOutcome {
                next: Phase::Failed(MonitorError::ToolExecutionFailed),
                emit: None,
            },
            ProcEvent::Exited { success, stdout: _ } => if success {
                StepOutcome { next: Phase::Poll(v), emit: None }
            } else {
                StepOutcome { next: Phase::ProbeManager(v, PackageManagerKind::Apt), emit: None }
            },
        },
        Phase::ProbeManager(v, m) => match e {
            ProcEvent::SpawnFailed => StepOutcome {
                next: Phase::Failed(MonitorError::ToolExecutionFailed),
                emit: None,
            },
            ProcEvent::Exited { success, stdout: _ } => if success {
                StepOutcome { next: Phase::Install(v, m), emit: None }
            } else {
                match next_manager(m) {
                    Some(after) => StepOutcome { next: Phase::ProbeManager(v, after), emit: None },
                    None => StepOutcome {
                        next: Phase::Failed(MonitorError::NoPackageManagerFound),
                        emit: None,
                    },
                }
            },
        },
        Phase::Install(v, m) => match e {
            ProcEvent::SpawnFailed => StepOutcome {
                next: Phase::Failed(MonitorError::InstallFailed),
                emit: None,
            },
            ProcEvent::Exited { success, stdout: _ } => if success {
                StepOutcome { next: Phase::Poll(v), emit: None }
            } else {
                StepOutcome { next: Phase::Failed(MonitorError::InstallFailed), emit: None }
            },
        },
        Phase::Poll(v) => match e {
            ProcEvent::SpawnFailed => StepOutcome {
                next: Phase::Failed(MonitorError::ToolExecutionFailed),
                emit: None,
            },
            ProcEvent::Exited { success: _, stdout } => match decode_output(stdout.as_slice()) {
                Some(text) => StepOutcome {
                    next: Phase::Poll(v),
                    emit: Some(utilization_line(trim_text(text.as_str()))),
                },
                None => StepOutcome {
                    next: Phase::Failed(MonitorError::InvalidOutputEncoding),
                    emit: None,
                },
            },
        },
        Phase::Failed(err) => StepOutcome { next: Phase::Failed(err), emit: None },
    }
}

/// Probing the tool never aborts on the lookup's exit signal: exit zero means
/// the tool is present and polling begins, non-zero means it is absent and
/// package-manager probing begins, at Apt. In particular, when the tool is
/// present no package-manager phase is ever entered from here.
pub proof fn lemma_probe_tool_exit(v: GpuVendor, success: bool, stdout: Vec<u8>)
    ensures
        spec_step_next(Phase::ProbeTool(v), ProcEvent::Exited { success, stdout }) == (if success {
            Phase::Poll(v)
        } else {
            Phase::ProbeManager(v, PackageManagerKind::Apt)
        }),
{
}

/// A lookup that cannot even be spawned is a tool-execution failure, never
/// a silent "tool absent".
pub proof fn lemma_probe_spawn_failure(v: GpuVendor)
    ensures
        spec_step_next(Phase::ProbeTool(v), ProcEvent::SpawnFailed) == Phase::Failed(
            MonitorError::ToolExecutionFailed,
        ),
{
}

/// A polling tick whose captured bytes are not valid text ends the run with
/// an encoding error and prints nothing; a tick with valid text keeps
/// polling and prints exactly the trimmed text as a utilization line.
pub proof fn lemma_poll_tick(v: GpuVendor, success: bool, stdout: Vec<u8>)
    ensures
        !valid_utf8(stdout@) ==> spec_step_next(Phase::Poll(v), ProcEvent::Exited { success, stdout })
            == Phase::Failed(MonitorError::InvalidOutputEncoding),
        !valid_utf8(stdout@) ==> spec_step_emit(Phase::Poll(v), ProcEvent::Exited { success, stdout })
            is None,
        valid_utf8(stdout@) ==> spec_step_next(Phase::Poll(v), ProcEvent::Exited { success, stdout })
            == Phase::Poll(v),
        valid_utf8(stdout@) ==> spec_step_emit(Phase::Poll(v), ProcEvent::Exited { success, stdout })
            == Some(spec_utilization_line(spec_trim(decode_utf8(stdout@)))),
{
}

/// Package managers are probed in the fixed order Apt, Pacman, Yum: the
/// first whose lookup exits zero installs, and when all three lookups exit
/// non-zero the run fails with `NoPackageManagerFound` — whatever the
/// lookups printed.
pub proof fn lemma_manager_probe_order(v: GpuVendor, o1: Vec<u8>, o2: Vec<u8>, o3: Vec<u8>)
    ensures
        spec_step_next(
            Phase::ProbeManager(v, PackageManagerKind::Apt),
            ProcEvent::Exited { success: true, stdout: o1 },
        ) == Phase::Install(v, PackageManagerKind::Apt),
        spec_step_next(
            spec_step_next(
                Phase::ProbeManager(v, PackageManagerKind::Apt),
                ProcEvent::Exited { success: false, stdout: o1 },
            ),
            ProcEvent::Exited { success: true, stdout: o2 },
        ) == Phase::Install(v, PackageManagerKind::Pacman),
        spec_step_next(
            spec_step_next(
                spec_step_next(
                    Phase::ProbeManager(v, PackageManagerKind::Apt),
                    ProcEvent::Exited { success: false, stdout: o1 },
                ),
                ProcEvent::Exited { success: false, stdout: o2 },
            ),
            ProcEvent::Exited { success: true, stdout: o3 },
        ) == Phase::Install(v, PackageManagerKind::Yum),
        spec_step_next(
            spec_step_next(
                spec_step_next(
                    Phase::ProbeManager(v, PackageManagerKind::Apt),
                    ProcEvent::Exited { success: false, stdout: o1 },
                ),
                ProcEvent::Exited { success: false, stdout: o2 },
            ),
            ProcEvent::Exited { success: false, stdout: o3 },
        ) == Phase::Failed(MonitorError::NoPackageManagerFound),
{
}

/// Every error is terminal: a failed run stays failed with the same error,
/// whatever else happens.
pub proof fn lemma_failure_is_terminal(err: MonitorError, e: ProcEvent)
    ensures
        spec_step_next(Phase::Failed(err), e) == Phase::Failed(err),
        spec_step_emit(Phase::Failed(err), e) is None,
{
}

} // verus!
