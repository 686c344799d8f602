//! The closed variant sets the monitor works over, and its error taxonomy.

use vstd::prelude::*;

verus! {

/// The GPU manufacturer classes the monitor supports. Determined once per
/// run and immutable afterwards.
#[derive(Clone, Copy, Debug, PartialEq, Eq, Structural)]
pub enum GpuVendor {
    Nvidia,
    Amd,
    Intel,
}

/// The package-manager families that can install a missing monitoring tool.
/// Determined at most once per run, only when the tool is absent.
#[derive(Clone, Copy, Debug, PartialEq, Eq, Structural)]
pub enum PackageManagerKind {
    Apt,
    Pacman,
    Yum,
}

/// Every failure the monitor can report. Each one is fatal for the run:
/// no error is caught and retried anywhere.
#[derive(Clone, Copy, Debug, PartialEq, Eq, Structural)]
pub enum MonitorError {
    /// A required subprocess could not be spawned.
    ToolExecutionFailed,
    /// The PCI listing names no supported GPU vendor.
    UnsupportedHardware,
    /// The tool is absent and no known package manager resolves.
    NoPackageManagerFound,
    /// The install subprocess failed to spawn or exited non-zero.
    InstallFailed,
    /// Captured subprocess bytes are not valid text.
    InvalidOutputEncoding,
}

/// The user-visible message for each error.
pub open spec fn spec_error_message(e: MonitorError) -> Seq<char> {
    match e {
        MonitorError::ToolExecutionFailed => "failed to execute a required command"@,
        MonitorError::UnsupportedHardware => "GPU not found"@,
        MonitorError::NoPackageManagerFound => "package manager not found"@,
        MonitorError::InstallFailed => "failed to install the monitoring tool"@,
        MonitorError::InvalidOutputEncoding => "command output was not valid UTF-8"@,
    }
}

impl MonitorError {
    /// A human-readable description of the failure.
    pub fn message(&self) -> (r: &'static str)
        ensures
            r@ == spec_error_message(*self),
    {
        match self {
            MonitorError::ToolExecutionFailed => "failed to execute a required command",
            MonitorError::UnsupportedHardware => "GPU not found",
            MonitorError::NoPackageManagerFound => "package manager not found",
            MonitorError::InstallFailed => "failed to install the monitoring tool",
            MonitorError::InvalidOutputEncoding => "command output was not valid UTF-8",
        }
    }
}

} // verus!
