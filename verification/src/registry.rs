//! The tool registry: pure mappings from a vendor to its monitoring tool,
//! install package and polling invocation, and from a package manager to the
//! words of its install command.

use vstd::prelude::*;

use crate::types::{GpuVendor, PackageManagerKind};

verus! {

/// One subprocess invocation: a program and its argument list.
#[derive(Debug)]
pub struct Invocation {
    pub program: &'static str,
    pub args: Vec<&'static str>,
}

impl Invocation {
    /// The invocation as (program, arguments), each a character sequence.
    pub open spec fn view_parts(self) -> (Seq<char>, Seq<Seq<char>>) {
        (self.program@, self.args.deep_view())
    }
}

/// The monitoring-tool binary expected for each vendor.
pub open spec fn spec_tool_binary(v: GpuVendor) -> Seq<char> {
    match v {
        GpuVendor::Nvidia => "nvidia-smi"@,
        GpuVendor::Amd => "radeontop"@,
        GpuVendor::Intel => "intel_gpu_top"@,
    }
}

/// The package installed for each vendor when its tool is absent.
pub open spec fn spec_install_package(v: GpuVendor) -> Seq<char> {
    match v {
        GpuVendor::Nvidia => "nvidia-smi"@,
        GpuVendor::Amd => "radeontop"@,
        GpuVendor::Intel => "intel_gpu_top"@,
    }
}

/// The binary of each package-manager family.
pub open spec fn spec_manager_binary(m: PackageManagerKind) -> Seq<char> {
    match m {
        PackageManagerKind::Apt => "apt"@,
        PackageManagerKind::Pacman => "pacman"@,
        PackageManagerKind::Yum => "yum"@,
    }
}

/// The install subcommand of each package-manager family.
pub open spec fn spec_install_verb(m: PackageManagerKind) -> Seq<char> {
    match m {
        PackageManagerKind::Apt => "install"@,
        PackageManagerKind::Pacman => "-S"@,
        PackageManagerKind::Yum => "install"@,
    }
}

/// The non-interactive flag of each package-manager family.
pub open spec fn spec_assume_yes_flag(m: PackageManagerKind) -> Seq<char> {
    match m {
        PackageManagerKind::Apt => "-y"@,
        PackageManagerKind::Pacman => "--noconfirm"@,
        PackageManagerKind::Yum => "-y"@,
    }
}

/// The argument list the monitoring tool is polled with.
pub open spec fn spec_poll_args(v: GpuVendor) -> Seq<Seq<char>> {
    match v {
        GpuVendor::Nvidia => seq![
            "--query-gpu=utilization.gpu"@,
            "--format=csv,noheader,nounits"@,
        ],
        GpuVendor::Amd => seq!["-d"@, "-"@],
        GpuVendor::Intel => seq!["-s"@, "1"@, "-o"@, "-"@],
    }
}

/// The full install command for a vendor's package under a manager:
/// `<manager_binary> <install_verb> <non_interactive_flag> <package>`.
pub open spec fn spec_install_command(v: GpuVendor, m: PackageManagerKind) -> (
    Seq<char>,
    Seq<Seq<char>>,
) {
    (
        spec_manager_binary(m),
        seq![spec_install_verb(m), spec_assume_yes_flag(m), spec_install_package(v)],
    )
}

/// The monitoring-tool binary for a vendor.
pub fn tool_binary(v: GpuVendor) -> (r: &'static str)
    ensures
        r@ == spec_tool_binary(v),
{
    match v {
        GpuVendor::Nvidia => "nvidia-smi",
        GpuVendor::Amd => "radeontop",
        GpuVendor::Intel => "intel_gpu_top",
    }
}

/// The install package for a vendor.
pub fn install_package(v: GpuVendor) -> (r: &'static str)
    ensures
        r@ == spec_install_package(v),
{
    match v {
        GpuVendor::Nvidia => "nvidia-smi",
        GpuVendor::Amd => "radeontop",
        GpuVendor::Intel => "intel_gpu_top",
    }
}

/// The binary of a package-manager family.
pub fn manager_binary(m: PackageManagerKind) -> (r: &'static str)
    ensures
        r@ == spec_manager_binary(m),
{
    match m {
        PackageManagerKind::Apt => "apt",
        PackageManagerKind::Pacman => "pacman",
        PackageManagerKind::Yum => "yum",
    }
}

/// The polling invocation for a vendor's monitoring tool.
pub fn poll_invocation(v: GpuVendor) -> (r: Invocation)
    ensures
        r.view_parts() == (spec_tool_binary(v), spec_poll_args(v)),
{
    let mut args: Vec<&'static str> = Vec::new();
    match v {
        GpuVendor::Nvidia => {
            args.push("--query-gpu=utilization.gpu");
            args.push("--format=csv,noheader,nounits");
        },
        GpuVendor::Amd => {
            args.push("-d");
            args.push("-");
        },
        GpuVendor::Intel => {
            args.push("-s");
            args.push("1");
            args.push("-o");
            args.push("-");
        },
    }
    proof {
        assert(args.deep_view() =~~= spec_poll_args(v));
    }
    Invocation { program: tool_binary(v), args }
}

/// The install command for a vendor's package under a manager.
pub fn install_command(v: GpuVendor, m: PackageManagerKind) -> (r: Invocation)
    ensures
        r.view_parts() == spec_install_command(v, m),
{
    let mut args: Vec<&'static str> = Vec::new();
    match m {
        PackageManagerKind::Apt => {
            args.push("install");
            args.push("-y");
        },
        PackageManagerKind::Pacman => {
            args.push("-S");
            args.push("--noconfirm");
        },
        PackageManagerKind::Yum => {
            args.push("install");
            args.push("-y");
        },
    }
    args.push(install_package(v));
    proof {
        assert(args.deep_view() =~~= spec_install_command(v, m).1);
    }
    Invocation { program: manager_binary(m), args }
}

/// The registry is total and injective on binary names: every vendor has a
/// monitoring tool and an install package, and no two vendors share a
/// monitoring-tool binary.
pub proof fn lemma_tool_registry_injective(a: GpuVendor, b: GpuVendor)
    ensures
        spec_tool_binary(a).len() > 0,
        spec_install_package(a).len() > 0,
        spec_tool_binary(a) == spec_tool_binary(b) ==> a == b,
{
    reveal_strlit("nvidia-smi");
    reveal_strlit("radeontop");
    reveal_strlit("intel_gpu_top");
}

/// The install command is fully determined by the manager and the vendor's
/// package: Apt runs `apt install -y <pkg>`, Pacman runs
/// `pacman -S --noconfirm <pkg>`, and Yum runs `yum install -y <pkg>`.
pub proof fn lemma_install_command_determined(v: GpuVendor, m: PackageManagerKind)
    ensures
        m == PackageManagerKind::Apt ==> spec_install_command(v, m) == (
            "apt"@,
            seq!["install"@, "-y"@, spec_install_package(v)],
        ),
        m == PackageManagerKind::Pacman ==> spec_install_command(v, m) == (
            "pacman"@,
            seq!["-S"@, "--noconfirm"@, spec_install_package(v)],
        ),
        m == PackageManagerKind::Yum ==> spec_install_command(v, m) == (
            "yum"@,
            seq!["install"@, "-y"@, spec_install_package(v)],
        ),
{
}

} // verus!
