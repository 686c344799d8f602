//! A single-host GPU utilization monitor, as a verified library.
//!
//! The library holds every decision the monitor makes: classifying the GPU
//! vendor from a PCI listing, mapping vendors to monitoring tools and install
//! packages, choosing a package manager, building install and polling
//! invocations, and interpreting each subprocess outcome. An unverified shell
//! spawns the subprocesses and feeds their outcomes back in as plain values.

pub mod identify;
pub mod machine;
pub mod registry;
pub mod text;
pub mod types;
