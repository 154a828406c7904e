//! Where a tool's release is downloaded from, for each system.

use vstd::prelude::*;

verus! {

/// A processor architecture.
#[derive(Debug, Clone, Copy, PartialEq, Eq, Structural)]
pub enum Cpu {
    X86_64,
    Aarch64,
}

/// An operating system.
#[derive(Debug, Clone, Copy, PartialEq, Eq, Structural)]
pub enum OperatingSystem {
    Linux,
    MacOS,
    Windows,
}

/// The download for one system: a URL, in which `${version}` stands for
/// the version, and the system it is for.
#[derive(Debug, Clone)]
pub struct System {
    pub url: String,
    pub cpu: Cpu,
    pub os: OperatingSystem,
}

/// A downloadable tool: the name of its executable, how many leading path
/// components its archive's entries lose, and a download per system.
#[derive(Debug, Clone)]
pub struct DownloadDef {
    pub binary_name: Option<String>,
    pub strip_components: usize,
    pub systems: Vec<System>,
}

} // verus!
