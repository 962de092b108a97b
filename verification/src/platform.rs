//! Operating systems, processor architectures, and the release archive that
//! is published for each supported pair of them.

use vstd::prelude::*;

verus! {

/// An operating system the host may run on.
#[derive(Clone, Copy, Debug, PartialEq, Eq, Structural)]
pub enum Os {
    Mac,
    Linux,
    Windows,
}

/// A processor architecture the host may run on.
#[derive(Clone, Copy, Debug, PartialEq, Eq, Structural)]
pub enum Architecture {
    Aarch64,
    X86,
    X8664,
}

/// The pair that identifies the machine a resolution runs on.
#[derive(Clone, Copy, Debug, PartialEq, Eq, Structural)]
pub struct Platform {
    pub os: Os,
    pub arch: Architecture,
}

/// The text by which an operating system is named in messages.
pub open spec fn os_label(os: Os) -> Seq<char> {
    match os {
        Os::Mac => "Os::Mac"@,
        Os::Linux => "Os::Linux"@,
        Os::Windows => "Os::Windows"@,
    }
}

/// The text by which an architecture is named in messages.
pub open spec fn arch_label(arch: Architecture) -> Seq<char> {
    match arch {
        Architecture::Aarch64 => "Architecture::Aarch64"@,
        Architecture::X86 => "Architecture::X86"@,
        Architecture::X8664 => "Architecture::X8664"@,
    }
}

/// Whether upstream publishes prebuilt archives for this operating system at
/// all. Windows is the one system for which it does not.
pub open spec fn has_prebuilt_releases(os: Os) -> bool {
    os != Os::Windows
}

/// The name of the release archive for a platform, for the four supported
/// pairs; `None` for every other pair.
pub open spec fn asset_name_of(platform: Platform) -> Option<Seq<char>> {
    match (platform.os, platform.arch) {
        (Os::Mac, Architecture::Aarch64) => Some("nargo-aarch64-apple-darwin.tar.gz"@),
        (Os::Mac, Architecture::X8664) => Some("nargo-x86_64-apple-darwin.tar.gz"@),
        (Os::Linux, Architecture::Aarch64) => Some("nargo-aarch64-unknown-linux-gnu.tar.gz"@),
        (Os::Linux, Architecture::X8664) => Some("nargo-x86_64-unknown-linux-gnu.tar.gz"@),
        _ => None,
    }
}

impl Os {
    /// The label of this operating system.
    pub fn label(self) -> (text: &'static str)
        ensures
            text@ == os_label(self),
    {
        match self {
            Os::Mac => "Os::Mac",
            Os::Linux => "Os::Linux",
            Os::Windows => "Os::Windows",
        }
    }

    /// Tells whether prebuilt archives exist for this operating system.
    pub fn has_prebuilt_releases(self) -> (yes: bool)
        ensures
            yes == has_prebuilt_releases(self),
    {
        match self {
            Os::Windows => false,
            _ => true,
        }
    }
}

impl Architecture {
    /// The label of this architecture.
    pub fn label(self) -> (text: &'static str)
        ensures
            text@ == arch_label(self),
    {
        match self {
            Architecture::Aarch64 => "Architecture::Aarch64",
            Architecture::X86 => "Architecture::X86",
            Architecture::X8664 => "Architecture::X8664",
        }
    }
}

impl Platform {
    /// Looks the platform up in the table of published archives.
    pub fn asset_name(self) -> (name: Option<&'static str>)
        ensures
            match name {
                Some(text) => asset_name_of(self) == Some(text@),
                None => asset_name_of(self) is None,
            },
    {
        match (self.os, self.arch) {
            (Os::Mac, Architecture::Aarch64) => Some("nargo-aarch64-apple-darwin.tar.gz"),
            (Os::Mac, Architecture::X8664) => Some("nargo-x86_64-apple-darwin.tar.gz"),
            (Os::Linux, Architecture::Aarch64) => Some("nargo-aarch64-unknown-linux-gnu.tar.gz"),
            (Os::Linux, Architecture::X8664) => Some("nargo-x86_64-unknown-linux-gnu.tar.gz"),
            _ => None,
        }
    }
}

} // verus!
