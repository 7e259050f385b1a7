//! What differs between the two operating systems a server can run on.
use vstd::prelude::*;

verus! {

#[derive(Debug, Clone, Copy, PartialEq, Eq, Structural)]
pub enum TargetOs {
    Linux,
    Windows,
}

/// How release archives are packed for an operating system.
#[derive(Debug, Clone, Copy, PartialEq, Eq, Structural)]
pub enum ArchiveFormat {
    TarGz,
    Zip,
}

pub open spec fn os_name_spec(os: TargetOs) -> Seq<char> {
    match os {
        TargetOs::Linux => "linux"@,
        TargetOs::Windows => "windows"@,
    }
}

pub open spec fn archive_format_spec(os: TargetOs) -> ArchiveFormat {
    match os {
        TargetOs::Linux => ArchiveFormat::TarGz,
        TargetOs::Windows => ArchiveFormat::Zip,
    }
}

impl TargetOs {
    /// The name used in release file names.
    pub fn name(&self) -> (r: &'static str)
        ensures
            r@ == os_name_spec(*self),
    {
        match self {
            TargetOs::Linux => "linux",
            TargetOs::Windows => "windows",
        }
    }

    pub fn archive_format(&self) -> (r: ArchiveFormat)
        ensures
            r == archive_format_spec(*self),
    {
        match self {
            TargetOs::Linux => ArchiveFormat::TarGz,
            TargetOs::Windows => ArchiveFormat::Zip,
        }
    }
}

} // verus!
