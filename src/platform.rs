use vstd::prelude::*;

use crate::error::{ErrorKind, PluginError};
use crate::text::str_equals;

verus! {

/// Operating systems for which release builds exist.
#[derive(Debug, Clone, Copy, PartialEq, Eq, Structural)]
pub enum OperatingSystem {
    Windows,
    MacOS,
    Linux,
}

/// Container format of a release archive.
#[derive(Debug, Clone, Copy, PartialEq, Eq, Structural)]
pub enum ArchiveFormat {
    Zip,
    TarGz,
}

/// CPU architectures for which release builds exist.
#[derive(Debug, Clone, Copy, PartialEq, Eq, Structural)]
pub enum Arch {
    X86_64,
    Aarch64,
}

/// The operating system that a host identifier names, if it names one.
pub open spec fn os_named(s: Seq<char>) -> Option<OperatingSystem> {
    if s == "windows"@ {
        Some(OperatingSystem::Windows)
    } else if s == "macos"@ {
        Some(OperatingSystem::MacOS)
    } else if s == "linux"@ {
        Some(OperatingSystem::Linux)
    } else {
        None
    }
}

/// The architecture that a host identifier names, if it names one.
pub open spec fn arch_named(s: Seq<char>) -> Option<Arch> {
    if s == "x86_64"@ {
        Some(Arch::X86_64)
    } else if s == "aarch64"@ {
        Some(Arch::Aarch64)
    } else {
        None
    }
}

pub open spec fn target_triple(os: OperatingSystem) -> Seq<char> {
    match os {
        OperatingSystem::Windows => "pc-windows-msvc"@,
        OperatingSystem::MacOS => "apple-darwin"@,
        OperatingSystem::Linux => "unknown-linux-gnu"@,
    }
}

pub open spec fn format_for(os: OperatingSystem) -> ArchiveFormat {
    match os {
        OperatingSystem::Windows => ArchiveFormat::Zip,
        _ => ArchiveFormat::TarGz,
    }
}

pub open spec fn executable_suffix(os: OperatingSystem) -> Seq<char> {
    match os {
        OperatingSystem::Windows => ".exe"@,
        _ => ""@,
    }
}

pub open spec fn format_extension(f: ArchiveFormat) -> Seq<char> {
    match f {
        ArchiveFormat::Zip => "zip"@,
        ArchiveFormat::TarGz => "tar.gz"@,
    }
}

pub open spec fn arch_text(a: Arch) -> Seq<char> {
    match a {
        Arch::X86_64 => "x86_64"@,
        Arch::Aarch64 => "aarch64"@,
    }
}

/// Exactly the names `windows`, `macos` and `linux` are recognised, and each gives its own
/// target triple, archive format and executable suffix.
pub proof fn lemma_recognised_systems(s: Seq<char>)
    ensures
        os_named(s) is Some <==> (s == "windows"@ || s == "macos"@ || s == "linux"@),
        s == "windows"@ ==> (os_named(s) == Some(OperatingSystem::Windows) && target_triple(
            OperatingSystem::Windows,
        ) == "pc-windows-msvc"@ && format_for(OperatingSystem::Windows) == ArchiveFormat::Zip
            && executable_suffix(OperatingSystem::Windows) == ".exe"@),
        s == "macos"@ ==> (os_named(s) == Some(OperatingSystem::MacOS) && target_triple(
            OperatingSystem::MacOS,
        ) == "apple-darwin"@ && format_for(OperatingSystem::MacOS) == ArchiveFormat::TarGz
            && executable_suffix(OperatingSystem::MacOS) == ""@),
        s == "linux"@ ==> (os_named(s) == Some(OperatingSystem::Linux) && target_triple(
            OperatingSystem::Linux,
        ) == "unknown-linux-gnu"@ && format_for(OperatingSystem::Linux) == ArchiveFormat::TarGz
            && executable_suffix(OperatingSystem::Linux) == ""@),
{
    reveal_strlit("windows");
    reveal_strlit("macos");
    reveal_strlit("linux");
    assert("windows"@[0] == 'w' && "macos"@[0] == 'm' && "linux"@[0] == 'l');
}

/// Exactly the names `x86_64` and `aarch64` are recognised, each as the architecture that
/// artifact names write the same way.
pub proof fn lemma_recognised_architectures(s: Seq<char>)
    ensures
        arch_named(s) is Some <==> (s == "x86_64"@ || s == "aarch64"@),
        arch_named(s) is Some ==> arch_text(arch_named(s)->0) == s,
{
    reveal_strlit("x86_64");
    reveal_strlit("aarch64");
    assert("x86_64"@[0] == 'x' && "aarch64"@[0] == 'a');
}

impl OperatingSystem {
    /// Reads a host identifier; only the exact lower-case names are recognised.
    pub fn parse(s: &str) -> (r: Result<OperatingSystem, PluginError>)
        ensures
            os_named(s@) is Some ==> r == Ok::<_, PluginError>(os_named(s@)->0),
            os_named(s@) is None ==> (r matches Err(e) && e@ == (
                ErrorKind::UnsupportedPlatform,
                s@,
            )),
    {
        if str_equals(s, "windows") {
            Ok(OperatingSystem::Windows)
        } else if str_equals(s, "macos") {
            Ok(OperatingSystem::MacOS)
        } else if str_equals(s, "linux") {
            Ok(OperatingSystem::Linux)
        } else {
            Err(PluginError::new(ErrorKind::UnsupportedPlatform, s.to_owned()))
        }
    }

    /// The vendor-system-abi part of the Rust target triple.
    pub fn as_target(&self) -> (r: &'static str)
        ensures
            r@ == target_triple(*self),
    {
        match self {
            OperatingSystem::Windows => "pc-windows-msvc",
            OperatingSystem::MacOS => "apple-darwin",
            OperatingSystem::Linux => "unknown-linux-gnu",
        }
    }

    /// The container format in which this system's release is published.
    pub fn archive_format(&self) -> (r: ArchiveFormat)
        ensures
            r == format_for(*self),
    {
        match self {
            OperatingSystem::Windows => ArchiveFormat::Zip,
            OperatingSystem::MacOS => ArchiveFormat::TarGz,
            OperatingSystem::Linux => ArchiveFormat::TarGz,
        }
    }

    /// The file-name suffix of an executable on this system.
    pub fn extension(&self) -> (r: &'static str)
        ensures
            r@ == executable_suffix(*self),
    {
        match self {
            OperatingSystem::Windows => ".exe",
            OperatingSystem::MacOS | OperatingSystem::Linux => "",
        }
    }
}

impl ArchiveFormat {
    /// The file extension of an archive in this format, without the leading dot.
    pub fn extension_string(&self) -> (r: &'static str)
        ensures
            r@ == format_extension(*self),
    {
        match self {
            ArchiveFormat::Zip => "zip",
            ArchiveFormat::TarGz => "tar.gz",
        }
    }
}

impl Arch {
    /// Reads a host identifier; only the exact names are recognised.
    pub fn parse(s: &str) -> (r: Result<Arch, PluginError>)
        ensures
            arch_named(s@) is Some ==> r == Ok::<_, PluginError>(arch_named(s@)->0),
            arch_named(s@) is None ==> (r matches Err(e) && e@ == (
                ErrorKind::UnsupportedPlatform,
                s@,
            )),
    {
        if str_equals(s, "x86_64") {
            Ok(Arch::X86_64)
        } else if str_equals(s, "aarch64") {
            Ok(Arch::Aarch64)
        } else {
            Err(PluginError::new(ErrorKind::UnsupportedPlatform, s.to_owned()))
        }
    }

    /// The name under which release artifacts refer to this architecture.
    pub fn as_str(&self) -> (r: &'static str)
        ensures
            r@ == arch_text(*self),
    {
        match self {
            Arch::X86_64 => "x86_64",
            Arch::Aarch64 => "aarch64",
        }
    }
}

} // verus!
