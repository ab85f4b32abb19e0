use vstd::prelude::*;

use crate::platform::{
    arch_text, executable_suffix, format_extension, format_for, target_triple, Arch,
    OperatingSystem,
};
use crate::version::{version_text, Version, VersionModel};

verus! {

/// Name of the executable and prefix of every artifact name.
pub open spec fn tool_name() -> Seq<char> {
    "crates-lsp"@
}

/// Address under which each release's artifacts are published, before the version tag.
pub open spec fn release_base() -> Seq<char> {
    "https://github.com/MathiasPius/crates-lsp/releases/download/v"@
}

/// `crates-lsp-{arch}-{target}.{extension}`: the archive published for a platform.
pub open spec fn artifact_name(os: OperatingSystem, arch: Arch) -> Seq<char> {
    tool_name() + "-"@ + arch_text(arch) + "-"@ + target_triple(os) + "."@ + format_extension(
        format_for(os),
    )
}

/// Where the archive of a version for a platform is downloaded from.
pub open spec fn download_url(os: OperatingSystem, arch: Arch, v: VersionModel) -> Seq<char> {
    release_base() + version_text(v) + "/"@ + artifact_name(os, arch)
}

/// `crates-lsp-{version}{suffix}`: the file under which a downloaded executable is kept.
pub open spec fn local_file_name(os: OperatingSystem, v: VersionModel) -> Seq<char> {
    tool_name() + "-"@ + version_text(v) + executable_suffix(os)
}

/// The archive name for a platform.
pub fn artifact_file_name(os: OperatingSystem, arch: Arch) -> (r: String)
    ensures
        r@ == artifact_name(os, arch),
{
    let mut s = String::from_str("crates-lsp");
    s.append("-");
    s.append(arch.as_str());
    s.append("-");
    s.append(os.as_target());
    s.append(".");
    s.append(os.archive_format().extension_string());
    s
}

/// The download address of a version's archive for a platform.
pub fn release_url(os: OperatingSystem, arch: Arch, version: &Version) -> (r: String)
    ensures
        r@ == download_url(os, arch, version@),
{
    let mut s = String::from_str("https://github.com/MathiasPius/crates-lsp/releases/download/v");
    let text = version.to_string();
    s.append(text.as_str());
    s.append("/");
    let artifact = artifact_file_name(os, arch);
    s.append(artifact.as_str());
    s
}

/// The local file name of a version's executable.
pub fn executable_file_name(os: OperatingSystem, version: &Version) -> (r: String)
    ensures
        r@ == local_file_name(os, version@),
{
    let mut s = String::from_str("crates-lsp");
    s.append("-");
    let text = version.to_string();
    s.append(text.as_str());
    s.append(os.extension());
    s
}

} // verus!
