use vstd::prelude::*;
use vstd::string::StringExecFns;
use crate::errors::NodeError;

verus! {

/// The operating systems for which the toolchain publishes releases.
#[derive(Clone, Copy, Debug, PartialEq, Eq, Structural)]
pub enum Os {
    Macos,
    Linux,
    Windows,
}

/// The CPU architectures for which the toolchain publishes releases.
#[derive(Clone, Copy, Debug, PartialEq, Eq, Structural)]
pub enum Arch {
    X64,
    Arm64,
}

/// The archive formats a release can be distributed in.
#[derive(Clone, Copy, Debug, PartialEq, Eq, Structural)]
pub enum ArchiveType {
    TarGz,
    Zip,
}

/// Compares two string slices by their character sequences.
fn str_eq(a: &str, b: &str) -> (r: bool)
    ensures
        r == (a@ == b@),
{
    let sa = String::from_str(a);
    let sb = String::from_str(b);
    sa == sb
}

/// The platform a process OS identifier resolves to, when it is supported.
pub open spec fn resolve_os_spec(s: Seq<char>) -> Option<Os> {
    if s == "macos"@ {
        Some(Os::Macos)
    } else if s == "linux"@ {
        Some(Os::Linux)
    } else if s == "windows"@ {
        Some(Os::Windows)
    } else {
        None
    }
}

/// The platform a process CPU-architecture identifier resolves to, when it
/// is supported.
pub open spec fn resolve_arch_spec(s: Seq<char>) -> Option<Arch> {
    if s == "x86_64"@ {
        Some(Arch::X64)
    } else if s == "aarch64"@ {
        Some(Arch::Arm64)
    } else {
        None
    }
}

/// Maps a process OS identifier to a supported platform, failing fast on any
/// other value: the caller has no recovery path for an unsupported OS.
pub fn resolve_os(os_name: &str) -> (r: Result<Os, NodeError>)
    ensures
        r matches Ok(o) ==> resolve_os_spec(os_name@) == Some(o),
        r matches Err(e) ==> (e matches NodeError::UnsupportedPlatform { what } && what@
            == os_name@ && resolve_os_spec(os_name@) is None),
        (r is Ok) == (resolve_os_spec(os_name@) is Some),
{
    proof {
        reveal_strlit("macos");
        reveal_strlit("linux");
        reveal_strlit("windows");
        assert("macos"@[0] == 'm' && "linux"@[0] == 'l' && "windows"@[0] == 'w');
        assert("macos"@ != "linux"@ && "macos"@ != "windows"@ && "linux"@ != "windows"@);
    }
    if str_eq(os_name, "macos") {
        Ok(Os::Macos)
    } else if str_eq(os_name, "linux") {
        Ok(Os::Linux)
    } else if str_eq(os_name, "windows") {
        Ok(Os::Windows)
    } else {
        Err(NodeError::UnsupportedPlatform { what: String::from_str(os_name) })
    }
}

/// Maps a process CPU-architecture identifier to a supported platform,
/// failing fast on any other value.
pub fn resolve_arch(arch_name: &str) -> (r: Result<Arch, NodeError>)
    ensures
        r matches Ok(a) ==> resolve_arch_spec(arch_name@) == Some(a),
        r matches Err(e) ==> (e matches NodeError::UnsupportedPlatform { what } && what@
            == arch_name@ && resolve_arch_spec(arch_name@) is None),
        (r is Ok) == (resolve_arch_spec(arch_name@) is Some),
{
    proof {
        reveal_strlit("x86_64");
        reveal_strlit("aarch64");
        assert("x86_64"@[0] == 'x' && "aarch64"@[0] == 'a');
        assert("x86_64"@ != "aarch64"@);
    }
    if str_eq(arch_name, "x86_64") {
        Ok(Arch::X64)
    } else if str_eq(arch_name, "aarch64") {
        Ok(Arch::Arm64)
    } else {
        Err(NodeError::UnsupportedPlatform { what: String::from_str(arch_name) })
    }
}

/// The release-naming token of a supported OS.
pub open spec fn os_token_spec(os: Os) -> Seq<char> {
    match os {
        Os::Macos => "darwin"@,
        Os::Linux => "linux"@,
        Os::Windows => "win"@,
    }
}

/// The release-naming token of a supported architecture.
pub open spec fn arch_token_spec(arch: Arch) -> Seq<char> {
    match arch {
        Arch::X64 => "x64"@,
        Arch::Arm64 => "arm64"@,
    }
}

/// Returns the release-naming token of a supported OS.
pub fn os_token(os: Os) -> (r: String)
    ensures
        r@ == os_token_spec(os),
{
    match os {
        Os::Macos => String::from_str("darwin"),
        Os::Linux => String::from_str("linux"),
        Os::Windows => String::from_str("win"),
    }
}

/// Returns the release-naming token of a supported architecture.
pub fn arch_token(arch: Arch) -> (r: String)
    ensures
        r@ == arch_token_spec(arch),
{
    match arch {
        Arch::X64 => String::from_str("x64"),
        Arch::Arm64 => String::from_str("arm64"),
    }
}

/// The archive format a platform's release is distributed in: a gzipped
/// tarball everywhere but Windows, which ships a zip archive.
pub open spec fn archive_type_spec(os: Os) -> ArchiveType {
    match os {
        Os::Macos => ArchiveType::TarGz,
        Os::Linux => ArchiveType::TarGz,
        Os::Windows => ArchiveType::Zip,
    }
}

/// Selects the archive format for a platform's release.
pub fn archive_type_for(os: Os) -> (r: ArchiveType)
    ensures
        r == archive_type_spec(os),
{
    match os {
        Os::Macos => ArchiveType::TarGz,
        Os::Linux => ArchiveType::TarGz,
        Os::Windows => ArchiveType::Zip,
    }
}

/// The filename extension of an archive format.
pub open spec fn archive_extension_spec(a: ArchiveType) -> Seq<char> {
    match a {
        ArchiveType::TarGz => "tar.gz"@,
        ArchiveType::Zip => "zip"@,
    }
}

/// Returns the filename extension of an archive format.
pub fn archive_extension(a: ArchiveType) -> (r: String)
    ensures
        r@ == archive_extension_spec(a),
{
    match a {
        ArchiveType::TarGz => String::from_str("tar.gz"),
        ArchiveType::Zip => String::from_str("zip"),
    }
}

} // verus!
