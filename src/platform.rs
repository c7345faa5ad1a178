//! Mapping of the running platform to artifact tags and file names.
use vstd::prelude::*;

verus! {

/// Operating system reported by the host.
#[derive(Debug, Clone, Copy, PartialEq, Eq, Structural)]
pub enum Os {
    Mac,
    Linux,
    Windows,
}

/// CPU architecture reported by the host.
#[derive(Debug, Clone, Copy, PartialEq, Eq, Structural)]
pub enum Arch {
    Aarch64,
    X86,
    X8664,
}

/// Operating-system tag used in artifact names.
#[derive(Debug, Clone, Copy, PartialEq, Eq, Structural)]
pub enum OsTag {
    Macos,
    Linux,
    Windows,
}

/// Architecture tag used in artifact names.
#[derive(Debug, Clone, Copy, PartialEq, Eq, Structural)]
pub enum ArchTag {
    Arm64,
    X64,
}

/// A supported platform, as the pair of tags that names its artifacts.
#[derive(Debug, Clone, Copy, PartialEq, Eq, Structural)]
pub struct Platform {
    pub os_tag: OsTag,
    pub arch_tag: ArchTag,
}

/// The platform could not be resolved to a supported pair of tags.
#[derive(Debug, Clone, Copy, PartialEq, Eq, Structural)]
pub struct UnsupportedPlatform {
    pub os: Os,
    pub arch: Arch,
}

/// Logical role of an artifact.
#[derive(Debug, Clone, Copy, PartialEq, Eq, Structural)]
pub enum Role {
    Server,
    CompanionCli,
}

/// The supported set: macOS on arm64 and x64, Linux on x64, Windows on x64.
pub open spec fn supported(os: Os, arch: Arch) -> bool {
    match (os, arch) {
        (Os::Mac, Arch::Aarch64) | (Os::Mac, Arch::X8664) => true,
        (Os::Linux, Arch::X8664) | (Os::Windows, Arch::X8664) => true,
        _ => false,
    }
}

/// The tags of a supported platform.
pub open spec fn platform_of(os: Os, arch: Arch) -> Platform {
    Platform {
        os_tag: match os {
            Os::Mac => OsTag::Macos,
            Os::Linux => OsTag::Linux,
            Os::Windows => OsTag::Windows,
        },
        arch_tag: match arch {
            Arch::Aarch64 => ArchTag::Arm64,
            _ => ArchTag::X64,
        },
    }
}

/// Resolves the host's (os, arch) to the tags that name its artifacts, or
/// fails with the unrecognised pair.
pub fn resolve(os: Os, arch: Arch) -> (r: Result<Platform, UnsupportedPlatform>)
    ensures
        supported(os, arch) ==> r == Ok::<Platform, UnsupportedPlatform>(platform_of(os, arch)),
        !supported(os, arch) ==> r == Err::<Platform, UnsupportedPlatform>(
            UnsupportedPlatform { os, arch },
        ),
{
    match (os, arch) {
        (Os::Mac, Arch::Aarch64) => Ok(Platform { os_tag: OsTag::Macos, arch_tag: ArchTag::Arm64 }),
        (Os::Mac, Arch::X8664) => Ok(Platform { os_tag: OsTag::Macos, arch_tag: ArchTag::X64 }),
        (Os::Linux, Arch::X8664) => Ok(Platform { os_tag: OsTag::Linux, arch_tag: ArchTag::X64 }),
        (Os::Windows, Arch::X8664) => Ok(
            Platform { os_tag: OsTag::Windows, arch_tag: ArchTag::X64 },
        ),
        _ => Err(UnsupportedPlatform { os, arch }),
    }
}

/// Distinct supported platforms resolve to distinct tag pairs, and resolving
/// is a function of the pair alone.
pub proof fn lemma_resolve_injective(os1: Os, arch1: Arch, os2: Os, arch2: Arch)
    requires
        supported(os1, arch1),
        supported(os2, arch2),
    ensures
        platform_of(os1, arch1) == platform_of(os2, arch2) <==> (os1 == os2 && arch1 == arch2),
{
}

/// Text of an operating-system tag.
pub open spec fn os_text(t: OsTag) -> Seq<char> {
    match t {
        OsTag::Macos => "macos"@,
        OsTag::Linux => "linux"@,
        OsTag::Windows => "windows"@,
    }
}

/// Text of an architecture tag.
pub open spec fn arch_text(t: ArchTag) -> Seq<char> {
    match t {
        ArchTag::Arm64 => "arm64"@,
        ArchTag::X64 => "x64"@,
    }
}

/// Base name of the artifact that plays a role.
pub open spec fn role_base(role: Role) -> Seq<char> {
    match role {
        Role::Server => "zuraffa_mcp_server"@,
        Role::CompanionCli => "zuraffa_cli"@,
    }
}

/// `<base>-<os>-<arch>`, the artifact name without its extension.
pub open spec fn artifact_stem(role: Role, p: Platform) -> Seq<char> {
    role_base(role) + "-"@ + os_text(p.os_tag) + "-"@ + arch_text(p.arch_tag)
}

/// `.exe` on Windows, nothing elsewhere.
pub open spec fn executable_extension(p: Platform) -> Seq<char> {
    if p.os_tag == OsTag::Windows {
        ".exe"@
    } else {
        ""@
    }
}

/// File name of an artifact.
pub open spec fn artifact_file_name(role: Role, p: Platform) -> Seq<char> {
    artifact_stem(role, p) + executable_extension(p)
}

/// File name of the version marker kept beside an artifact.
pub open spec fn marker_file_name(role: Role, p: Platform) -> Seq<char> {
    artifact_stem(role, p) + ".version"@
}

impl OsTag {
    /// The tag as text.
    pub fn text(&self) -> (r: &'static str)
        ensures
            r@ == os_text(*self),
    {
        match self {
            OsTag::Macos => "macos",
            OsTag::Linux => "linux",
            OsTag::Windows => "windows",
        }
    }
}

impl ArchTag {
    /// The tag as text.
    pub fn text(&self) -> (r: &'static str)
        ensures
            r@ == arch_text(*self),
    {
        match self {
            ArchTag::Arm64 => "arm64",
            ArchTag::X64 => "x64",
        }
    }
}

impl Role {
    /// Base name of the artifact that plays this role.
    pub fn base_name(&self) -> (r: &'static str)
        ensures
            r@ == role_base(*self),
    {
        match self {
            Role::Server => "zuraffa_mcp_server",
            Role::CompanionCli => "zuraffa_cli",
        }
    }
}

fn stem(role: Role, p: Platform) -> (r: String)
    ensures
        r@ == artifact_stem(role, p),
{
    let mut s = String::from_str(role.base_name());
    s.append("-");
    s.append(p.os_tag.text());
    s.append("-");
    s.append(p.arch_tag.text());
    s
}

/// File name of the artifact for a role on a platform:
/// `<base>-<os>-<arch>`, with `.exe` on Windows.
pub fn file_name(role: Role, p: Platform) -> (r: String)
    ensures
        r@ == artifact_file_name(role, p),
{
    let mut s = stem(role, p);
    if p.os_tag == OsTag::Windows {
        s.append(".exe");
    } else {
        proof {
            reveal_strlit("");
            assert(s@ + ""@ =~= s@);
        }
    }
    s
}

/// File name of the version marker kept beside the artifact: its stem with
/// `.version` in place of any extension.
pub fn marker_name(role: Role, p: Platform) -> (r: String)
    ensures
        r@ == marker_file_name(role, p),
{
    let mut s = stem(role, p);
    s.append(".version");
    s
}

/// Artifacts of different roles never share a file name, whatever their
/// platforms.
pub proof fn lemma_roles_never_collide(p1: Platform, p2: Platform)
    ensures
        artifact_file_name(Role::Server, p1) != artifact_file_name(Role::CompanionCli, p2),
{
    reveal_strlit("zuraffa_mcp_server");
    reveal_strlit("zuraffa_cli");
    let a = artifact_file_name(Role::Server, p1);
    let b = artifact_file_name(Role::CompanionCli, p2);
    assert(a[8] == 'm');
    assert(b[8] == 'c');
}

} // verus!
