//! Platform naming: which release artifact fits a platform, and
//! where a release lives.
//!
//! The caller reads the running platform and architecture; the
//! naming itself is decided here.

use vstd::prelude::*;
use vstd::string::StringExecFns;

use crate::strutil::str_eq;

verus! {

/// The artifact name for a platform and architecture pair, when
/// pre-built binaries exist for it.
pub open spec fn spec_platform_artifact_name(os: Seq<char>, arch: Seq<char>) -> Option<Seq<char>> {
    if os == "linux"@ && arch == "x86_64"@ {
        Some("zrc-linux-x64.tar.gz"@)
    } else if os == "linux"@ && arch == "aarch64"@ {
        Some("zrc-linux-arm64.tar.gz"@)
    } else if os == "macos"@ && arch == "x86_64"@ {
        Some("zrc-macos-x64.tar.gz"@)
    } else if os == "macos"@ && arch == "aarch64"@ {
        Some("zrc-macos-arm64.tar.gz"@)
    } else {
        None
    }
}

/// The artifact name for a platform and architecture pair, or
/// `None` when no pre-built binaries exist for it.
pub fn get_platform_artifact_name(os: &str, arch: &str) -> (r: Option<String>)
    ensures
        match r {
            Some(name) => spec_platform_artifact_name(os@, arch@) == Some(name@),
            None => spec_platform_artifact_name(os@, arch@) is None,
        },
{
    if str_eq(os, "linux") && str_eq(arch, "x86_64") {
        Some(String::from_str("zrc-linux-x64.tar.gz"))
    } else if str_eq(os, "linux") && str_eq(arch, "aarch64") {
        Some(String::from_str("zrc-linux-arm64.tar.gz"))
    } else if str_eq(os, "macos") && str_eq(arch, "x86_64") {
        Some(String::from_str("zrc-macos-x64.tar.gz"))
    } else if str_eq(os, "macos") && str_eq(arch, "aarch64") {
        Some(String::from_str("zrc-macos-arm64.tar.gz"))
    } else {
        None
    }
}

/// The release naming of a platform: `linux` and `macos` stand as
/// they are; nothing else is supported.
pub open spec fn spec_release_platform(os: Seq<char>) -> Option<Seq<char>> {
    if os == "linux"@ {
        Some("linux"@)
    } else if os == "macos"@ {
        Some("macos"@)
    } else {
        None
    }
}

/// The release naming of an architecture: `x86_64` is `x64`,
/// `aarch64` is `arm64`; nothing else is supported.
pub open spec fn spec_release_arch(arch: Seq<char>) -> Option<Seq<char>> {
    if arch == "x86_64"@ {
        Some("x64"@)
    } else if arch == "aarch64"@ {
        Some("arm64"@)
    } else {
        None
    }
}

/// Maps the running platform and architecture to their release
/// naming; `None` when either is unsupported.
pub fn classify_platform(os: &str, arch: &str) -> (r: Option<(String, String)>)
    ensures
        match r {
            Some(pair) => spec_release_platform(os@) == Some(pair.0@) && spec_release_arch(arch@)
                == Some(pair.1@),
            None => spec_release_platform(os@) is None || spec_release_arch(arch@) is None,
        },
{
    let platform: String = if str_eq(os, "linux") {
        String::from_str("linux")
    } else if str_eq(os, "macos") {
        String::from_str("macos")
    } else {
        return None;
    };
    let arch_name: String = if str_eq(arch, "x86_64") {
        String::from_str("x64")
    } else if str_eq(arch, "aarch64") {
        String::from_str("arm64")
    } else {
        return None;
    };
    Some((platform, arch_name))
}

/// The artifact file name of a released build: the project name,
/// the platform, the architecture, and the archive suffix.
pub open spec fn spec_release_file_name(
    project: Seq<char>,
    platform: Seq<char>,
    arch: Seq<char>,
) -> Seq<char> {
    project + "-"@ + platform + "-"@ + arch + ".tar.gz"@
}

/// Builds the artifact file name of a released build.
pub fn release_file_name(project: &str, platform: &str, arch: &str) -> (r: String)
    ensures
        r@ == spec_release_file_name(project@, platform@, arch@),
{
    let mut out: String = String::from_str(project);
    out.append("-");
    out.append(platform);
    out.append("-");
    out.append(arch);
    out.append(".tar.gz");
    out
}

/// The download address of a released artifact under the project's
/// hosting.
pub open spec fn spec_release_url(project: Seq<char>, tag: Seq<char>, file: Seq<char>) -> Seq<
    char,
> {
    "https://github.com/zirco-lang/"@ + project + "/releases/download/"@ + tag + "/"@ + file
}

/// Builds the download address of a released artifact.
pub fn release_url(project: &str, tag: &str, file: &str) -> (r: String)
    ensures
        r@ == spec_release_url(project@, tag@, file@),
{
    let mut out: String = String::from_str("https://github.com/zirco-lang/");
    out.append(project);
    out.append("/releases/download/");
    out.append(tag);
    out.append("/");
    out.append(file);
    out
}

} // verus!
