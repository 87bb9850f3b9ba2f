//! Dependency probing: which commands to try and how to judge what
//! they report.
//!
//! The caller runs the candidate commands; which candidates to try
//! and whether a reported version satisfies the requirement are
//! decided here.

use vstd::prelude::*;
use vstd::string::StringExecFns;

use crate::strutil::str_starts_with;

verus! {

/// The commands that may name the required LLVM's llvm-config, in
/// probing order: the bare name, distribution-suffixed names, and
/// the common package-manager paths.
pub fn llvm_config_candidates() -> (r: Vec<String>)
    ensures
        r@.len() == 7,
        r@[0]@ == "llvm-config"@,
        r@[1]@ == "llvm-config-20"@,
        r@[2]@ == "llvm-config-mp-20"@,
        r@[3]@ == "/usr/local/opt/llvm@20/bin/llvm-config"@,
        r@[4]@ == "/usr/local/opt/llvm/bin/llvm-config"@,
        r@[5]@ == "/opt/homebrew/opt/llvm@20/bin/llvm-config"@,
        r@[6]@ == "/opt/homebrew/opt/llvm/bin/llvm-config"@,
{
    let mut v: Vec<String> = Vec::new();
    v.push(String::from_str("llvm-config"));
    v.push(String::from_str("llvm-config-20"));
    v.push(String::from_str("llvm-config-mp-20"));
    v.push(String::from_str("/usr/local/opt/llvm@20/bin/llvm-config"));
    v.push(String::from_str("/usr/local/opt/llvm/bin/llvm-config"));
    v.push(String::from_str("/opt/homebrew/opt/llvm@20/bin/llvm-config"));
    v.push(String::from_str("/opt/homebrew/opt/llvm/bin/llvm-config"));
    v
}

/// The commands that may name the required clang, in probing order.
pub fn clang_candidates() -> (r: Vec<String>)
    ensures
        r@.len() == 7,
        r@[0]@ == "clang"@,
        r@[1]@ == "clang-20"@,
        r@[2]@ == "clang-mp-20"@,
        r@[3]@ == "/usr/local/opt/llvm@20/bin/clang"@,
        r@[4]@ == "/usr/local/opt/llvm/bin/clang"@,
        r@[5]@ == "/opt/homebrew/opt/llvm@20/bin/clang"@,
        r@[6]@ == "/opt/homebrew/opt/llvm/bin/clang"@,
{
    let mut v: Vec<String> = Vec::new();
    v.push(String::from_str("clang"));
    v.push(String::from_str("clang-20"));
    v.push(String::from_str("clang-mp-20"));
    v.push(String::from_str("/usr/local/opt/llvm@20/bin/clang"));
    v.push(String::from_str("/usr/local/opt/llvm/bin/clang"));
    v.push(String::from_str("/opt/homebrew/opt/llvm@20/bin/clang"));
    v.push(String::from_str("/opt/homebrew/opt/llvm/bin/clang"));
    v
}

/// Whether a reported LLVM version satisfies the requirement: it
/// belongs to the 20.x line.
pub fn llvm_version_ok(version: &str) -> (r: bool)
    ensures
        r == "20."@.is_prefix_of(version@),
{
    str_starts_with(version, "20.")
}

} // verus!
