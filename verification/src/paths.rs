//! The on-disk layout, computed from the root directory.
//!
//! Every function is pure string arithmetic over a caller-supplied
//! root; nothing here touches the filesystem. The caller creates the
//! directories named by [`ensure_directories`].

use vstd::prelude::*;
use vstd::string::StringExecFns;

verus! {

/// `base` extended by the literal tail `tail`.
fn join(base: &str, tail: &str) -> (r: String)
    ensures
        r@ == base@ + tail@,
{
    let mut s: String = String::from_str(base);
    s.append(tail);
    s
}

/// The directory holding all repository mirrors.
pub fn sources_dir(root: &str) -> (r: String)
    ensures
        r@ == root@ + "/sources"@,
{
    join(root, "/sources")
}

/// The directory of the zirco-lang organisation's mirrors.
pub fn zirco_lang_dir(root: &str) -> (r: String)
    ensures
        r@ == root@ + "/sources/zirco-lang"@,
{
    join(root, "/sources/zirco-lang")
}

/// The mirror of the zrc compiler repository.
pub fn zrc_source_dir(root: &str) -> (r: String)
    ensures
        r@ == root@ + "/sources/zirco-lang/zrc"@,
{
    join(root, "/sources/zirco-lang/zrc")
}

/// The mirror of the zircon repository itself.
pub fn zircon_source_dir(root: &str) -> (r: String)
    ensures
        r@ == root@ + "/sources/zirco-lang/zircon"@,
{
    join(root, "/sources/zirco-lang/zircon")
}

/// The directory holding one subdirectory per installed toolchain.
pub fn toolchains_dir(root: &str) -> (r: String)
    ensures
        r@ == root@ + "/toolchains"@,
{
    join(root, "/toolchains")
}

/// The directory of the toolchain named `version`.
pub fn toolchain_dir(root: &str, version: &str) -> (r: String)
    ensures
        r@ == root@ + "/toolchains/"@ + version@,
{
    let mut s: String = join(root, "/toolchains/");
    s.append(version);
    s
}

/// The active indirection: the link selecting the current toolchain.
pub fn current_toolchain_link(root: &str) -> (r: String)
    ensures
        r@ == root@ + "/toolchains/current"@,
{
    join(root, "/toolchains/current")
}

/// The POSIX-shell environment script of the current toolchain.
pub fn current_toolchain_bin_sh(root: &str) -> (r: String)
    ensures
        r@ == root@ + "/toolchains/current/bin.sh"@,
{
    join(root, "/toolchains/current/bin.sh")
}

/// The PowerShell environment script of the current toolchain.
pub fn current_toolchain_bin_ps1(root: &str) -> (r: String)
    ensures
        r@ == root@ + "/toolchains/current/bin.ps1"@,
{
    join(root, "/toolchains/current/bin.ps1")
}

/// The CMD environment script of the current toolchain.
pub fn current_toolchain_bin_bat(root: &str) -> (r: String)
    ensures
        r@ == root@ + "/toolchains/current/bin.bat"@,
{
    join(root, "/toolchains/current/bin.bat")
}

/// The link to the manager's own source tree.
pub fn self_dir(root: &str) -> (r: String)
    ensures
        r@ == root@ + "/self"@,
{
    join(root, "/self")
}

/// Where a build of the manager itself places its binary.
pub fn self_bin_dir(root: &str) -> (r: String)
    ensures
        r@ == root@ + "/sources/zirco-lang/zircon/target/release"@,
{
    join(root, "/sources/zirco-lang/zircon/target/release")
}

/// The manager's own binary inside [`self_bin_dir`].
pub fn self_zircon_binary(root: &str) -> (r: String)
    ensures
        r@ == root@ + "/sources/zirco-lang/zircon/target/release/zircon"@,
{
    join(root, "/sources/zirco-lang/zircon/target/release/zircon")
}

/// The directory of convenience links exposed on the user's PATH.
pub fn bin_dir(root: &str) -> (r: String)
    ensures
        r@ == root@ + "/bin"@,
{
    join(root, "/bin")
}

/// The link to the manager's binary inside [`bin_dir`].
pub fn zircon_binary_link(root: &str) -> (r: String)
    ensures
        r@ == root@ + "/bin/zircon"@,
{
    join(root, "/bin/zircon")
}

/// The stamp file recording when updates were last checked for.
pub fn update_check_file(root: &str) -> (r: String)
    ensures
        r@ == root@ + "/.last_update_check"@,
{
    join(root, "/.last_update_check")
}

/// The directories that must exist under the root, in creation order.
///
/// Creating them is idempotent and is left to the caller, which owns
/// all filesystem effects.
pub fn ensure_directories(root: &str) -> (r: Vec<String>)
    ensures
        r@.len() == 5,
        r@[0]@ == root@ + "/sources"@,
        r@[1]@ == root@ + "/sources/zirco-lang"@,
        r@[2]@ == root@ + "/toolchains"@,
        r@[3]@ == root@ + "/sources/zirco-lang/zircon/target/release"@,
        r@[4]@ == root@ + "/bin"@,
{
    let mut v: Vec<String> = Vec::new();
    v.push(sources_dir(root));
    v.push(zirco_lang_dir(root));
    v.push(toolchains_dir(root));
    v.push(self_bin_dir(root));
    v.push(bin_dir(root));
    v
}

} // verus!
