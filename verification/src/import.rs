//! Importing a toolchain payload from an archive.
//!
//! The pipeline derives the toolchain's name from the archive file
//! name and a short content hash, decodes and checks the payload,
//! and registers the new toolchain. The caller writes the entries
//! to the toolchain's directory; the new toolchain is not activated
//! here.

use vstd::prelude::*;
use vstd::string::StringExecFns;

use crate::archive::ArchiveEntry;
use crate::archive::entries_view;
use crate::archive::extract_archive;
use crate::archive::spec_archive_base_name;
use crate::archive::spec_archive_kind;
use crate::archive::spec_has_bin;
use crate::archive::spec_has_entry_path;
use crate::archive::spec_parse;
use crate::archive::spec_safe_path;
use crate::archive::validate_toolchain_structure;
use crate::archive::extract_version_from_filename;
use crate::digest::compute_archive_hash;
use crate::digest::sha256_of;
use crate::digest::spec_hex_of;
use crate::errors::ZirconError;
use crate::registry::Registry;
use crate::registry::RegistryModel;
use crate::registry::lemma_registered_not_current;
use crate::registry::model_contains;
use crate::registry::model_register;
use crate::registry::spec_list;
use crate::registry::wf_model;

verus! {

/// The toolchain name an import derives: the archive's base name,
/// a dash, and the first eight hex digits of the payload's digest.
pub open spec fn spec_import_name(filename: Seq<char>, data: Seq<u8>) -> Seq<char> {
    spec_archive_base_name(filename) + seq!['-'] + spec_hex_of(sha256_of(data)).take(8)
}

/// What a successful import hands back to the caller: the new
/// toolchain's name and the entries to write under its directory.
#[derive(Debug)]
pub struct ImportOutcome {
    /// The derived toolchain name.
    pub name: String,
    /// The decoded entries, every stored path safe.
    pub entries: Vec<ArchiveEntry>,
}

/// Imports a toolchain archive into the registry.
///
/// The name is derived from the file name and the payload's short
/// hash; a name already installed fails with `AlreadyExists`. The
/// payload is decoded, held to the traversal boundary, and checked
/// for a `bin` directory before the registry changes. On success the
/// registry holds the new name, the active indirection unmoved, and
/// every returned entry has a safe stored path.
pub fn import_archive(reg: &mut Registry, filename: &str, data: &Vec<u8>) -> (r: Result<
    ImportOutcome,
    ZirconError,
>)
    requires
        old(reg).wf(),
    ensures
        final(reg).wf(),
        match r {
            Ok(out) => {
                &&& out.name@ == spec_import_name(filename@, data@)
                &&& !model_contains(old(reg)@, out.name@)
                &&& final(reg)@ == model_register(old(reg)@, out.name@)
                &&& spec_archive_kind(filename@) is Some
                &&& spec_parse(spec_archive_kind(filename@).unwrap(), data@) == Some(
                    entries_view(out.entries@),
                )
                &&& forall|i: int|
                    0 <= i < out.entries@.len() ==> spec_safe_path(
                        #[trigger] entries_view(out.entries@)[i].path,
                    )
                &&& spec_has_bin(entries_view(out.entries@))
            },
            Err(e) => {
                &&& final(reg)@ == old(reg)@
                &&& match e {
                    ZirconError::InvalidArchiveName => spec_archive_base_name(filename@).len()
                        == 0,
                    ZirconError::AlreadyExists(x) => x@ == spec_import_name(filename@, data@)
                        && model_contains(old(reg)@, x@),
                    ZirconError::UnsupportedArchiveFormat(_) => {
                        &&& spec_archive_kind(filename@) is None
                        &&& !model_contains(old(reg)@, spec_import_name(filename@, data@))
                    },
                    ZirconError::ArchiveReadFailed => {
                        &&& spec_archive_kind(filename@) is Some
                        &&& spec_parse(spec_archive_kind(filename@).unwrap(), data@) is None
                        &&& !model_contains(old(reg)@, spec_import_name(filename@, data@))
                    },
                    ZirconError::UnsafeArchiveEntry(p) => {
                        &&& !spec_safe_path(p@)
                        &&& spec_archive_kind(filename@) is Some
                        &&& spec_parse(spec_archive_kind(filename@).unwrap(), data@)
                            matches Some(es) && spec_has_entry_path(es, p@)
                        &&& !model_contains(old(reg)@, spec_import_name(filename@, data@))
                    },
                    ZirconError::InvalidToolchainStructure => {
                        &&& spec_archive_kind(filename@) is Some
                        &&& spec_parse(spec_archive_kind(filename@).unwrap(), data@)
                            matches Some(es) && !spec_has_bin(es)
                        &&& !model_contains(old(reg)@, spec_import_name(filename@, data@))
                    },
                    _ => false,
                }
            },
        },
{
    let base = match extract_version_from_filename(filename) {
        Ok(base) => base,
        Err(e) => {
            return Err(e);
        },
    };
    let hash = compute_archive_hash(data);
    let mut name: String = base;
    name.append("-");
    name.append(hash.as_str());
    proof {
        reveal_strlit("-");
        assert("-"@ =~= seq!['-']);
        assert(name@ == spec_import_name(filename@, data@));
    }
    if reg.toolchain_exists(name.as_str()) {
        return Err(ZirconError::AlreadyExists(name));
    }
    let entries = match extract_archive(filename, data) {
        Ok(entries) => entries,
        Err(e) => {
            return Err(e);
        },
    };
    if let Err(e) = validate_toolchain_structure(&entries) {
        return Err(e);
    }
    let registered_name = name.clone();
    match reg.register(registered_name) {
        Ok(()) => Ok(ImportOutcome { name, entries }),
        Err(e) => {
            proof {
                assert(false);
            }
            Err(e)
        },
    }
}

/// A successful import installs exactly the derived name, and its
/// listing entry is not marked current until it is explicitly
/// activated. The one state left out: an active indirection that
/// already names the derived name — a dangling link the on-disk
/// invariant of the active indirection excludes.
pub proof fn lemma_import_round_trip(m: RegistryModel, filename: Seq<char>, data: Seq<u8>)
    requires
        wf_model(m),
        !model_contains(m, spec_import_name(filename, data)),
        m.current != Some(spec_import_name(filename, data)),
    ensures
        ({
            let n = spec_import_name(filename, data);
            let m2 = model_register(m, n);
            &&& model_contains(m2, n)
            &&& m2.current == m.current
            &&& exists|i: int|
                0 <= i < spec_list(m2).len() && #[trigger] spec_list(m2)[i].name == n
                    && !spec_list(m2)[i].is_current
        }),
{
    crate::registry::lemma_register_effect(m, spec_import_name(filename, data));
    lemma_registered_not_current(m, spec_import_name(filename, data));
}

} // verus!
