//! The archive ingestor: decoding toolchain payloads and holding the
//! path-traversal boundary.
//!
//! Archives are decoded from bytes in memory through trusted
//! wrappers; everything that decides — format detection, the
//! rejection of unsafe entry paths, the structural check — is
//! verified here. The caller writes the surviving entries to disk.

use std::io::Read;
use vstd::prelude::*;
use vstd::string::StrSliceExecFns;
use vstd::string::StringExecFns;

use crate::errors::ZirconError;
use crate::strutil::spec_trim_end;
use crate::strutil::str_eq;
use crate::strutil::str_ends_with;
use crate::strutil::trim_end_matches;

verus! {

/// One entry of a decoded archive: its stored path as bytes, whether
/// it is a directory, its permission bits when the archive kept
/// them, and its contents.
#[derive(Debug)]
pub struct ArchiveEntry {
    /// The stored path, exactly as the archive holds it.
    pub path: Vec<u8>,
    /// Whether the entry is a directory.
    pub is_dir: bool,
    /// The permission bits recorded for the entry, if any.
    pub mode: Option<u32>,
    /// The entry's contents; empty for a directory.
    pub data: Vec<u8>,
}

/// The mathematical shape of an [`ArchiveEntry`].
pub struct ArchiveEntryModel {
    pub path: Seq<u8>,
    pub is_dir: bool,
    pub mode: Option<u32>,
    pub data: Seq<u8>,
}

impl View for ArchiveEntry {
    type V = ArchiveEntryModel;

    open spec fn view(&self) -> ArchiveEntryModel {
        ArchiveEntryModel {
            path: self.path@,
            is_dir: self.is_dir,
            mode: self.mode,
            data: self.data@,
        }
    }
}

/// The views of a sequence of entries.
pub open spec fn entries_view(s: Seq<ArchiveEntry>) -> Seq<ArchiveEntryModel> {
    Seq::new(s.len(), |i: int| s[i]@)
}

/// Whether a stored path is absolute: it begins with a separator
/// (byte 47, `/`).
pub open spec fn spec_absolute_path(p: Seq<u8>) -> bool {
    p.len() > 0 && p[0] == 47
}

/// Whether a parent-directory component (`..`) begins at offset `i`
/// of the stored path: two dots (byte 46), standing alone between
/// the path's ends or separators.
pub open spec fn spec_dotdot_at(p: Seq<u8>, i: int) -> bool {
    &&& 0 <= i
    &&& i + 2 <= p.len()
    &&& p[i] == 46
    &&& p[i + 1] == 46
    &&& (i == 0 || p[i - 1] == 47)
    &&& (i + 2 == p.len() || p[i + 2] == 47)
}

/// Whether a stored path may be extracted: it is not empty, not
/// absolute, and holds no parent-directory component. This is the
/// security boundary of the ingestor.
pub open spec fn spec_safe_path(p: Seq<u8>) -> bool {
    &&& p.len() > 0
    &&& !spec_absolute_path(p)
    &&& forall|i: int| !spec_dotdot_at(p, i)
}

/// Decides [`spec_safe_path`] on a stored path.
pub fn entry_path_is_safe(p: &Vec<u8>) -> (r: bool)
    ensures
        r == spec_safe_path(p@),
{
    let n: usize = p.len();
    if n == 0 {
        return false;
    }
    if p[0] == 47 {
        return false;
    }
    if n >= 2 {
        let mut i: usize = 0;
        while i <= n - 2
            invariant
                n == p@.len(),
                2 <= n,
                i <= n - 1,
                forall|k: int| k < i ==> !spec_dotdot_at(p@, k),
            decreases n - i,
        {
            let starts = i == 0 || p[i - 1] == 47;
            let closes = i + 2 == n || p[i + 2] == 47;
            if starts && p[i] == 46 && p[i + 1] == 46 && closes {
                assert(spec_dotdot_at(p@, i as int));
                return false;
            }
            i = i + 1;
        }
        proof {
            assert forall|k: int| !spec_dotdot_at(p@, k) by {
                if k >= i {
                    assert(k + 2 > p@.len());
                }
            }
        }
    }
    proof {
        assert forall|k: int| !spec_dotdot_at(p@, k) by {
            if k >= 0 {
                assert(k + 2 > p@.len() || !spec_dotdot_at(p@, k));
            }
        }
    }
    true
}

/// The archive formats the ingestor reads.
#[derive(Debug, Clone, Copy, PartialEq, Eq, Structural)]
pub enum ArchiveKind {
    /// A gzip-compressed tar archive.
    TarGz,
    /// A plain tar archive.
    Tar,
    /// A zip archive.
    Zip,
}

/// Whether `i` is the position of the last dot of the name, with
/// something before it: the split that yields a file extension.
pub open spec fn spec_is_ext_dot(s: Seq<char>, i: int) -> bool {
    &&& 0 < i < s.len()
    &&& s[i] == '.'
    &&& forall|j: int| i < j < s.len() ==> s[j] != '.'
}

/// The file extension of a name: what follows its last dot, when a
/// dot stands after the first character; empty otherwise.
pub open spec fn spec_extension(s: Seq<char>) -> Seq<char> {
    if exists|i: int| spec_is_ext_dot(s, i) {
        s.skip((choose|i: int| spec_is_ext_dot(s, i)) + 1)
    } else {
        Seq::<char>::empty()
    }
}

/// The extension of a file name, as an owned string.
pub fn extension_of(name: &str) -> (r: String)
    ensures
        r@ == spec_extension(name@),
{
    let n: usize = name.unicode_len();
    let mut i: usize = n;
    while i > 0
        invariant
            n == name@.len(),
            i <= n,
            forall|j: int| i <= j < n ==> name@[j] != '.',
        decreases i,
    {
        let c = name.get_char(i - 1);
        if c == '.' {
            if i - 1 == 0 {
                // a lone leading dot starts no extension
                proof {
                    if exists|w: int| spec_is_ext_dot(name@, w) {
                        let w = choose|w: int| spec_is_ext_dot(name@, w);
                        assert(name@[w] != '.');
                    }
                }
                return String::new();
            }
            proof {
                let e: int = i - 1;
                assert(spec_is_ext_dot(name@, e));
                let w = choose|w: int| spec_is_ext_dot(name@, w);
                if w < e {
                    assert(name@[e] != '.');
                }
                if w > e {
                    assert(name@[w] != '.');
                }
                assert(w == e);
            }
            let rest: &str = name.substring_char(i, n);
            proof {
                assert(rest@ =~= name@.skip(i as int));
            }
            return String::from_str(rest);
        }
        i = i - 1;
    }
    proof {
        if exists|w: int| spec_is_ext_dot(name@, w) {
            let w = choose|w: int| spec_is_ext_dot(name@, w);
            assert(name@[w] != '.');
        }
    }
    String::new()
}

/// The archive kind a file name's extension announces: `gz` and
/// `tgz` mean a compressed tar, `tar` a plain tar, `zip` a zip.
pub open spec fn spec_archive_kind(name: Seq<char>) -> Option<ArchiveKind> {
    let ext = spec_extension(name);
    if ext == "gz"@ || ext == "tgz"@ {
        Some(ArchiveKind::TarGz)
    } else if ext == "zip"@ {
        Some(ArchiveKind::Zip)
    } else if ext == "tar"@ {
        Some(ArchiveKind::Tar)
    } else {
        None
    }
}

/// Detects the archive kind from the file name's extension.
pub fn archive_kind_from_extension(name: &str) -> (r: Result<ArchiveKind, ZirconError>)
    ensures
        match r {
            Ok(kind) => spec_archive_kind(name@) == Some(kind),
            Err(e) => {
                &&& spec_archive_kind(name@) is None
                &&& e matches ZirconError::UnsupportedArchiveFormat(x) && x@ == spec_extension(
                    name@,
                )
            },
        },
{
    let ext = extension_of(name);
    if str_eq(ext.as_str(), "gz") || str_eq(ext.as_str(), "tgz") {
        Ok(ArchiveKind::TarGz)
    } else if str_eq(ext.as_str(), "zip") {
        Ok(ArchiveKind::Zip)
    } else if str_eq(ext.as_str(), "tar") {
        Ok(ArchiveKind::Tar)
    } else {
        Err(ZirconError::UnsupportedArchiveFormat(ext))
    }
}

/// The archive kind by the whole file name: names ending in
/// `.tar.gz` or `.tgz` mean a compressed tar, before the extension
/// is even looked at.
pub open spec fn spec_archive_kind_by_name(name: Seq<char>) -> Option<ArchiveKind> {
    if ".tar.gz"@.is_suffix_of(name) || ".tgz"@.is_suffix_of(name) {
        Some(ArchiveKind::TarGz)
    } else {
        let ext = spec_extension(name);
        if ext == "zip"@ {
            Some(ArchiveKind::Zip)
        } else if ext == "tar"@ {
            Some(ArchiveKind::Tar)
        } else {
            None
        }
    }
}

/// Detects the archive kind from the whole file name.
pub fn archive_kind_from_name(name: &str) -> (r: Result<ArchiveKind, ZirconError>)
    ensures
        match r {
            Ok(kind) => spec_archive_kind_by_name(name@) == Some(kind),
            Err(e) => {
                &&& spec_archive_kind_by_name(name@) is None
                &&& e matches ZirconError::UnsupportedArchiveFormat(x)
            },
        },
{
    if str_ends_with(name, ".tar.gz") || str_ends_with(name, ".tgz") {
        return Ok(ArchiveKind::TarGz);
    }
    let ext = extension_of(name);
    if str_eq(ext.as_str(), "zip") {
        Ok(ArchiveKind::Zip)
    } else if str_eq(ext.as_str(), "tar") {
        Ok(ArchiveKind::Tar)
    } else {
        Err(ZirconError::UnsupportedArchiveFormat(ext))
    }
}

/// The base name of an archive: the file name with every trailing
/// archive suffix removed, in the order `.tar.gz`, `.tgz`, `.tar`,
/// `.zip`.
pub open spec fn spec_archive_base_name(s: Seq<char>) -> Seq<char> {
    spec_trim_end(
        spec_trim_end(spec_trim_end(spec_trim_end(s, ".tar.gz"@), ".tgz"@), ".tar"@),
        ".zip"@,
    )
}

/// Derives the version base name from an archive file name. Fails
/// exactly when nothing is left once the suffixes are removed.
pub fn extract_version_from_filename(filename: &str) -> (r: Result<String, ZirconError>)
    ensures
        match r {
            Ok(name) => name@ == spec_archive_base_name(filename@) && name@.len() > 0,
            Err(e) => spec_archive_base_name(filename@).len() == 0 && e
                matches ZirconError::InvalidArchiveName,
        },
{
    let a = trim_end_matches(filename, ".tar.gz");
    let b = trim_end_matches(a.as_str(), ".tgz");
    let c = trim_end_matches(b.as_str(), ".tar");
    let d = trim_end_matches(c.as_str(), ".zip");
    if d.as_str().unicode_len() == 0 {
        Err(ZirconError::InvalidArchiveName)
    } else {
        Ok(d)
    }
}

/// What gzip decoding yields on a byte string, when it succeeds.
/// Success and result depend on the bytes alone.
pub uninterp spec fn gunzip_of(data: Seq<u8>) -> Option<Seq<u8>>;

/// What decoding a tar archive yields on a byte string, when it
/// succeeds: the entries in order, with their stored paths, kinds,
/// permission bits and contents.
pub uninterp spec fn tar_entries_of(data: Seq<u8>) -> Option<Seq<ArchiveEntryModel>>;

/// What decoding a zip archive yields on a byte string.
pub uninterp spec fn zip_entries_of(data: Seq<u8>) -> Option<Seq<ArchiveEntryModel>>;

/// Relies on flate2's GzDecoder: gzip decoding is a function of the
/// bytes alone.
#[verifier::external_body]
fn gunzip(data: &Vec<u8>) -> (r: Result<Vec<u8>, ZirconError>)
    ensures
        match r {
            Ok(v) => gunzip_of(data@) == Some(v@),
            Err(e) => gunzip_of(data@) is None && e matches ZirconError::ArchiveReadFailed,
        },
{
    let mut dec = flate2::read::GzDecoder::new(data.as_slice());
    let mut out: Vec<u8> = Vec::new();
    match dec.read_to_end(&mut out) {
        Ok(_) => Ok(out),
        Err(_) => Err(ZirconError::ArchiveReadFailed),
    }
}

/// Relies on the tar crate's Archive and Entry: decoding a tar
/// archive is a function of the bytes alone, and each entry reports
/// its stored path, kind, permission bits and contents.
#[verifier::external_body]
fn tar_entry_list(data: &Vec<u8>) -> (r: Result<Vec<ArchiveEntry>, ZirconError>)
    ensures
        match r {
            Ok(v) => tar_entries_of(data@) == Some(entries_view(v@)),
            Err(e) => tar_entries_of(data@) is None && e matches ZirconError::ArchiveReadFailed,
        },
{
    let mut ar = tar::Archive::new(data.as_slice());
    let mut out: Vec<ArchiveEntry> = Vec::new();
    for ent in ar.entries().map_err(|_| ZirconError::ArchiveReadFailed)? {
        let mut ent = ent.map_err(|_| ZirconError::ArchiveReadFailed)?;
        let path = ent.path_bytes().into_owned();
        let is_dir = ent.header().entry_type().is_dir();
        let mode = ent.header().mode().ok();
        let mut data = Vec::new();
        ent.read_to_end(&mut data).map_err(|_| ZirconError::ArchiveReadFailed)?;
        out.push(ArchiveEntry { path, is_dir, mode, data });
    }
    Ok(out)
}

/// Relies on the zip crate's ZipArchive and ZipFile: decoding a zip
/// archive is a function of the bytes alone, and each entry reports
/// its stored name, kind, permission bits and contents.
#[verifier::external_body]
fn zip_entry_list(data: &Vec<u8>) -> (r: Result<Vec<ArchiveEntry>, ZirconError>)
    ensures
        match r {
            Ok(v) => zip_entries_of(data@) == Some(entries_view(v@)),
            Err(e) => zip_entries_of(data@) is None && e matches ZirconError::ArchiveReadFailed,
        },
{
    let cursor = std::io::Cursor::new(data.as_slice());
    let mut ar = zip::ZipArchive::new(cursor).map_err(|_| ZirconError::ArchiveReadFailed)?;
    let mut out: Vec<ArchiveEntry> = Vec::new();
    for i in 0..ar.len() {
        let mut f = ar.by_index(i).map_err(|_| ZirconError::ArchiveReadFailed)?;
        let path = f.name().as_bytes().to_vec();
        let is_dir = f.is_dir();
        let mode = f.unix_mode();
        let mut data = Vec::new();
        f.read_to_end(&mut data).map_err(|_| ZirconError::ArchiveReadFailed)?;
        out.push(ArchiveEntry { path, is_dir, mode, data });
    }
    Ok(out)
}

/// What decoding an archive of a given kind yields on a byte string.
pub open spec fn spec_parse(kind: ArchiveKind, data: Seq<u8>) -> Option<Seq<ArchiveEntryModel>> {
    match kind {
        ArchiveKind::TarGz => {
            if gunzip_of(data) is Some {
                tar_entries_of(gunzip_of(data).unwrap())
            } else {
                None
            }
        },
        ArchiveKind::Tar => tar_entries_of(data),
        ArchiveKind::Zip => zip_entries_of(data),
    }
}

/// Checks every entry's stored path against the traversal boundary.
/// Succeeds exactly when every path is safe; the first unsafe path
/// is reported, and nothing of the archive may then be extracted.
pub fn validate_entries(entries: &Vec<ArchiveEntry>) -> (r: Result<(), ZirconError>)
    ensures
        (r is Ok) == (forall|i: int|
            0 <= i < entries@.len() ==> spec_safe_path(#[trigger] entries_view(entries@)[i].path)),
        r matches Err(e) ==> e matches ZirconError::UnsafeArchiveEntry(p) && !spec_safe_path(p@)
            && spec_has_entry_path(entries_view(entries@), p@),
{
    let n: usize = entries.len();
    let mut i: usize = 0;
    while i < n
        invariant
            n == entries@.len(),
            i <= n,
            forall|j: int| 0 <= j < i ==> spec_safe_path(#[trigger] entries_view(entries@)[j].path),
        decreases n - i,
    {
        if !entry_path_is_safe(&entries[i].path) {
            let p = vstd::slice::slice_to_vec(entries[i].path.as_slice());
            proof {
                assert(entries_view(entries@)[i as int].path == p@);
                assert(!spec_safe_path(entries_view(entries@)[i as int].path));
                assert(spec_has_entry_path(entries_view(entries@), p@));
            }
            return Err(ZirconError::UnsafeArchiveEntry(p));
        }
        i = i + 1;
    }
    Ok(())
}

/// Decodes an archive by its file name's extension and holds every
/// entry to the traversal boundary. On success every returned entry
/// has a safe stored path; an unsupported name, an undecodable
/// payload and an unsafe entry each fail with their own error.
pub fn extract_archive(filename: &str, data: &Vec<u8>) -> (r: Result<Vec<ArchiveEntry>, ZirconError>)
    ensures
        match r {
            Ok(v) => {
                &&& spec_archive_kind(filename@) is Some
                &&& spec_parse(spec_archive_kind(filename@).unwrap(), data@) == Some(
                    entries_view(v@),
                )
                &&& forall|i: int|
                    0 <= i < v@.len() ==> spec_safe_path(#[trigger] entries_view(v@)[i].path)
            },
            Err(e) => match e {
                ZirconError::UnsupportedArchiveFormat(_) => spec_archive_kind(filename@) is None,
                ZirconError::ArchiveReadFailed => {
                    &&& spec_archive_kind(filename@) is Some
                    &&& spec_parse(spec_archive_kind(filename@).unwrap(), data@) is None
                },
                ZirconError::UnsafeArchiveEntry(p) => {
                    &&& spec_archive_kind(filename@) is Some
                    &&& !spec_safe_path(p@)
                    &&& spec_parse(spec_archive_kind(filename@).unwrap(), data@) matches Some(es)
                        && spec_has_entry_path(es, p@)
                },
                _ => false,
            },
        },
{
    let kind = match archive_kind_from_extension(filename) {
        Ok(kind) => kind,
        Err(e) => {
            return Err(e);
        },
    };
    let entries = match decode_archive(kind, data) {
        Ok(v) => v,
        Err(e) => {
            return Err(e);
        },
    };
    match validate_entries(&entries) {
        Ok(()) => Ok(entries),
        Err(e) => Err(e),
    }
}

/// Decodes an archive of a known kind, without the safety check.
fn decode_archive(kind: ArchiveKind, data: &Vec<u8>) -> (r: Result<Vec<ArchiveEntry>, ZirconError>)
    ensures
        match r {
            Ok(v) => spec_parse(kind, data@) == Some(entries_view(v@)),
            Err(e) => spec_parse(kind, data@) is None && e matches ZirconError::ArchiveReadFailed,
        },
{
    match kind {
        ArchiveKind::TarGz => {
            let plain = match gunzip(data) {
                Ok(v) => v,
                Err(e) => {
                    return Err(e);
                },
            };
            tar_entry_list(&plain)
        },
        ArchiveKind::Tar => tar_entry_list(data),
        ArchiveKind::Zip => zip_entry_list(data),
    }
}

/// Decodes an archive by its whole file name — names ending in
/// `.tar.gz` or `.tgz` are compressed tars whatever their last
/// extension reads — and holds every entry to the traversal
/// boundary, as [`extract_archive`] does.
pub fn extract_archive_by_name(filename: &str, data: &Vec<u8>) -> (r: Result<
    Vec<ArchiveEntry>,
    ZirconError,
>)
    ensures
        match r {
            Ok(v) => {
                &&& spec_archive_kind_by_name(filename@) is Some
                &&& spec_parse(spec_archive_kind_by_name(filename@).unwrap(), data@) == Some(
                    entries_view(v@),
                )
                &&& forall|i: int|
                    0 <= i < v@.len() ==> spec_safe_path(#[trigger] entries_view(v@)[i].path)
            },
            Err(e) => match e {
                ZirconError::UnsupportedArchiveFormat(_) => spec_archive_kind_by_name(filename@)
                    is None,
                ZirconError::ArchiveReadFailed => {
                    &&& spec_archive_kind_by_name(filename@) is Some
                    &&& spec_parse(spec_archive_kind_by_name(filename@).unwrap(), data@) is None
                },
                ZirconError::UnsafeArchiveEntry(p) => {
                    &&& spec_archive_kind_by_name(filename@) is Some
                    &&& !spec_safe_path(p@)
                    &&& spec_parse(spec_archive_kind_by_name(filename@).unwrap(), data@)
                        matches Some(es) && spec_has_entry_path(es, p@)
                },
                _ => false,
            },
        },
{
    let kind = match archive_kind_from_name(filename) {
        Ok(kind) => kind,
        Err(e) => {
            return Err(e);
        },
    };
    let entries = match decode_archive(kind, data) {
        Ok(v) => v,
        Err(e) => {
            return Err(e);
        },
    };
    match validate_entries(&entries) {
        Ok(()) => Ok(entries),
        Err(e) => Err(e),
    }
}

/// Whether some entry carries exactly this stored path.
pub open spec fn spec_has_entry_path(entries: Seq<ArchiveEntryModel>, p: Seq<u8>) -> bool {
    exists|i: int| 0 <= i < entries.len() && #[trigger] entries[i].path == p
}

/// Whether two byte strings are equal.
fn bytes_eq(a: &Vec<u8>, b: &[u8]) -> (r: bool)
    ensures
        r == (a@ == b@),
{
    let n: usize = a.len();
    if n != b.len() {
        return false;
    }
    let mut i: usize = 0;
    while i < n
        invariant
            n == a@.len(),
            n == b@.len(),
            i <= n,
            forall|j: int| 0 <= j < i ==> a@[j] == b@[j],
        decreases n - i,
    {
        if a[i] != b[i] {
            return false;
        }
        i = i + 1;
    }
    proof {
        assert(a@ =~= b@);
    }
    true
}

/// Whether some decoded entry carries exactly this stored path.
pub fn has_entry_path(entries: &Vec<ArchiveEntry>, path: &[u8]) -> (r: bool)
    ensures
        r == spec_has_entry_path(entries_view(entries@), path@),
{
    let n: usize = entries.len();
    let mut i: usize = 0;
    while i < n
        invariant
            n == entries@.len(),
            i <= n,
            forall|j: int| 0 <= j < i ==> #[trigger] entries_view(entries@)[j].path != path@,
        decreases n - i,
    {
        if bytes_eq(&entries[i].path, path) {
            assert(entries_view(entries@)[i as int].path == path@);
            return true;
        }
        i = i + 1;
    }
    proof {
        if spec_has_entry_path(entries_view(entries@), path@) {
            let k = choose|k: int|
                0 <= k < entries_view(entries@).len() && #[trigger] entries_view(entries@)[k].path
                    == path@;
            assert(entries_view(entries@)[k].path != path@);
        }
    }
    false
}

/// Whether a stored path lies at or under the `bin` directory,
/// allowing a leading `./`. The bytes 46, 47, 98, 105 and 110 read
/// `.`, `/`, `b`, `i` and `n`.
pub open spec fn spec_bin_at(p: Seq<u8>, off: int) -> bool {
    &&& p.len() >= off + 3
    &&& p[off] == 98
    &&& p[off + 1] == 105
    &&& p[off + 2] == 110
    &&& (p.len() == off + 3 || p[off + 3] == 47)
}

/// Whether a stored path puts something at or under `bin`.
pub open spec fn spec_bin_path(p: Seq<u8>) -> bool {
    if p.len() >= 2 && p[0] == 46 && p[1] == 47 {
        spec_bin_at(p, 2)
    } else {
        spec_bin_at(p, 0)
    }
}

/// Whether the decoded entries populate a `bin` directory.
pub open spec fn spec_has_bin(entries: Seq<ArchiveEntryModel>) -> bool {
    exists|i: int| 0 <= i < entries.len() && spec_bin_path(#[trigger] entries[i].path)
}

/// Decides [`spec_bin_path`] on a stored path.
fn path_is_bin(p: &Vec<u8>) -> (r: bool)
    ensures
        r == spec_bin_path(p@),
{
    let n: usize = p.len();
    let off: usize = if n >= 2 && p[0] == 46 && p[1] == 47 {
        2
    } else {
        0
    };
    if n < off + 3 {
        return false;
    }
    p[off] == 98 && p[off + 1] == 105 && p[off + 2] == 110 && (n == off + 3 || p[off + 3] == 47)
}

/// Confirms that a decoded toolchain payload has the expected
/// structure: some entry populates a `bin` directory. Fails with
/// `InvalidToolchainStructure` exactly when none does; such a
/// payload is never activated.
pub fn validate_toolchain_structure(entries: &Vec<ArchiveEntry>) -> (r: Result<(), ZirconError>)
    ensures
        (r is Ok) == spec_has_bin(entries_view(entries@)),
        r matches Err(e) ==> e matches ZirconError::InvalidToolchainStructure,
{
    let n: usize = entries.len();
    let mut i: usize = 0;
    while i < n
        invariant
            n == entries@.len(),
            i <= n,
            forall|j: int| 0 <= j < i ==> !spec_bin_path(#[trigger] entries_view(entries@)[j].path),
        decreases n - i,
    {
        if path_is_bin(&entries[i].path) {
            assert(spec_bin_path(entries_view(entries@)[i as int].path));
            return Ok(());
        }
        i = i + 1;
    }
    proof {
        if spec_has_bin(entries_view(entries@)) {
            let k = choose|k: int|
                0 <= k < entries_view(entries@).len() && spec_bin_path(
                    #[trigger] entries_view(entries@)[k].path,
                );
            assert(!spec_bin_path(entries_view(entries@)[k].path));
        }
    }
    Err(ZirconError::InvalidToolchainStructure)
}

} // verus!
