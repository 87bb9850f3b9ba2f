//! The error taxonomy of the toolchain manager.

use vstd::prelude::*;
use vstd::string::StringExecFns;

verus! {

/// Everything that can go wrong in the toolchain lifecycle.
///
/// Variants that concern one toolchain or reference carry its name.
#[derive(Debug, Clone, PartialEq, Eq)]
pub enum ZirconError {
    /// No reference of the given name could be resolved in the mirror.
    ReferenceNotFound(String),
    /// A mirror directory exists but is not a usable repository.
    RepositoryCorrupt,
    /// Cloning or fetching from the remote failed.
    NetworkFailure,
    /// The external build hook exited with the carried non-zero
    /// status.
    BuildFailed(i32),
    /// The archive holds an entry whose stored path escapes the
    /// destination (absolute, or with a parent-directory component).
    UnsafeArchiveEntry(Vec<u8>),
    /// The extracted tree has no `bin` directory.
    InvalidToolchainStructure,
    /// The named toolchain is not installed.
    ToolchainNotFound(String),
    /// The named toolchain is the active one and may not be deleted.
    CannotDeleteActive(String),
    /// A toolchain of the same name is already installed.
    AlreadyExists(String),
    /// The archive file name ends in no recognised suffix.
    UnsupportedArchiveFormat(String),
    /// The archive bytes could not be decoded.
    ArchiveReadFailed,
    /// No toolchain name could be derived from the archive file name.
    InvalidArchiveName,
}

impl ZirconError {
    /// A human-readable description, for the error stream.
    pub fn message(&self) -> (r: String)
        ensures
            r@.len() > 0,
    {
        proof {
            reveal_strlit("reference not found: ");
            reveal_strlit("mirror directory exists but is not a valid repository");
            reveal_strlit("network failure while cloning or fetching");
            reveal_strlit("the external build hook failed");
            reveal_strlit("archive entry has an unsafe stored path");
            reveal_strlit("invalid toolchain structure: missing 'bin' directory");
            reveal_strlit("toolchain not found: ");
            reveal_strlit("cannot delete the current toolchain: ");
            reveal_strlit("a toolchain of this name already exists: ");
            reveal_strlit("unsupported archive format: ");
            reveal_strlit("could not read the archive");
            reveal_strlit("could not derive a toolchain name from the archive file name");
        }
        match self {
            ZirconError::ReferenceNotFound(name) => {
                String::from_str("reference not found: ").concat(name.as_str())
            },
            ZirconError::RepositoryCorrupt => {
                String::from_str("mirror directory exists but is not a valid repository")
            },
            ZirconError::NetworkFailure => {
                String::from_str("network failure while cloning or fetching")
            },
            ZirconError::BuildFailed(_) => {
                String::from_str("the external build hook failed")
            },
            ZirconError::UnsafeArchiveEntry(_) => {
                String::from_str("archive entry has an unsafe stored path")
            },
            ZirconError::InvalidToolchainStructure => {
                String::from_str("invalid toolchain structure: missing 'bin' directory")
            },
            ZirconError::ToolchainNotFound(name) => {
                String::from_str("toolchain not found: ").concat(name.as_str())
            },
            ZirconError::CannotDeleteActive(name) => {
                String::from_str("cannot delete the current toolchain: ").concat(name.as_str())
            },
            ZirconError::AlreadyExists(name) => {
                String::from_str("a toolchain of this name already exists: ").concat(name.as_str())
            },
            ZirconError::UnsupportedArchiveFormat(ext) => {
                String::from_str("unsupported archive format: ").concat(ext.as_str())
            },
            ZirconError::ArchiveReadFailed => {
                String::from_str("could not read the archive")
            },
            ZirconError::InvalidArchiveName => {
                String::from_str("could not derive a toolchain name from the archive file name")
            },
        }
    }
}

} // verus!
