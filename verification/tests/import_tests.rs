//! The import pipeline: naming, hashing, and the registry round trip.

use std::io::Write;

use zircon::digest::compute_archive_hash;
use zircon::digest::to_hex;
use zircon::errors::ZirconError;
use zircon::import::import_archive;
use zircon::registry::Registry;

fn zip_bytes(files: &[(&str, &[u8])]) -> Vec<u8> {
    let mut writer = zip::ZipWriter::new(std::io::Cursor::new(Vec::new()));
    let options = zip::write::SimpleFileOptions::default();
    for (path, data) in files {
        writer.start_file(path.to_string(), options).expect("start file");
        writer.write_all(data).expect("write file");
    }
    writer.finish().expect("finish zip").into_inner()
}

#[test]
fn hex_encoding_is_exact() {
    assert_eq!(to_hex(&vec![]), "");
    assert_eq!(to_hex(&vec![0x00, 0x0f, 0xbe, 0xef]), "000fbeef");
}

#[test]
fn archive_hash_matches_sha256() {
    // The SHA-256 digest of the empty string begins e3b0c442; of
    // "hello", 2cf24dba. The wrapper must really hash.
    assert_eq!(compute_archive_hash(&vec![]), "e3b0c442");
    assert_eq!(compute_archive_hash(&b"hello".to_vec()), "2cf24dba");
}

#[test]
fn import_round_trip() {
    // Importing an archive installs a toolchain whose listing entry
    // stays inactive until it is explicitly activated.
    let mut reg = Registry::new();
    let bytes = zip_bytes(&[("bin/zrc", b"zrc bits")]);
    let expected_name = format!("toolchain-{}", compute_archive_hash(&bytes));
    let out = import_archive(&mut reg, "toolchain.zip", &bytes).expect("import");
    assert_eq!(out.name, expected_name);
    assert_eq!(out.entries.len(), 1);
    assert!(reg.toolchain_exists(&expected_name));
    let infos = reg.list_toolchains();
    let entry = infos.iter().find(|t| t.name == expected_name).expect("listed");
    assert!(!entry.is_current);
    assert!(reg.activate(&expected_name).is_ok());
    assert_eq!(reg.get_current_toolchain(), Some(expected_name));
}

#[test]
fn import_twice_fails_with_already_exists() {
    let mut reg = Registry::new();
    let bytes = zip_bytes(&[("bin/zrc", b"zrc bits")]);
    let name = import_archive(&mut reg, "toolchain.zip", &bytes).expect("first import").name;
    match import_archive(&mut reg, "toolchain.zip", &bytes) {
        Err(ZirconError::AlreadyExists(n)) => assert_eq!(n, name),
        other => panic!("expected AlreadyExists, got {:?}", other),
    }
    assert_eq!(reg.list_toolchains().len(), 1);
}

#[test]
fn import_rejects_traversal_and_changes_nothing() {
    let mut reg = Registry::new();
    let bytes = zip_bytes(&[("bin/zrc", b"ok"), ("../../etc/passwd", b"evil")]);
    match import_archive(&mut reg, "toolchain.zip", &bytes) {
        Err(ZirconError::UnsafeArchiveEntry(p)) => assert_eq!(p, b"../../etc/passwd".to_vec()),
        other => panic!("expected UnsafeArchiveEntry, got {:?}", other),
    }
    assert!(reg.list_toolchains().is_empty());
}

#[test]
fn import_requires_bin_directory() {
    let mut reg = Registry::new();
    let bytes = zip_bytes(&[("docs/readme", b"hello")]);
    match import_archive(&mut reg, "toolchain.zip", &bytes) {
        Err(ZirconError::InvalidToolchainStructure) => {},
        other => panic!("expected InvalidToolchainStructure, got {:?}", other),
    }
    assert!(reg.list_toolchains().is_empty());
}

#[test]
fn import_rejects_unknown_format_and_bad_name() {
    let mut reg = Registry::new();
    let bytes = zip_bytes(&[("bin/zrc", b"ok")]);
    match import_archive(&mut reg, "toolchain.rar", &bytes) {
        Err(ZirconError::UnsupportedArchiveFormat(ext)) => assert_eq!(ext, "rar"),
        other => panic!("expected UnsupportedArchiveFormat, got {:?}", other),
    }
    match import_archive(&mut reg, ".zip", &bytes) {
        Err(ZirconError::InvalidArchiveName) => {},
        other => panic!("expected InvalidArchiveName, got {:?}", other),
    }
    assert!(reg.list_toolchains().is_empty());
}

#[test]
fn import_keeps_current_untouched() {
    let mut reg = Registry::new();
    reg.load_installed("v0.1.0".to_string());
    reg.load_current(Some("v0.1.0".to_string()));
    let bytes = zip_bytes(&[("bin/zrc", b"new bits")]);
    let out = import_archive(&mut reg, "fresh.zip", &bytes).expect("import");
    assert_eq!(reg.get_current_toolchain(), Some("v0.1.0".to_string()));
    assert!(reg.toolchain_exists(&out.name));
}
