//! Archive decoding, the traversal boundary, and name handling.

use std::io::Write;

use zircon::archive::archive_kind_from_extension;
use zircon::archive::archive_kind_from_name;
use zircon::archive::entry_path_is_safe;
use zircon::archive::extension_of;
use zircon::archive::extract_archive;
use zircon::archive::extract_archive_by_name;
use zircon::archive::extract_version_from_filename;
use zircon::archive::has_entry_path;
use zircon::archive::validate_entries;
use zircon::archive::validate_toolchain_structure;
use zircon::archive::ArchiveEntry;
use zircon::archive::ArchiveKind;
use zircon::errors::ZirconError;

fn tar_bytes(files: &[(&str, &[u8])]) -> Vec<u8> {
    let mut builder = tar::Builder::new(Vec::new());
    for (path, data) in files {
        let mut header = tar::Header::new_gnu();
        header.set_size(data.len() as u64);
        header.set_mode(0o755);
        header.set_cksum();
        builder.append_data(&mut header, path, *data).expect("append");
    }
    builder.into_inner().expect("finish tar")
}

fn gzip_bytes(plain: &[u8]) -> Vec<u8> {
    let mut enc = flate2::write::GzEncoder::new(Vec::new(), flate2::Compression::default());
    enc.write_all(plain).expect("gzip write");
    enc.finish().expect("gzip finish")
}

fn zip_bytes(files: &[(&str, &[u8])]) -> Vec<u8> {
    let mut writer = zip::ZipWriter::new(std::io::Cursor::new(Vec::new()));
    let options = zip::write::SimpleFileOptions::default();
    for (path, data) in files {
        writer.start_file(path.to_string(), options).expect("start file");
        writer.write_all(data).expect("write file");
    }
    writer.finish().expect("finish zip").into_inner()
}

#[test]
fn safe_paths_accepted() {
    assert!(entry_path_is_safe(&b"bin/zrc".to_vec()));
    assert!(entry_path_is_safe(&b"a/b/c.txt".to_vec()));
    assert!(entry_path_is_safe(&b"weird..name".to_vec()));
    assert!(entry_path_is_safe(&b"a..b/c".to_vec()));
    assert!(entry_path_is_safe(&b".hidden".to_vec()));
}

#[test]
fn unsafe_paths_rejected() {
    assert!(!entry_path_is_safe(&b"".to_vec()));
    assert!(!entry_path_is_safe(&b"/etc/passwd".to_vec()));
    assert!(!entry_path_is_safe(&b"../../etc/passwd".to_vec()));
    assert!(!entry_path_is_safe(&b"a/../b".to_vec()));
    assert!(!entry_path_is_safe(&b"a/..".to_vec()));
    assert!(!entry_path_is_safe(&b"..".to_vec()));
}

#[test]
fn validate_entries_reports_the_unsafe_path() {
    let entries = vec![
        ArchiveEntry { path: b"bin/zrc".to_vec(), is_dir: false, mode: None, data: vec![1] },
        ArchiveEntry {
            path: b"../../etc/passwd".to_vec(),
            is_dir: false,
            mode: None,
            data: vec![2],
        },
    ];
    match validate_entries(&entries) {
        Err(ZirconError::UnsafeArchiveEntry(p)) => assert_eq!(p, b"../../etc/passwd".to_vec()),
        other => panic!("expected UnsafeArchiveEntry, got {:?}", other),
    }
}

#[test]
fn extension_and_kind_detection() {
    assert_eq!(extension_of("toolchain.tar.gz"), "gz");
    assert_eq!(extension_of("toolchain.zip"), "zip");
    assert_eq!(extension_of("noext"), "");
    assert_eq!(extension_of(".hidden"), "");
    assert_eq!(archive_kind_from_extension("a.tar.gz").unwrap(), ArchiveKind::TarGz);
    assert_eq!(archive_kind_from_extension("a.tgz").unwrap(), ArchiveKind::TarGz);
    assert_eq!(archive_kind_from_extension("a.tar").unwrap(), ArchiveKind::Tar);
    assert_eq!(archive_kind_from_extension("a.zip").unwrap(), ArchiveKind::Zip);
    match archive_kind_from_extension("a.rar") {
        Err(ZirconError::UnsupportedArchiveFormat(ext)) => assert_eq!(ext, "rar"),
        other => panic!("expected UnsupportedArchiveFormat, got {:?}", other),
    }
}

#[test]
fn kind_by_name_prefers_the_full_suffix() {
    assert_eq!(archive_kind_from_name("a.tar.gz").unwrap(), ArchiveKind::TarGz);
    assert_eq!(archive_kind_from_name("a.tgz").unwrap(), ArchiveKind::TarGz);
    assert_eq!(archive_kind_from_name("a.zip").unwrap(), ArchiveKind::Zip);
    assert_eq!(archive_kind_from_name("a.tar").unwrap(), ArchiveKind::Tar);
    assert!(archive_kind_from_name("a.gz").is_err());
}

#[test]
fn version_from_filename_strips_suffixes() {
    assert_eq!(extract_version_from_filename("zrc-linux-x64.tar.gz").unwrap(), "zrc-linux-x64");
    assert_eq!(extract_version_from_filename("v0.1.0.zip").unwrap(), "v0.1.0");
    assert_eq!(extract_version_from_filename("build.tgz").unwrap(), "build");
    assert_eq!(extract_version_from_filename("plain.tar").unwrap(), "plain");
    match extract_version_from_filename(".tar.gz") {
        Err(ZirconError::InvalidArchiveName) => {},
        other => panic!("expected InvalidArchiveName, got {:?}", other),
    }
}

#[test]
fn tar_round_trip_preserves_contents() {
    let bytes = tar_bytes(&[("bin/zrc", b"#!zrc"), ("readme.txt", b"hello")]);
    let entries = extract_archive("toolchain.tar", &bytes).expect("extract");
    assert_eq!(entries.len(), 2);
    assert_eq!(entries[0].path, b"bin/zrc".to_vec());
    assert_eq!(entries[0].data, b"#!zrc".to_vec());
    assert!(!entries[0].is_dir);
    assert_eq!(entries[0].mode, Some(0o755));
    assert_eq!(entries[1].path, b"readme.txt".to_vec());
    assert!(validate_toolchain_structure(&entries).is_ok());
    assert!(has_entry_path(&entries, b"bin/zrc"));
    assert!(!has_entry_path(&entries, b"bin/zircon"));
}

#[test]
fn tar_gz_round_trip() {
    let bytes = gzip_bytes(&tar_bytes(&[("bin/zrc", b"bits")]));
    let entries = extract_archive("toolchain.tar.gz", &bytes).expect("extract");
    assert_eq!(entries.len(), 1);
    assert_eq!(entries[0].path, b"bin/zrc".to_vec());
    assert_eq!(entries[0].data, b"bits".to_vec());
}

#[test]
fn zip_round_trip() {
    let bytes = zip_bytes(&[("bin/zrc", b"zrc bits"), ("include/zrc.h", b"header")]);
    let entries = extract_archive("toolchain.zip", &bytes).expect("extract");
    assert_eq!(entries.len(), 2);
    assert_eq!(entries[0].path, b"bin/zrc".to_vec());
    assert_eq!(entries[0].data, b"zrc bits".to_vec());
    assert!(validate_toolchain_structure(&entries).is_ok());
}

#[test]
fn zip_with_traversal_entry_is_rejected() {
    // An entry stored as ../../etc/passwd fails the whole
    // extraction; nothing of the archive is handed out.
    let bytes = zip_bytes(&[("bin/zrc", b"ok"), ("../../etc/passwd", b"evil")]);
    match extract_archive("toolchain.zip", &bytes) {
        Err(ZirconError::UnsafeArchiveEntry(p)) => assert_eq!(p, b"../../etc/passwd".to_vec()),
        other => panic!("expected UnsafeArchiveEntry, got {:?}", other),
    }
}

#[test]
fn garbage_bytes_fail_to_decode() {
    let garbage = vec![1u8, 2, 3, 4, 5];
    match extract_archive("broken.zip", &garbage) {
        Err(ZirconError::ArchiveReadFailed) => {},
        other => panic!("expected ArchiveReadFailed, got {:?}", other),
    }
    match extract_archive("broken.tar.gz", &garbage) {
        Err(ZirconError::ArchiveReadFailed) => {},
        other => panic!("expected ArchiveReadFailed, got {:?}", other),
    }
}

#[test]
fn structure_check_requires_bin() {
    let no_bin = extract_archive("x.tar", &tar_bytes(&[("docs/readme", b"hi")])).expect("extract");
    match validate_toolchain_structure(&no_bin) {
        Err(ZirconError::InvalidToolchainStructure) => {},
        other => panic!("expected InvalidToolchainStructure, got {:?}", other),
    }
    let dot_bin = extract_archive("x.tar", &tar_bytes(&[("./bin/zrc", b"hi")])).expect("extract");
    assert!(validate_toolchain_structure(&dot_bin).is_ok());
}

#[test]
fn extract_by_name_handles_double_suffix() {
    let bytes = gzip_bytes(&tar_bytes(&[("bin/zircon", b"self")]));
    let entries = extract_archive_by_name("zircon-linux-x64.tar.gz", &bytes).expect("extract");
    assert_eq!(entries.len(), 1);
    assert!(has_entry_path(&entries, b"bin/zircon"));
}
