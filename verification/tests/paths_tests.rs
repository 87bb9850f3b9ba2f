//! The path registry, platform naming, dependency probing helpers,
//! and the update decision.

use zircon::deps::clang_candidates;
use zircon::deps::llvm_config_candidates;
use zircon::deps::llvm_version_ok;
use zircon::paths;
use zircon::platform::classify_platform;
use zircon::platform::get_platform_artifact_name;
use zircon::platform::release_file_name;
use zircon::platform::release_url;
use zircon::update::check_for_updates;
use zircon::update::update_check_due;
use zircon::update::UpdateProbe;

#[test]
fn layout_is_derived_from_the_root() {
    let r = "/home/me/.zircon";
    assert_eq!(paths::sources_dir(r), "/home/me/.zircon/sources");
    assert_eq!(paths::zirco_lang_dir(r), "/home/me/.zircon/sources/zirco-lang");
    assert_eq!(paths::zrc_source_dir(r), "/home/me/.zircon/sources/zirco-lang/zrc");
    assert_eq!(paths::zircon_source_dir(r), "/home/me/.zircon/sources/zirco-lang/zircon");
    assert_eq!(paths::toolchains_dir(r), "/home/me/.zircon/toolchains");
    assert_eq!(paths::toolchain_dir(r, "v0.1.0"), "/home/me/.zircon/toolchains/v0.1.0");
    assert_eq!(paths::current_toolchain_link(r), "/home/me/.zircon/toolchains/current");
    assert_eq!(paths::current_toolchain_bin_sh(r), "/home/me/.zircon/toolchains/current/bin.sh");
    assert_eq!(paths::current_toolchain_bin_ps1(r), "/home/me/.zircon/toolchains/current/bin.ps1");
    assert_eq!(paths::current_toolchain_bin_bat(r), "/home/me/.zircon/toolchains/current/bin.bat");
    assert_eq!(paths::self_dir(r), "/home/me/.zircon/self");
    assert_eq!(
        paths::self_bin_dir(r),
        "/home/me/.zircon/sources/zirco-lang/zircon/target/release"
    );
    assert_eq!(
        paths::self_zircon_binary(r),
        "/home/me/.zircon/sources/zirco-lang/zircon/target/release/zircon"
    );
    assert_eq!(paths::bin_dir(r), "/home/me/.zircon/bin");
    assert_eq!(paths::zircon_binary_link(r), "/home/me/.zircon/bin/zircon");
    assert_eq!(paths::update_check_file(r), "/home/me/.zircon/.last_update_check");
}

#[test]
fn ensure_directories_names_the_skeleton() {
    let dirs = paths::ensure_directories("/r");
    assert_eq!(
        dirs,
        vec![
            "/r/sources".to_string(),
            "/r/sources/zirco-lang".to_string(),
            "/r/toolchains".to_string(),
            "/r/sources/zirco-lang/zircon/target/release".to_string(),
            "/r/bin".to_string(),
        ]
    );
}

#[test]
fn artifact_names_cover_the_supported_platforms() {
    assert_eq!(get_platform_artifact_name("linux", "x86_64").unwrap(), "zrc-linux-x64.tar.gz");
    assert_eq!(get_platform_artifact_name("linux", "aarch64").unwrap(), "zrc-linux-arm64.tar.gz");
    assert_eq!(get_platform_artifact_name("macos", "x86_64").unwrap(), "zrc-macos-x64.tar.gz");
    assert_eq!(get_platform_artifact_name("macos", "aarch64").unwrap(), "zrc-macos-arm64.tar.gz");
    assert!(get_platform_artifact_name("windows", "x86_64").is_none());
    assert!(get_platform_artifact_name("linux", "riscv64").is_none());
}

#[test]
fn test_get_platform_artifact_name() {
    // must not panic, whatever the platform pair reads
    let _ = get_platform_artifact_name("linux", "x86_64");
}

#[test]
fn platform_classification_and_urls() {
    let (platform, arch) = classify_platform("linux", "aarch64").unwrap();
    assert_eq!(platform, "linux");
    assert_eq!(arch, "arm64");
    assert!(classify_platform("freebsd", "x86_64").is_none());
    let file = release_file_name("zrc", &platform, &arch);
    assert_eq!(file, "zrc-linux-arm64.tar.gz");
    assert_eq!(
        release_url("zrc", "nightly", &file),
        "https://github.com/zirco-lang/zrc/releases/download/nightly/zrc-linux-arm64.tar.gz"
    );
    assert_eq!(
        release_url("zircon", "v0.1.0", "zircon-macos-x64.tar.gz"),
        "https://github.com/zirco-lang/zircon/releases/download/v0.1.0/zircon-macos-x64.tar.gz"
    );
}

#[test]
fn dependency_candidates_and_version_check() {
    let llvm = llvm_config_candidates();
    assert_eq!(llvm.len(), 7);
    assert_eq!(llvm[0], "llvm-config");
    assert_eq!(llvm[1], "llvm-config-20");
    let clang = clang_candidates();
    assert_eq!(clang[0], "clang");
    assert_eq!(clang[2], "clang-mp-20");
    assert!(llvm_version_ok("20.1.3"));
    assert!(!llvm_version_ok("19.1.0"));
    assert!(!llvm_version_ok("2.0"));
}

#[test]
fn update_reminder_decision() {
    assert!(update_check_due(None));
    assert!(update_check_due(Some(86401)));
    assert!(!update_check_due(Some(86400)));
    assert!(!update_check_due(Some(10)));
    let remind = UpdateProbe {
        last_check_age_secs: None,
        local_commit: Some("aaaa".to_string()),
        remote_commit: Some("bbbb".to_string()),
        remote_descends_from_local: true,
    };
    assert!(check_for_updates(&remind));
    let same = UpdateProbe {
        last_check_age_secs: None,
        local_commit: Some("aaaa".to_string()),
        remote_commit: Some("aaaa".to_string()),
        remote_descends_from_local: true,
    };
    assert!(!check_for_updates(&same));
    let diverged = UpdateProbe {
        last_check_age_secs: None,
        local_commit: Some("aaaa".to_string()),
        remote_commit: Some("bbbb".to_string()),
        remote_descends_from_local: false,
    };
    assert!(!check_for_updates(&diverged));
    let not_due = UpdateProbe {
        last_check_age_secs: Some(100),
        local_commit: Some("aaaa".to_string()),
        remote_commit: Some("bbbb".to_string()),
        remote_descends_from_local: true,
    };
    assert!(!check_for_updates(&not_due));
}
