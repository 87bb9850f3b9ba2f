//! The registry state machine: listing, deletion, activation, prune.

use zircon::errors::ZirconError;
use zircon::registry::Registry;

fn registry_with(names: &[&str], current: Option<&str>) -> Registry {
    let mut reg = Registry::new();
    for n in names {
        reg.load_installed(n.to_string());
    }
    reg.load_current(current.map(|c| c.to_string()));
    reg
}

fn names_of(reg: &Registry) -> Vec<String> {
    reg.list_toolchains().into_iter().map(|t| t.name).collect()
}

#[test]
fn list_is_sorted_and_marks_current() {
    let reg = registry_with(&["v0.2.0", "main@abc12345", "v0.1.0"], Some("v0.1.0"));
    let infos = reg.list_toolchains();
    let names: Vec<&str> = infos.iter().map(|t| t.name.as_str()).collect();
    assert_eq!(names, vec!["main@abc12345", "v0.1.0", "v0.2.0"]);
    let current: Vec<bool> = infos.iter().map(|t| t.is_current).collect();
    assert_eq!(current, vec![false, true, false]);
}

#[test]
fn load_installed_is_idempotent() {
    let mut reg = registry_with(&["v0.1.0"], None);
    reg.load_installed("v0.1.0".to_string());
    assert_eq!(names_of(&reg), vec!["v0.1.0"]);
}

#[test]
fn exists_and_current() {
    let reg = registry_with(&["v0.1.0"], Some("v0.1.0"));
    assert!(reg.toolchain_exists("v0.1.0"));
    assert!(!reg.toolchain_exists("v0.2.0"));
    assert_eq!(reg.get_current_toolchain(), Some("v0.1.0".to_string()));
}

#[test]
fn delete_missing_fails() {
    let mut reg = registry_with(&["v0.1.0"], None);
    match reg.delete_toolchain("v9.9.9") {
        Err(ZirconError::ToolchainNotFound(name)) => assert_eq!(name, "v9.9.9"),
        other => panic!("expected ToolchainNotFound, got {:?}", other),
    }
    assert_eq!(names_of(&reg), vec!["v0.1.0"]);
}

#[test]
fn delete_current_fails_and_changes_nothing() {
    // Deleting the active toolchain always fails with
    // CannotDeleteActive and leaves the registry as it stood.
    let mut reg = registry_with(&["a", "b", "c"], Some("b"));
    match reg.delete_toolchain("b") {
        Err(ZirconError::CannotDeleteActive(name)) => assert_eq!(name, "b"),
        other => panic!("expected CannotDeleteActive, got {:?}", other),
    }
    assert_eq!(names_of(&reg), vec!["a", "b", "c"]);
    assert_eq!(reg.get_current_toolchain(), Some("b".to_string()));
}

#[test]
fn delete_other_removes_exactly_that_name() {
    let mut reg = registry_with(&["a", "b", "c"], Some("b"));
    assert!(reg.delete_toolchain("c").is_ok());
    assert_eq!(names_of(&reg), vec!["a", "b"]);
    assert_eq!(reg.get_current_toolchain(), Some("b".to_string()));
}

#[test]
fn prunable_excludes_current() {
    let reg = registry_with(&["a", "b", "c"], Some("b"));
    assert_eq!(reg.get_prunable_toolchains(), vec!["a", "c"]);
}

#[test]
fn prune_keeps_current_in_the_middle() {
    // The active toolchain survives a prune even when it is not
    // first in the sorted candidate list.
    let mut reg = registry_with(&["a", "b", "c", "d"], Some("c"));
    let removed = reg.prune();
    assert_eq!(removed, vec!["a", "b", "d"]);
    assert_eq!(names_of(&reg), vec!["c"]);
    assert_eq!(reg.get_current_toolchain(), Some("c".to_string()));
}

#[test]
fn prune_without_current_removes_everything() {
    let mut reg = registry_with(&["a", "b"], None);
    let removed = reg.prune();
    assert_eq!(removed, vec!["a", "b"]);
    assert!(names_of(&reg).is_empty());
}

#[test]
fn activate_missing_fails() {
    let mut reg = registry_with(&["a"], None);
    match reg.activate("b") {
        Err(ZirconError::ToolchainNotFound(name)) => assert_eq!(name, "b"),
        other => panic!("expected ToolchainNotFound, got {:?}", other),
    }
    assert_eq!(reg.get_current_toolchain(), None);
}

#[test]
fn activate_a_then_b_leaves_a_intact() {
    // After activating a and then b, the current toolchain is b and
    // a is still installed.
    let mut reg = registry_with(&["a", "b"], None);
    assert!(reg.activate("a").is_ok());
    assert_eq!(reg.get_current_toolchain(), Some("a".to_string()));
    assert!(reg.activate("b").is_ok());
    assert_eq!(reg.get_current_toolchain(), Some("b".to_string()));
    assert_eq!(names_of(&reg), vec!["a", "b"]);
    assert!(reg.toolchain_exists("a"));
}

#[test]
fn register_fresh_and_duplicate() {
    let mut reg = registry_with(&["a"], Some("a"));
    assert!(reg.register("b".to_string()).is_ok());
    assert_eq!(names_of(&reg), vec!["a", "b"]);
    match reg.register("b".to_string()) {
        Err(ZirconError::AlreadyExists(name)) => assert_eq!(name, "b"),
        other => panic!("expected AlreadyExists, got {:?}", other),
    }
    assert_eq!(names_of(&reg), vec!["a", "b"]);
}

#[test]
fn registered_name_is_not_current_until_activated() {
    let mut reg = registry_with(&["a"], Some("a"));
    assert!(reg.register("b".to_string()).is_ok());
    assert!(reg.toolchain_exists("b"));
    let infos = reg.list_toolchains();
    let entry = infos.iter().find(|t| t.name == "b").expect("entry for b");
    assert!(!entry.is_current);
    assert!(reg.activate("b").is_ok());
    assert_eq!(reg.get_current_toolchain(), Some("b".to_string()));
}

#[test]
fn build_failure_has_a_message() {
    let msg = ZirconError::BuildFailed(2).message();
    assert!(msg.contains("build hook failed"));
}

#[test]
fn error_messages_name_the_toolchain() {
    let mut reg = registry_with(&["a"], Some("a"));
    let err = reg.delete_toolchain("a").unwrap_err();
    let msg = err.message();
    assert!(msg.contains("cannot delete the current toolchain"));
    assert!(msg.contains("a"));
}
