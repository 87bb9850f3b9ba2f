//! The synchronizer against a real local repository: clone-or-open,
//! fetch, classification and the checkout precedence order.

use zircon::gitref::RefType;
use zircon::sync::checkout_ref;
use zircon::sync::clone_or_open;
use zircon::sync::determine_ref_type;
use zircon::sync::fetch;
use zircon::sync::get_current_commit_short;

const ORIGIN_DIR: &str = "/tmp/zircon_sync_test_origin";
const CLONE_DIR: &str = "/tmp/zircon_sync_test_clone";

/// Builds (or reopens) a deterministic origin repository: commit one
/// on `main`, tagged `v1.0.0`, and commit two on `dev`.
fn ensure_origin() -> (String, String) {
    let repo = git2::Repository::init(ORIGIN_DIR).expect("init origin");
    let sig = git2::Signature::new("tester", "tester@example.com", &git2::Time::new(1700000000, 0))
        .expect("signature");

    let c1 = match repo.find_reference("refs/heads/main") {
        Ok(r) => r.peel_to_commit().expect("peel main"),
        Err(_) => {
            let blob = repo.blob(b"one").expect("blob one");
            let mut tb = repo.treebuilder(None).expect("treebuilder");
            tb.insert("file.txt", blob, 0o100644).expect("insert");
            let tree = repo.find_tree(tb.write().expect("write tree")).expect("find tree");
            let oid = repo
                .commit(Some("refs/heads/main"), &sig, &sig, "first", &tree, &[])
                .expect("commit one");
            repo.find_commit(oid).expect("find commit one")
        },
    };
    let c2 = match repo.find_reference("refs/heads/dev") {
        Ok(r) => r.peel_to_commit().expect("peel dev"),
        Err(_) => {
            let blob = repo.blob(b"two").expect("blob two");
            let mut tb = repo.treebuilder(None).expect("treebuilder");
            tb.insert("file.txt", blob, 0o100644).expect("insert");
            let tree = repo.find_tree(tb.write().expect("write tree")).expect("find tree");
            let oid = repo
                .commit(Some("refs/heads/dev"), &sig, &sig, "second", &tree, &[&c1])
                .expect("commit two");
            repo.find_commit(oid).expect("find commit two")
        },
    };
    repo.tag_lightweight("v1.0.0", c1.as_object(), true).expect("tag");
    repo.set_head("refs/heads/main").expect("set head");
    let c1_hex = c1.id().to_string();
    let c2_hex = c2.id().to_string();
    (c1_hex, c2_hex)
}

#[test]
fn synchronizer_against_a_local_origin() {
    let (c1_hex, c2_hex) = ensure_origin();

    // clone when absent, open when present
    let mirror = clone_or_open(ORIGIN_DIR, CLONE_DIR).expect("clone or open");
    fetch(&mirror).expect("fetch");

    // classification: tag, branch, commit, permissive default
    match determine_ref_type(&mirror, "v1.0.0") {
        RefType::Tag(t) => assert_eq!(t, "v1.0.0"),
        other => panic!("expected Tag, got {:?}", other),
    }
    match determine_ref_type(&mirror, "dev") {
        RefType::Branch(b) => assert_eq!(b, "dev"),
        other => panic!("expected Branch, got {:?}", other),
    }
    match determine_ref_type(&mirror, c1_hex.as_str()) {
        RefType::Commit(c) => assert_eq!(c, c1_hex[..8].to_string()),
        other => panic!("expected Commit, got {:?}", other),
    }
    match determine_ref_type(&mirror, "no-such-ref") {
        RefType::Branch(b) => assert_eq!(b, "no-such-ref"),
        other => panic!("expected Branch, got {:?}", other),
    }

    // a stale local branch of the same name: the remote-tracking
    // reference must win the checkout
    let c1 = mirror
        .find_commit(git2::Oid::from_str(c1_hex.as_str()).expect("oid"))
        .expect("c1 in mirror");
    mirror.branch("dev", &c1, true).expect("stale local dev");
    checkout_ref(&mirror, "dev").expect("checkout dev");
    let short = get_current_commit_short(&mirror).expect("short");
    assert_eq!(short, c2_hex[..8].to_string());
    assert!(c2_hex.starts_with(&short));

    // a tag checkout lands on the tagged commit
    checkout_ref(&mirror, "v1.0.0").expect("checkout tag");
    let short_tag = get_current_commit_short(&mirror).expect("short");
    assert_eq!(short_tag, c1_hex[..8].to_string());

    // a raw hash checks out detached
    checkout_ref(&mirror, c2_hex.as_str()).expect("checkout hash");
    assert_eq!(get_current_commit_short(&mirror).expect("short"), c2_hex[..8].to_string());

    // an unresolvable name fails with ReferenceNotFound
    match checkout_ref(&mirror, "no-such-ref") {
        Err(zircon::errors::ZirconError::ReferenceNotFound(n)) => assert_eq!(n, "no-such-ref"),
        other => panic!("expected ReferenceNotFound, got {:?}", other),
    }
}

#[test]
fn open_of_a_non_repository_is_corrupt() {
    // the path exists but holds no repository
    match clone_or_open("ignored-url", "/tmp") {
        Err(zircon::errors::ZirconError::RepositoryCorrupt) => {},
        other => panic!("expected RepositoryCorrupt, got {:?}", other.map(|_| ())),
    }
}

#[test]
fn clone_of_a_missing_origin_is_a_network_failure() {
    match clone_or_open(
        "/tmp/zircon_no_such_origin_anywhere",
        "/tmp/zircon_never_created_clone",
    ) {
        Err(zircon::errors::ZirconError::NetworkFailure) => {},
        other => panic!("expected NetworkFailure, got {:?}", other.map(|_| ())),
    }
}
