//! Reference classification, name derivation, checkout precedence.

use zircon::errors::ZirconError;
use zircon::gitref::checkout_plan;
use zircon::gitref::classify_ref;
use zircon::gitref::short_commit;
use zircon::gitref::toolchain_name;
use zircon::gitref::sanitize_branch;
use zircon::gitref::CheckoutPlan;
use zircon::gitref::CheckoutProbe;
use zircon::gitref::RefProbe;
use zircon::gitref::RefType;
use zircon::gitref::ResolvedRef;

fn probe(
    has_tag: bool,
    has_local_branch: bool,
    has_remote_branch: bool,
    is_commit: bool,
    resolved_name: Option<&str>,
) -> RefProbe {
    RefProbe {
        has_tag,
        has_local_branch,
        has_remote_branch,
        is_commit,
        resolved_name: resolved_name.map(|s| s.to_string()),
    }
}

#[test]
fn tag_name_is_kept_verbatim() {
    // A reference that resolves to a tag names the toolchain by the
    // tag text exactly, however often it is resolved.
    let p = probe(true, false, false, false, None);
    for _ in 0..3 {
        let rt = classify_ref(&p, "v0.1.0");
        match &rt {
            RefType::Tag(t) => assert_eq!(t, "v0.1.0"),
            other => panic!("expected Tag, got {:?}", other),
        }
        assert_eq!(toolchain_name(&rt, "abcdef12"), "v0.1.0");
    }
}

#[test]
fn tag_beats_commit_looking_name() {
    // A name that is both a tag and a plausible hash resolves as the
    // tag.
    let p = probe(true, false, false, true, None);
    match classify_ref(&p, "deadbeef") {
        RefType::Tag(t) => assert_eq!(t, "deadbeef"),
        other => panic!("expected Tag, got {:?}", other),
    }
}

#[test]
fn branch_name_carries_short_commit() {
    // A branch yields {branch-with-separators-replaced}@{8 hash
    // characters}, the prefix of the resolved commit hash.
    let p = probe(false, false, true, false, None);
    let rt = classify_ref(&p, "feature/fast-parse");
    let full = "0123456789abcdef0123456789abcdef01234567";
    let short = short_commit(full);
    assert_eq!(short, "01234567");
    assert!(full.starts_with(&short));
    assert_eq!(toolchain_name(&rt, &short), "feature-fast-parse@01234567");
}

#[test]
fn sanitize_replaces_every_separator() {
    assert_eq!(sanitize_branch("a/b/c"), "a-b-c");
    assert_eq!(sanitize_branch("main"), "main");
}

#[test]
fn commit_name_is_the_short_hash() {
    let p = probe(false, false, false, true, None);
    match classify_ref(&p, "0123456789abcdef0123456789abcdef01234567") {
        RefType::Commit(c) => assert_eq!(c, "01234567"),
        other => panic!("expected Commit, got {:?}", other),
    }
    // shorter than eight characters: kept whole
    match classify_ref(&p, "abc123") {
        RefType::Commit(c) => assert_eq!(c, "abc123"),
        other => panic!("expected Commit, got {:?}", other),
    }
}

#[test]
fn short_name_namespace_fallback() {
    let tag = probe(false, false, false, false, Some("refs/tags/v1.2.3"));
    assert!(matches!(classify_ref(&tag, "v1.2.3"), RefType::Tag(_)));
    let remote = probe(false, false, false, false, Some("refs/remotes/origin/dev"));
    assert!(matches!(classify_ref(&remote, "dev"), RefType::Branch(_)));
    let unknown = probe(false, false, false, false, None);
    assert!(matches!(classify_ref(&unknown, "mystery"), RefType::Branch(_)));
}

fn rref(name: &str, commit: &str) -> ResolvedRef {
    ResolvedRef { ref_name: name.to_string(), commit_id: commit.to_string() }
}

#[test]
fn remote_branch_wins_over_stale_local() {
    // A name that exists both as a remote-tracking branch and as a
    // stale local branch checks out at the remote commit.
    let p = CheckoutProbe {
        remote_branch: Some(rref("refs/remotes/origin/dev", "1111111111111111111111111111111111111111")),
        short_name: Some(rref("refs/heads/dev", "2222222222222222222222222222222222222222")),
        commit: None,
    };
    match checkout_plan(&p, "dev").expect("plan") {
        CheckoutPlan::AttachHead(r) => {
            assert_eq!(r.ref_name, "refs/remotes/origin/dev");
            assert_eq!(r.commit_id, "1111111111111111111111111111111111111111");
        },
        other => panic!("expected AttachHead, got {:?}", other),
    }
}

#[test]
fn short_name_is_second_and_commit_last() {
    let p = CheckoutProbe {
        remote_branch: None,
        short_name: Some(rref("refs/tags/v1.0.0", "3333333333333333333333333333333333333333")),
        commit: Some("4444444444444444444444444444444444444444".to_string()),
    };
    match checkout_plan(&p, "v1.0.0").expect("plan") {
        CheckoutPlan::AttachHead(r) => assert_eq!(r.ref_name, "refs/tags/v1.0.0"),
        other => panic!("expected AttachHead, got {:?}", other),
    }
    let p2 = CheckoutProbe {
        remote_branch: None,
        short_name: None,
        commit: Some("4444444444444444444444444444444444444444".to_string()),
    };
    match checkout_plan(&p2, "4444").expect("plan") {
        CheckoutPlan::DetachHead(c) => {
            assert_eq!(c, "4444444444444444444444444444444444444444");
        },
        other => panic!("expected DetachHead, got {:?}", other),
    }
}

#[test]
fn nothing_resolves_is_reference_not_found() {
    let p = CheckoutProbe { remote_branch: None, short_name: None, commit: None };
    match checkout_plan(&p, "missing") {
        Err(ZirconError::ReferenceNotFound(n)) => assert_eq!(n, "missing"),
        other => panic!("expected ReferenceNotFound, got {:?}", other),
    }
}
