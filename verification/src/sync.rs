//! The repository synchronizer: clone-or-open, fetch, reference
//! resolution and checkout against a local mirror.
//!
//! Every call into the source-control client stands behind a small
//! trusted wrapper; the precedence decisions themselves live in
//! [`crate::gitref`] as pure, fully specified functions, and the
//! functions here drive the client along those decisions.

use vstd::prelude::*;
use vstd::string::StringExecFns;

use crate::errors::ZirconError;
use crate::gitref::CheckoutPlan;
use crate::gitref::CheckoutProbe;
use crate::gitref::RefProbe;
use crate::gitref::RefType;
use crate::gitref::ResolvedRef;
use crate::gitref::checkout_plan;
use crate::gitref::classify_ref;
use crate::gitref::short_commit;
use crate::gitref::spec_short_text;
use crate::strutil::is_hex_digit;
use crate::strutil::is_hex_lower;

verus! {

#[verifier::external_type_specification]
#[verifier::external_body]
pub struct ExRepository(git2::Repository);

#[verifier::external_type_specification]
#[verifier::external_body]
pub struct ExGitError(git2::Error);

#[verifier::external_type_specification]
#[verifier::external_body]
pub struct ExOid(git2::Oid);

#[verifier::external_type_specification]
#[verifier::external_body]
pub struct ExReference<'a>(git2::Reference<'a>);

#[verifier::external_type_specification]
#[verifier::external_body]
pub struct ExRemote<'a>(git2::Remote<'a>);

#[verifier::external_type_specification]
#[verifier::external_body]
pub struct ExObject<'a>(git2::Object<'a>);

/// Relies on std's Path::exists: whether the path names anything on
/// disk right now.
#[verifier::external_body]
fn path_exists(path: &str) -> bool {
    std::path::Path::new(path).exists()
}

/// Relies on git2's Repository::open: opens the repository at a path
/// that already exists.
#[verifier::external_body]
fn repo_open(path: &str) -> Result<git2::Repository, git2::Error> {
    git2::Repository::open(path)
}

/// Relies on git2's Repository::clone: clones a remote repository
/// into a fresh path.
#[verifier::external_body]
fn repo_clone(url: &str, path: &str) -> Result<git2::Repository, git2::Error> {
    git2::Repository::clone(url, path)
}

/// Relies on git2's Repository::find_remote: looks a remote up by
/// its name.
#[verifier::external_body]
fn find_remote<'a>(repo: &'a git2::Repository, name: &str) -> Result<
    git2::Remote<'a>,
    git2::Error,
> {
    repo.find_remote(name)
}

/// Relies on git2's Remote::fetch: downloads and updates the given
/// refspecs from the remote.
#[verifier::external_body]
fn remote_fetch(remote: &mut git2::Remote<'_>, refspecs: &Vec<String>) -> Result<
    (),
    git2::Error,
> {
    let specs: Vec<&str> = refspecs.iter().map(|s| s.as_str()).collect();
    remote.fetch(&specs, None, None)
}

/// Relies on git2's Repository::find_reference: looks a reference up
/// by its full name.
#[verifier::external_body]
fn find_reference<'a>(repo: &'a git2::Repository, name: &str) -> Result<
    git2::Reference<'a>,
    git2::Error,
> {
    repo.find_reference(name)
}

/// Relies on git2's Repository::resolve_reference_from_short_name:
/// resolves a short name, preferring local namespaces.
#[verifier::external_body]
fn resolve_short_name<'a>(repo: &'a git2::Repository, name: &str) -> Result<
    git2::Reference<'a>,
    git2::Error,
> {
    repo.resolve_reference_from_short_name(name)
}

/// Relies on git2's Reference::name: the full, valid-UTF-8 name of a
/// reference.
#[verifier::external_body]
fn reference_full_name(gref: &git2::Reference<'_>) -> Result<String, git2::Error> {
    gref.name().map(|n| n.to_string())
}

/// Relies on git2's Reference::peel_to_commit and on Oid's hex form:
/// the hash of the commit a reference peels to is forty lower-case
/// hex digits.
#[verifier::external_body]
fn reference_commit_hash(gref: &git2::Reference<'_>) -> (r: Result<String, git2::Error>)
    ensures
        r matches Ok(h) ==> h@.len() == 40 && is_hex_lower(h@),
{
    gref.peel_to_commit().map(|c| format!("{}", c.id()))
}

/// Relies on git2's Oid::from_str: parsing succeeds exactly on one
/// to forty hex digits.
#[verifier::external_body]
fn oid_from_str(s: &str) -> (r: Result<git2::Oid, git2::Error>)
    ensures
        (r is Ok) == (1 <= s@.len() <= 40 && (forall|i: int|
            0 <= i < s@.len() ==> is_hex_digit(#[trigger] s@[i]))),
{
    git2::Oid::from_str(s)
}

/// Relies on git2's Repository::find_object: looks an object up by
/// its id.
#[verifier::external_body]
fn find_object<'a>(repo: &'a git2::Repository, oid: git2::Oid) -> Result<
    git2::Object<'a>,
    git2::Error,
> {
    repo.find_object(oid, None)
}

/// Relies on git2's Repository::find_commit: whether the id names a
/// commit in the repository.
#[verifier::external_body]
fn commit_exists(repo: &git2::Repository, oid: git2::Oid) -> bool {
    repo.find_commit(oid).is_ok()
}

/// Relies on git2's Object::id and on Oid's hex form: an object's
/// hash is forty lower-case hex digits.
#[verifier::external_body]
fn object_id_hex(obj: &git2::Object<'_>) -> (r: String)
    ensures
        r@.len() == 40 && is_hex_lower(r@),
{
    format!("{}", obj.id())
}

/// Relies on git2's Repository::checkout_tree with default options:
/// makes the working tree match the given object.
#[verifier::external_body]
fn checkout_tree(repo: &git2::Repository, obj: &git2::Object<'_>) -> Result<(), git2::Error> {
    repo.checkout_tree(obj, None)
}

/// Relies on git2's Repository::set_head: points the head at the
/// named reference.
#[verifier::external_body]
fn set_head(repo: &git2::Repository, refname: &str) -> Result<(), git2::Error> {
    repo.set_head(refname)
}

/// Relies on git2's Repository::set_head_detached: detaches the head
/// onto the given commit.
#[verifier::external_body]
fn set_head_detached(repo: &git2::Repository, oid: git2::Oid) -> Result<(), git2::Error> {
    repo.set_head_detached(oid)
}

/// Relies on git2's Repository::head: the reference the head points
/// at.
#[verifier::external_body]
fn repo_head<'a>(repo: &'a git2::Repository) -> Result<git2::Reference<'a>, git2::Error> {
    repo.head()
}

/// Opens the mirror at `path` when something already stands there,
/// and clones `url` into it otherwise. An existing path that is not
/// a usable repository is reported as corrupt; a failed clone as a
/// network failure.
pub fn clone_or_open(url: &str, path: &str) -> (r: Result<git2::Repository, ZirconError>)
    ensures
        r matches Err(e) ==> (e matches ZirconError::RepositoryCorrupt || e
            matches ZirconError::NetworkFailure),
{
    if path_exists(path) {
        match repo_open(path) {
            Ok(repo) => Ok(repo),
            Err(_) => Err(ZirconError::RepositoryCorrupt),
        }
    } else {
        match repo_clone(url, path) {
            Ok(repo) => Ok(repo),
            Err(_) => Err(ZirconError::NetworkFailure),
        }
    }
}

/// The refspecs a fetch updates: every branch into its
/// remote-tracking reference, and every tag.
fn fetch_refspecs() -> (r: Vec<String>)
    ensures
        r@.len() == 2,
        r@[0]@ == "refs/heads/*:refs/remotes/origin/*"@,
        r@[1]@ == "refs/tags/*:refs/tags/*"@,
{
    let mut v: Vec<String> = Vec::new();
    v.push(String::from_str("refs/heads/*:refs/remotes/origin/*"));
    v.push(String::from_str("refs/tags/*:refs/tags/*"));
    v
}

/// Updates all remote branch and tag references of the mirror from
/// its origin. A failure is surfaced as a network failure and leaves
/// the mirror as the client's own atomicity left it.
pub fn fetch(repo: &git2::Repository) -> (r: Result<(), ZirconError>)
    ensures
        r matches Err(e) ==> e matches ZirconError::NetworkFailure,
{
    let mut remote = match find_remote(repo, "origin") {
        Ok(remote) => remote,
        Err(_) => {
            return Err(ZirconError::NetworkFailure);
        },
    };
    let specs = fetch_refspecs();
    match remote_fetch(&mut remote, &specs) {
        Ok(()) => Ok(()),
        Err(_) => Err(ZirconError::NetworkFailure),
    }
}

/// Probes one rung of the checkout ladder: a reference found under
/// `full_name`, peeled to its commit.
fn probe_reference(repo: &git2::Repository, full_name: &str) -> (r: Option<ResolvedRef>)
    ensures
        r matches Some(rr) ==> rr@.commit_id.len() == 40 && is_hex_lower(rr@.commit_id),
{
    let gref = match find_reference(repo, full_name) {
        Ok(gref) => gref,
        Err(_) => {
            return None;
        },
    };
    let commit_id = match reference_commit_hash(&gref) {
        Ok(h) => h,
        Err(_) => {
            return None;
        },
    };
    let ref_name = match reference_full_name(&gref) {
        Ok(n) => n,
        Err(_) => {
            return None;
        },
    };
    Some(ResolvedRef { ref_name, commit_id })
}

/// Probes the short-name rung of the checkout ladder.
fn probe_short_name(repo: &git2::Repository, name: &str) -> (r: Option<ResolvedRef>)
    ensures
        r matches Some(rr) ==> rr@.commit_id.len() == 40 && is_hex_lower(rr@.commit_id),
{
    let gref = match resolve_short_name(repo, name) {
        Ok(gref) => gref,
        Err(_) => {
            return None;
        },
    };
    let commit_id = match reference_commit_hash(&gref) {
        Ok(h) => h,
        Err(_) => {
            return None;
        },
    };
    let ref_name = match reference_full_name(&gref) {
        Ok(n) => n,
        Err(_) => {
            return None;
        },
    };
    Some(ResolvedRef { ref_name, commit_id })
}

/// Checks out a commit by its full hex hash and sets the head as the
/// plan says.
fn execute_plan(repo: &git2::Repository, plan: &CheckoutPlan) -> (r: Result<(), ZirconError>)
    requires
        match plan@ {
            crate::gitref::CheckoutPlanModel::AttachHead(rr) => rr.commit_id.len() == 40
                && is_hex_lower(rr.commit_id),
            crate::gitref::CheckoutPlanModel::DetachHead(c) => c.len() == 40 && is_hex_lower(c),
        },
    ensures
        r matches Err(e) ==> e matches ZirconError::RepositoryCorrupt,
{
    let commit_hex: &str = match plan {
        CheckoutPlan::AttachHead(rr) => rr.commit_id.as_str(),
        CheckoutPlan::DetachHead(c) => c.as_str(),
    };
    proof {
        assert(forall|i: int|
            0 <= i < commit_hex@.len() ==> is_hex_digit(#[trigger] commit_hex@[i]));
    }
    let oid = match oid_from_str(commit_hex) {
        Ok(oid) => oid,
        Err(_) => {
            proof {
                assert(false);
            }
            return Err(ZirconError::RepositoryCorrupt);
        },
    };
    let obj = match find_object(repo, oid) {
        Ok(obj) => obj,
        Err(_) => {
            return Err(ZirconError::RepositoryCorrupt);
        },
    };
    if let Err(_) = checkout_tree(repo, &obj) {
        return Err(ZirconError::RepositoryCorrupt);
    }
    match plan {
        CheckoutPlan::AttachHead(rr) => {
            match set_head(repo, rr.ref_name.as_str()) {
                Ok(()) => Ok(()),
                Err(_) => Err(ZirconError::RepositoryCorrupt),
            }
        },
        CheckoutPlan::DetachHead(_) => {
            match set_head_detached(repo, oid) {
                Ok(()) => Ok(()),
                Err(_) => Err(ZirconError::RepositoryCorrupt),
            }
        },
    }
}

/// Resolves `ref_name` by the precedence order of
/// [`crate::gitref::spec_checkout_plan`] — the remote-tracking branch
/// first, then generic short-name resolution, then a literal commit
/// hash — and moves the working tree and head there. Fails with
/// `ReferenceNotFound` when no rung resolves.
pub fn checkout_ref(repo: &git2::Repository, ref_name: &str) -> (r: Result<(), ZirconError>)
    ensures
        r matches Err(e) ==> match e {
            ZirconError::ReferenceNotFound(n) => n@ == ref_name@,
            ZirconError::RepositoryCorrupt => true,
            _ => false,
        },
{
    let remote_name = String::from_str("refs/remotes/origin/").concat(ref_name);
    let remote_branch = probe_reference(repo, remote_name.as_str());
    let short_name = probe_short_name(repo, ref_name);
    let commit: Option<String> = match oid_from_str(ref_name) {
        Ok(oid) => {
            match find_object(repo, oid) {
                Ok(obj) => Some(object_id_hex(&obj)),
                Err(_) => None,
            }
        },
        Err(_) => None,
    };
    let probe = CheckoutProbe { remote_branch, short_name, commit };
    let plan = match checkout_plan(&probe, ref_name) {
        Ok(plan) => plan,
        Err(e) => {
            return Err(e);
        },
    };
    execute_plan(repo, &plan)
}

/// The hash of the commit the mirror's head points at, shortened to
/// its first eight characters: eight lower-case hex digits.
pub fn get_current_commit_short(repo: &git2::Repository) -> (r: Result<String, ZirconError>)
    ensures
        r matches Ok(s) ==> s@.len() == 8 && is_hex_lower(s@),
        r matches Err(e) ==> e matches ZirconError::RepositoryCorrupt,
{
    let head = match repo_head(repo) {
        Ok(head) => head,
        Err(_) => {
            return Err(ZirconError::RepositoryCorrupt);
        },
    };
    let full = match reference_commit_hash(&head) {
        Ok(h) => h,
        Err(_) => {
            return Err(ZirconError::RepositoryCorrupt);
        },
    };
    let short = short_commit(full.as_str());
    Ok(short)
}

/// Classifies `ref_name` by probing the mirror in the order of
/// [`crate::gitref::spec_classify`]: a tag of the exact name, then a
/// local or remote-tracking branch, then a resolvable commit hash,
/// then the namespace of a short-name resolution, defaulting to a
/// branch. The text carried by the result is the reference name
/// itself — shortened to eight characters for a commit.
pub fn determine_ref_type(repo: &git2::Repository, ref_name: &str) -> (r: RefType)
    ensures
        match r@ {
            crate::gitref::RefClass::Tag(t) => t == ref_name@,
            crate::gitref::RefClass::Branch(b) => b == ref_name@,
            crate::gitref::RefClass::Commit(c) => c == spec_short_text(ref_name@),
        },
{
    let tag_name = String::from_str("refs/tags/").concat(ref_name);
    let has_tag = find_reference(repo, tag_name.as_str()).is_ok();
    let local_name = String::from_str("refs/heads/").concat(ref_name);
    let has_local_branch = find_reference(repo, local_name.as_str()).is_ok();
    let remote_name = String::from_str("refs/remotes/origin/").concat(ref_name);
    let has_remote_branch = find_reference(repo, remote_name.as_str()).is_ok();
    let is_commit = match oid_from_str(ref_name) {
        Ok(oid) => commit_exists(repo, oid),
        Err(_) => false,
    };
    let resolved_name: Option<String> = match resolve_short_name(repo, ref_name) {
        Ok(gref) => {
            match reference_full_name(&gref) {
                Ok(n) => Some(n),
                Err(_) => None,
            }
        },
        Err(_) => None,
    };
    let probe = RefProbe { has_tag, has_local_branch, has_remote_branch, is_commit, resolved_name };
    classify_ref(&probe, ref_name)
}

} // verus!
