//! Classifying user-supplied references and deriving toolchain names.
//!
//! A reference string can name a tag, a branch, or a commit. The
//! classification is decided by probing the mirror in a fixed order;
//! the probe outcome is captured in [`RefProbe`] so that the decision
//! itself is a pure, fully specified function. The same holds for the
//! checkout precedence order, captured in [`CheckoutProbe`].

use vstd::prelude::*;
use vstd::string::StrSliceExecFns;
use vstd::string::StringExecFns;

use crate::errors::ZirconError;
use crate::strutil::str_starts_with;
use crate::strutil::take_chars;

verus! {

/// The kind of a resolved reference, with its canonical text.
#[derive(Debug, Clone, PartialEq, Eq)]
pub enum RefType {
    /// An exact tag name; carries the tag text verbatim.
    Tag(String),
    /// A branch name, local or remote-tracking.
    Branch(String),
    /// A raw commit hash; carries at most its first eight characters.
    Commit(String),
}

/// The mathematical shape of a [`RefType`].
pub enum RefClass {
    Tag(Seq<char>),
    Branch(Seq<char>),
    Commit(Seq<char>),
}

impl View for RefType {
    type V = RefClass;

    open spec fn view(&self) -> RefClass {
        match self {
            RefType::Tag(s) => RefClass::Tag(s@),
            RefType::Branch(s) => RefClass::Branch(s@),
            RefType::Commit(s) => RefClass::Commit(s@),
        }
    }
}

/// What probing the mirror for a reference name found.
pub struct RefProbe {
    /// A tag reference of this exact name exists.
    pub has_tag: bool,
    /// A local branch of this name exists.
    pub has_local_branch: bool,
    /// A remote-tracking branch of this name exists.
    pub has_remote_branch: bool,
    /// The name parses as a hash that resolves to a real commit.
    pub is_commit: bool,
    /// The full name that generic short-name resolution found, if any.
    pub resolved_name: Option<String>,
}

/// The mathematical shape of a [`RefProbe`].
pub struct RefProbeModel {
    pub has_tag: bool,
    pub has_local_branch: bool,
    pub has_remote_branch: bool,
    pub is_commit: bool,
    pub resolved_name: Option<Seq<char>>,
}

impl View for RefProbe {
    type V = RefProbeModel;

    open spec fn view(&self) -> RefProbeModel {
        RefProbeModel {
            has_tag: self.has_tag,
            has_local_branch: self.has_local_branch,
            has_remote_branch: self.has_remote_branch,
            is_commit: self.is_commit,
            resolved_name: match self.resolved_name {
                Some(ref s) => Some(s@),
                None => None,
            },
        }
    }
}

/// The shortened form of a commit hash: its first eight characters,
/// or the whole of it when it is shorter.
pub open spec fn spec_short_text(name: Seq<char>) -> Seq<char> {
    if name.len() < 8 {
        name
    } else {
        name.take(8)
    }
}

/// The classification order: a tag of the exact name wins, then a
/// local or remote-tracking branch, then a resolvable commit hash,
/// then the namespace of whatever short-name resolution found; an
/// unclassifiable name is permissively treated as a branch.
pub open spec fn spec_classify(p: RefProbeModel, name: Seq<char>) -> RefClass {
    if p.has_tag {
        RefClass::Tag(name)
    } else if p.has_local_branch || p.has_remote_branch {
        RefClass::Branch(name)
    } else if p.is_commit {
        RefClass::Commit(spec_short_text(name))
    } else if p.resolved_name matches Some(full) && "refs/tags/"@.is_prefix_of(full) {
        RefClass::Tag(name)
    } else {
        RefClass::Branch(name)
    }
}

/// Classifies a reference name from its probe outcome.
pub fn classify_ref(p: &RefProbe, name: &str) -> (r: RefType)
    ensures
        r@ == spec_classify(p@, name@),
{
    if p.has_tag {
        return RefType::Tag(String::from_str(name));
    }
    if p.has_local_branch || p.has_remote_branch {
        return RefType::Branch(String::from_str(name));
    }
    if p.is_commit {
        let n: usize = name.unicode_len();
        if n < 8 {
            return RefType::Commit(String::from_str(name));
        }
        return RefType::Commit(take_chars(name, 8));
    }
    if let Some(full) = &p.resolved_name {
        if str_starts_with(full.as_str(), "refs/tags/") {
            return RefType::Tag(String::from_str(name));
        }
    }
    RefType::Branch(String::from_str(name))
}

/// A branch name with every path separator replaced, so that it can
/// serve as a single directory name.
pub open spec fn spec_sanitize_branch(b: Seq<char>) -> Seq<char> {
    b.map(
        |i: int, c: char|
            if c == '/' {
                '-'
            } else {
                c
            },
    )
}

/// Replaces every `/` in a branch name by `-`.
pub fn sanitize_branch(b: &str) -> (r: String)
    ensures
        r@ == spec_sanitize_branch(b@),
{
    let n: usize = b.unicode_len();
    let mut out: String = String::new();
    proof {
        assert(out@ =~= spec_sanitize_branch(b@.take(0)));
    }
    let mut i: usize = 0;
    while i < n
        invariant
            n == b@.len(),
            i <= n,
            out@ == spec_sanitize_branch(b@.take(i as int)),
        decreases n - i,
    {
        let c = b.get_char(i);
        if c == '/' {
            out.append("-");
            proof {
                reveal_strlit("-");
                assert("-"@ =~= seq!['-']);
            }
        } else {
            let piece: &str = b.substring_char(i, i + 1);
            out.append(piece);
        }
        proof {
            assert(spec_sanitize_branch(b@.take(i + 1)) =~= spec_sanitize_branch(
                b@.take(i as int),
            ) + seq![
                if b@[i as int] == '/' {
                    '-'
                } else {
                    b@[i as int]
                },
            ]);
        }
        i = i + 1;
    }
    proof {
        assert(b@.take(n as int) =~= b@);
    }
    out
}

/// The canonical toolchain name of a classified reference: a tag text
/// verbatim; a sanitised branch name joined by `@` to the shortened
/// commit hash; a shortened commit hash alone.
pub open spec fn spec_toolchain_name(r: RefClass, short: Seq<char>) -> Seq<char> {
    match r {
        RefClass::Tag(t) => t,
        RefClass::Branch(b) => spec_sanitize_branch(b) + seq!['@'] + short,
        RefClass::Commit(c) => c,
    }
}

/// Derives the toolchain name from a classified reference and the
/// shortened hash of the commit it resolved to.
pub fn toolchain_name(r: &RefType, commit_short: &str) -> (name: String)
    ensures
        name@ == spec_toolchain_name(r@, commit_short@),
{
    match r {
        RefType::Tag(t) => t.clone(),
        RefType::Branch(b) => {
            let mut out: String = sanitize_branch(b.as_str());
            out.append("@");
            out.append(commit_short);
            proof {
                reveal_strlit("@");
                assert("@"@ =~= seq!['@']);
            }
            out
        },
        RefType::Commit(c) => c.clone(),
    }
}

/// The first eight characters of a full commit hash.
pub fn short_commit(full: &str) -> (r: String)
    requires
        full@.len() >= 8,
    ensures
        r@ == full@.take(8),
{
    take_chars(full, 8)
}

/// A reference that resolved to a commit: its full reference name and
/// the hash of the commit it points at.
#[derive(Debug, Clone)]
pub struct ResolvedRef {
    /// The full reference name, such as a remote-tracking path.
    pub ref_name: String,
    /// The full hash of the commit the reference peels to.
    pub commit_id: String,
}

/// The mathematical shape of a [`ResolvedRef`].
pub struct ResolvedRefModel {
    pub ref_name: Seq<char>,
    pub commit_id: Seq<char>,
}

impl View for ResolvedRef {
    type V = ResolvedRefModel;

    open spec fn view(&self) -> ResolvedRefModel {
        ResolvedRefModel { ref_name: self.ref_name@, commit_id: self.commit_id@ }
    }
}

/// What probing the mirror ahead of a checkout found, one field per
/// rung of the precedence ladder.
pub struct CheckoutProbe {
    /// The remote-tracking branch of the requested name, if any.
    pub remote_branch: Option<ResolvedRef>,
    /// What generic short-name resolution found, if anything.
    pub short_name: Option<ResolvedRef>,
    /// The commit the name denotes directly, if it parses as a hash.
    pub commit: Option<String>,
}

/// The mathematical shape of a [`CheckoutProbe`].
pub struct CheckoutProbeModel {
    pub remote_branch: Option<ResolvedRefModel>,
    pub short_name: Option<ResolvedRefModel>,
    pub commit: Option<Seq<char>>,
}

impl View for CheckoutProbe {
    type V = CheckoutProbeModel;

    open spec fn view(&self) -> CheckoutProbeModel {
        CheckoutProbeModel {
            remote_branch: match self.remote_branch {
                Some(ref r) => Some(r@),
                None => None,
            },
            short_name: match self.short_name {
                Some(ref r) => Some(r@),
                None => None,
            },
            commit: match self.commit {
                Some(ref c) => Some(c@),
                None => None,
            },
        }
    }
}

/// How a checkout is to proceed.
#[derive(Debug, Clone)]
pub enum CheckoutPlan {
    /// Check out the commit and point the head at the reference.
    AttachHead(ResolvedRef),
    /// Check out the commit and leave the head detached on it.
    DetachHead(String),
}

/// The mathematical shape of a [`CheckoutPlan`].
pub enum CheckoutPlanModel {
    AttachHead(ResolvedRefModel),
    DetachHead(Seq<char>),
}

impl View for CheckoutPlan {
    type V = CheckoutPlanModel;

    open spec fn view(&self) -> CheckoutPlanModel {
        match self {
            CheckoutPlan::AttachHead(r) => CheckoutPlanModel::AttachHead(r@),
            CheckoutPlan::DetachHead(c) => CheckoutPlanModel::DetachHead(c@),
        }
    }
}

/// The checkout precedence order: the remote-tracking branch wins,
/// so that the state just fetched is used even when a stale local
/// reference of the same name exists; then generic short-name
/// resolution; then a literal commit hash; else nothing resolves.
pub open spec fn spec_checkout_plan(p: CheckoutProbeModel) -> Option<CheckoutPlanModel> {
    if p.remote_branch is Some {
        Some(CheckoutPlanModel::AttachHead(p.remote_branch.unwrap()))
    } else if p.short_name is Some {
        Some(CheckoutPlanModel::AttachHead(p.short_name.unwrap()))
    } else if p.commit is Some {
        Some(CheckoutPlanModel::DetachHead(p.commit.unwrap()))
    } else {
        None
    }
}

/// Decides a checkout from its probe outcome.
pub fn checkout_plan(p: &CheckoutProbe, ref_name: &str) -> (r: Result<CheckoutPlan, ZirconError>)
    ensures
        match r {
            Ok(plan) => spec_checkout_plan(p@) == Some(plan@),
            Err(e) => {
                &&& spec_checkout_plan(p@) is None
                &&& e matches ZirconError::ReferenceNotFound(n) && n@ == ref_name@
            },
        },
{
    if let Some(rb) = &p.remote_branch {
        return Ok(
            CheckoutPlan::AttachHead(
                ResolvedRef { ref_name: rb.ref_name.clone(), commit_id: rb.commit_id.clone() },
            ),
        );
    }
    if let Some(sn) = &p.short_name {
        return Ok(
            CheckoutPlan::AttachHead(
                ResolvedRef { ref_name: sn.ref_name.clone(), commit_id: sn.commit_id.clone() },
            ),
        );
    }
    if let Some(c) = &p.commit {
        return Ok(CheckoutPlan::DetachHead(c.clone()));
    }
    Err(ZirconError::ReferenceNotFound(String::from_str(ref_name)))
}

/// A reference that probes as an existing tag always yields the tag
/// text itself as the toolchain name, whatever the commit hash reads.
pub proof fn lemma_tag_name_verbatim(p: RefProbeModel, name: Seq<char>, short: Seq<char>)
    requires
        p.has_tag,
    ensures
        spec_toolchain_name(spec_classify(p, name), short) == name,
{
}

/// A reference that probes as a branch yields the name
/// `{sanitised branch}@{eight hash characters}`, and those eight
/// characters are a prefix of the full resolved hash.
pub proof fn lemma_branch_name_shape(p: RefProbeModel, name: Seq<char>, full: Seq<char>)
    requires
        !p.has_tag,
        p.has_local_branch || p.has_remote_branch,
        full.len() >= 8,
    ensures
        spec_toolchain_name(spec_classify(p, name), full.take(8)) == spec_sanitize_branch(name)
            + seq!['@'] + full.take(8),
        full.take(8).len() == 8,
        full.take(8).is_prefix_of(full),
{
    assert(full.take(8).is_prefix_of(full)) by {
        assert(full.take(full.take(8).len() as int) =~= full.take(8));
    }
}

/// A name that exists both as a remote-tracking branch and as some
/// locally resolvable reference is always checked out at the
/// remote-tracking branch's commit, never the local one.
pub proof fn lemma_remote_branch_wins(p: CheckoutProbeModel)
    requires
        p.remote_branch is Some,
    ensures
        spec_checkout_plan(p) == Some(
            CheckoutPlanModel::AttachHead(p.remote_branch.unwrap()),
        ),
{
}

} // verus!
