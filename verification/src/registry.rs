//! The toolchain registry: the set of installed toolchains and the
//! single active one.
//!
//! A [`Registry`] is an explicit value loaded from the toolchains
//! directory at the start of an operation and written back by the
//! caller; the library never touches the filesystem itself. Its
//! model keeps the names sorted and distinct, mirrors the active
//! indirection in `current`, and every mutation is specified by a
//! model transition.
//!
//! One invocation at a time is assumed: nothing locks the
//! toolchains root against a second process racing on it.

use vstd::prelude::*;
use vstd::string::StringExecFns;

use crate::errors::ZirconError;
use crate::strutil::lex_le;
use crate::strutil::lemma_lex_le_total;
use crate::strutil::lemma_lex_le_transitive;
use crate::strutil::str_eq;
use crate::strutil::str_le;

verus! {

/// One installed toolchain, as reported by a listing.
#[derive(Debug, Clone)]
pub struct ToolchainInfo {
    /// The toolchain's canonical name.
    pub name: String,
    /// Whether this is the active toolchain.
    pub is_current: bool,
}

/// The mathematical shape of a [`ToolchainInfo`].
pub struct ToolchainInfoModel {
    pub name: Seq<char>,
    pub is_current: bool,
}

impl View for ToolchainInfo {
    type V = ToolchainInfoModel;

    open spec fn view(&self) -> ToolchainInfoModel {
        ToolchainInfoModel { name: self.name@, is_current: self.is_current }
    }
}

/// The mathematical state of a registry: the installed names and the
/// target of the active indirection, if any. The indirection may name
/// something that is not installed, as a dangling link on disk would.
pub struct RegistryModel {
    pub names: Seq<Seq<char>>,
    pub current: Option<Seq<char>>,
}

/// Whether the names are sorted strictly: ordered and pairwise
/// distinct.
pub open spec fn sorted_distinct(s: Seq<Seq<char>>) -> bool {
    forall|i: int, j: int|
        0 <= i < j < s.len() ==> lex_le(#[trigger] s[i], #[trigger] s[j]) && s[i] != s[j]
}

/// A well-formed registry model.
pub open spec fn wf_model(m: RegistryModel) -> bool {
    sorted_distinct(m.names)
}

/// Whether a toolchain of the given name is installed.
pub open spec fn model_contains(m: RegistryModel, n: Seq<char>) -> bool {
    m.names.contains(n)
}

/// Where `n` belongs in the sorted names `s`: every earlier name
/// sorts strictly before `n`, and the name at the position, if any,
/// sorts at or after it.
pub open spec fn is_insert_index(s: Seq<Seq<char>>, n: Seq<char>, i: int) -> bool {
    &&& 0 <= i <= s.len()
    &&& forall|j: int| 0 <= j < i ==> !lex_le(n, #[trigger] s[j])
    &&& i < s.len() ==> lex_le(n, s[i])
}

/// The insertion position of `n` in `s`.
pub open spec fn insert_index(s: Seq<Seq<char>>, n: Seq<char>) -> int {
    choose|i: int| is_insert_index(s, n, i)
}

/// An insertion position always exists.
pub proof fn lemma_insert_index_exists(s: Seq<Seq<char>>, n: Seq<char>)
    ensures
        exists|i: int| is_insert_index(s, n, i),
    decreases s.len(),
{
    if s.len() == 0 {
        assert(is_insert_index(s, n, 0));
    } else if lex_le(n, s[0]) {
        assert(is_insert_index(s, n, 0));
    } else {
        lemma_insert_index_exists(s.drop_first(), n);
        let i0 = choose|i: int| is_insert_index(s.drop_first(), n, i);
        assert forall|j: int| 0 <= j < i0 + 1 implies !lex_le(n, #[trigger] s[j]) by {
            if j > 0 {
                assert(!lex_le(n, s.drop_first()[j - 1]));
            }
        }
        assert(is_insert_index(s, n, i0 + 1));
    }
}

/// There is only one insertion position.
pub proof fn lemma_insert_index_unique(s: Seq<Seq<char>>, n: Seq<char>, i1: int, i2: int)
    requires
        is_insert_index(s, n, i1),
        is_insert_index(s, n, i2),
    ensures
        i1 == i2,
{
    if i1 < i2 {
        assert(lex_le(n, s[i1]));
        assert(!lex_le(n, s[i1]));
    }
    if i2 < i1 {
        assert(lex_le(n, s[i2]));
        assert(!lex_le(n, s[i2]));
    }
}

/// Registering a toolchain inserts its name at the sorted position;
/// the active indirection does not move.
pub open spec fn model_register(m: RegistryModel, n: Seq<char>) -> RegistryModel {
    RegistryModel { names: m.names.insert(insert_index(m.names, n), n), current: m.current }
}

/// The position of an installed name.
pub open spec fn index_of_name(s: Seq<Seq<char>>, n: Seq<char>) -> int {
    choose|i: int| 0 <= i < s.len() && s[i] == n
}

/// Deleting a toolchain removes its name; the active indirection does
/// not move.
pub open spec fn model_delete(m: RegistryModel, n: Seq<char>) -> RegistryModel {
    RegistryModel { names: m.names.remove(index_of_name(m.names, n)), current: m.current }
}

/// Activation repoints the indirection and touches nothing else.
pub open spec fn model_activate(m: RegistryModel, n: Seq<char>) -> RegistryModel {
    RegistryModel { names: m.names, current: Some(n) }
}

/// The prune candidates: every installed name except the active one.
pub open spec fn spec_prunable(names: Seq<Seq<char>>, cur: Option<Seq<char>>) -> Seq<Seq<char>> {
    names.filter(|x: Seq<char>| cur != Some(x))
}

/// Pruning keeps exactly the active name, when it is installed.
pub open spec fn model_prune(m: RegistryModel) -> RegistryModel {
    RegistryModel {
        names: m.names.filter(|x: Seq<char>| m.current == Some(x)),
        current: m.current,
    }
}

/// What a listing reports: each installed name in order, marked as
/// current exactly when the indirection names it.
pub open spec fn spec_list(m: RegistryModel) -> Seq<ToolchainInfoModel> {
    Seq::new(
        m.names.len(),
        |i: int|
            ToolchainInfoModel {
                name: m.names[i],
                is_current: m.current == Some(m.names[i]),
            },
    )
}

/// The views of a sequence of listing entries.
pub open spec fn infos_view(s: Seq<ToolchainInfo>) -> Seq<ToolchainInfoModel> {
    Seq::new(s.len(), |i: int| s[i]@)
}

/// Registering a fresh name keeps the registry well-formed, adds
/// exactly that name, and does not move the active indirection.
pub proof fn lemma_register_effect(m: RegistryModel, n: Seq<char>)
    requires
        wf_model(m),
        !model_contains(m, n),
    ensures
        wf_model(model_register(m, n)),
        model_contains(model_register(m, n), n),
        forall|x: Seq<char>|
            model_contains(model_register(m, n), x) <==> (x == n || model_contains(m, x)),
        model_register(m, n).names.len() == m.names.len() + 1,
        model_register(m, n).current == m.current,
{
    lemma_insert_index_exists(m.names, n);
    let i = insert_index(m.names, n);
    assert(is_insert_index(m.names, n, i));
    let t = m.names.insert(i, n);
    assert(t[i] == n);
    assert(t.contains(n));
    assert forall|x: Seq<char>| t.contains(x) implies (x == n || m.names.contains(x)) by {
        let k = choose|k: int| 0 <= k < t.len() && t[k] == x;
        if k < i {
            assert(m.names[k] == x);
        } else if k > i {
            assert(m.names[k - 1] == x);
        }
    }
    assert forall|x: Seq<char>| x == n || m.names.contains(x) implies t.contains(x) by {
        if x != n {
            let k = choose|k: int| 0 <= k < m.names.len() && m.names[k] == x;
            if k < i {
                assert(t[k] == x);
            } else {
                assert(t[k + 1] == x);
            }
        }
    }
    assert forall|a: int, b: int| 0 <= a < b < t.len() implies lex_le(#[trigger] t[a], #[trigger] t[b])
        && t[a] != t[b] by {
        lemma_sorted_insert_pair(m.names, n, i, a, b);
    }
}

/// One pair of the sortedness obligation after an insertion.
proof fn lemma_sorted_insert_pair(s: Seq<Seq<char>>, n: Seq<char>, i: int, a: int, b: int)
    requires
        sorted_distinct(s),
        !s.contains(n),
        is_insert_index(s, n, i),
        0 <= a < b < s.insert(i, n).len(),
    ensures
        lex_le(s.insert(i, n)[a], s.insert(i, n)[b]),
        s.insert(i, n)[a] != s.insert(i, n)[b],
{
    let t = s.insert(i, n);
    if a < i && b == i {
        // an earlier name against the inserted one
        assert(t[a] == s[a]);
        assert(!lex_le(n, s[a]));
        lemma_lex_le_total(s[a], n);
        assert(s.contains(s[a]));
    } else if a == i && b > i {
        // the inserted name against a later one
        assert(t[b] == s[b - 1]);
        assert(lex_le(n, s[i]));
        if b - 1 > i {
            lemma_lex_le_transitive(n, s[i], s[b - 1]);
        }
        assert(s.contains(s[b - 1]));
    } else if a < i && b > i {
        assert(t[a] == s[a]);
        assert(t[b] == s[b - 1]);
    } else if b < i {
        assert(t[a] == s[a]);
        assert(t[b] == s[b]);
    } else if a > i {
        assert(t[a] == s[a - 1]);
        assert(t[b] == s[b - 1]);
    }
}

/// Deleting an installed name removes exactly that name, keeps the
/// rest sorted, and does not move the active indirection.
pub proof fn lemma_delete_effect(m: RegistryModel, n: Seq<char>)
    requires
        wf_model(m),
        model_contains(m, n),
    ensures
        wf_model(model_delete(m, n)),
        !model_contains(model_delete(m, n), n),
        forall|x: Seq<char>|
            model_contains(model_delete(m, n), x) <==> (model_contains(m, x) && x != n),
        model_delete(m, n).names.len() == m.names.len() - 1,
        model_delete(m, n).current == m.current,
{
    let i = index_of_name(m.names, n);
    assert(0 <= i < m.names.len() && m.names[i] == n) by {
        let w = choose|k: int| 0 <= k < m.names.len() && m.names[k] == n;
        assert(0 <= w < m.names.len() && m.names[w] == n);
    }
    let t = m.names.remove(i);
    assert forall|x: Seq<char>| t.contains(x) implies (m.names.contains(x) && x != n) by {
        let k = choose|k: int| 0 <= k < t.len() && t[k] == x;
        if k < i {
            assert(m.names[k] == x);
            assert(m.names[k] != m.names[i]);
        } else {
            assert(m.names[k + 1] == x);
            assert(m.names[k + 1] != m.names[i]);
        }
    }
    assert forall|x: Seq<char>| m.names.contains(x) && x != n implies t.contains(x) by {
        let k = choose|k: int| 0 <= k < m.names.len() && m.names[k] == x;
        if k < i {
            assert(t[k] == x);
        } else {
            assert(k != i);
            assert(t[k - 1] == x);
        }
    }
    assert(!t.contains(n));
    assert forall|a: int, b: int| 0 <= a < b < t.len() implies lex_le(#[trigger] t[a], #[trigger] t[b])
        && t[a] != t[b] by {
        if b < i {
        } else if a < i <= b {
            assert(t[b] == m.names[b + 1]);
        } else {
            assert(t[a] == m.names[a + 1]);
            assert(t[b] == m.names[b + 1]);
        }
    }
}

/// Pruning never deletes the active toolchain, wherever it stands in
/// the sorted candidate list: when it is installed before the prune,
/// it is still installed after it.
pub proof fn lemma_prune_keeps_current(m: RegistryModel, cur: Seq<char>)
    requires
        m.current == Some(cur),
        model_contains(m, cur),
    ensures
        model_contains(model_prune(m), cur),
        model_prune(m).current == Some(cur),
{
    let i = choose|i: int| 0 <= i < m.names.len() && m.names[i] == cur;
    let pred = |x: Seq<char>| m.current == Some(x);
    assert(pred(m.names[i]));
    m.names.lemma_filter_contains(pred, i);
}

/// Activating `a` and then `b` leaves `b` active and every installed
/// toolchain, `a` among them, in place.
pub proof fn lemma_activation_switch(m: RegistryModel, a: Seq<char>, b: Seq<char>)
    requires
        model_contains(m, a),
        model_contains(m, b),
    ensures
        model_activate(model_activate(m, a), b).current == Some(b),
        model_activate(model_activate(m, a), b).names == m.names,
        model_contains(model_activate(model_activate(m, a), b), a),
{
}

/// A freshly registered toolchain is installed, and its listing entry
/// is not marked current until it is explicitly activated.
pub proof fn lemma_registered_not_current(m: RegistryModel, n: Seq<char>)
    requires
        wf_model(m),
        !model_contains(m, n),
        m.current != Some(n),
    ensures
        model_contains(model_register(m, n), n),
        exists|i: int|
            0 <= i < spec_list(model_register(m, n)).len() && #[trigger] spec_list(
                model_register(m, n),
            )[i].name == n && !spec_list(model_register(m, n))[i].is_current,
{
    lemma_register_effect(m, n);
    lemma_insert_index_exists(m.names, n);
    let i = insert_index(m.names, n);
    assert(is_insert_index(m.names, n, i));
    let m2 = model_register(m, n);
    assert(m2.names[i] == n);
    assert(spec_list(m2)[i].name == n && !spec_list(m2)[i].is_current);
}

/// The registry value itself: installed names, sorted and distinct,
/// and the target of the active indirection.
#[derive(Debug)]
pub struct Registry {
    names: Vec<String>,
    current: Option<String>,
}

impl View for Registry {
    type V = RegistryModel;

    closed spec fn view(&self) -> RegistryModel {
        RegistryModel {
            names: self.names.deep_view(),
            current: match self.current {
                Some(ref c) => Some(c@),
                None => None,
            },
        }
    }
}

impl Registry {
    /// Well-formedness: the stored names are sorted and distinct.
    pub open spec fn wf(&self) -> bool {
        wf_model(self@)
    }

    /// An empty registry: nothing installed, nothing active.
    pub fn new() -> (r: Registry)
        ensures
            r.wf(),
            r@.names =~= Seq::<Seq<char>>::empty(),
            r@.current is None,
    {
        Registry { names: Vec::new(), current: None }
    }

    /// The position of `version` among the stored names, if present.
    fn find_name(&self, version: &str) -> (r: Option<usize>)
        ensures
            match r {
                Some(i) => i < self@.names.len() && self@.names[i as int] == version@,
                None => !self@.names.contains(version@),
            },
    {
        let n: usize = self.names.len();
        let mut i: usize = 0;
        while i < n
            invariant
                n == self.names.len(),
                i <= n,
                forall|j: int| 0 <= j < i ==> self@.names[j] != version@,
            decreases n - i,
        {
            if str_eq(self.names[i].as_str(), version) {
                return Some(i);
            }
            i = i + 1;
        }
        proof {
            if self@.names.contains(version@) {
                let k = choose|k: int| 0 <= k < self@.names.len() && self@.names[k] == version@;
                assert(self@.names[k] != version@);
            }
        }
        None
    }

    /// Whether a toolchain of this name is installed.
    pub fn toolchain_exists(&self, version: &str) -> (r: bool)
        ensures
            r == model_contains(self@, version@),
    {
        let found = self.find_name(version);
        match found {
            Some(_) => true,
            None => false,
        }
    }

    /// The name the active indirection points at, or `None` when no
    /// toolchain is active.
    pub fn get_current_toolchain(&self) -> (r: Option<String>)
        ensures
            match r {
                Some(c) => self@.current == Some(c@),
                None => self@.current is None,
            },
    {
        match &self.current {
            Some(c) => Some(c.clone()),
            None => None,
        }
    }

    /// Loads one installed name found on disk. A name already present
    /// is left alone, so loading is idempotent.
    pub fn load_installed(&mut self, name: String)
        requires
            old(self).wf(),
        ensures
            final(self).wf(),
            model_contains(old(self)@, name@) ==> final(self)@ == old(self)@,
            !model_contains(old(self)@, name@) ==> final(self)@ == model_register(
                old(self)@,
                name@,
            ),
    {
        if self.toolchain_exists(name.as_str()) {
            return;
        }
        self.insert_fresh(name);
    }

    /// Loads the target of the active indirection found on disk.
    pub fn load_current(&mut self, link: Option<String>)
        ensures
            final(self)@.names == old(self)@.names,
            final(self).wf() == old(self).wf(),
            match link {
                Some(c) => final(self)@.current == Some(c@),
                None => final(self)@.current is None,
            },
    {
        self.current = link;
    }

    /// The sorted position at which a fresh name belongs.
    fn find_insert_pos(&self, name: &str) -> (i: usize)
        ensures
            is_insert_index(self@.names, name@, i as int),
    {
        let n: usize = self.names.len();
        let mut i: usize = 0;
        while i < n
            invariant
                n == self@.names.len(),
                n == self.names.len(),
                i <= n,
                forall|j: int| 0 <= j < i ==> !lex_le(name@, #[trigger] self@.names[j]),
            decreases n - i,
        {
            if str_le(name, self.names[i].as_str()) {
                return i;
            }
            i = i + 1;
        }
        i
    }

    /// Inserts a name known to be fresh at its sorted position.
    fn insert_fresh(&mut self, name: String)
        requires
            old(self).wf(),
            !model_contains(old(self)@, name@),
        ensures
            final(self).wf(),
            final(self)@ == model_register(old(self)@, name@),
    {
        let ghost s = self@.names;
        let i: usize = self.find_insert_pos(name.as_str());
        proof {
            lemma_insert_index_exists(s, name@);
            lemma_insert_index_unique(s, name@, i as int, insert_index(s, name@));
        }
        self.names.insert(i, name);
        proof {
            assert(self@.names =~= s.insert(i as int, name@));
            lemma_register_effect(old(self)@, name@);
        }
    }

    /// Registers a newly imported or built toolchain. Fails when a
    /// toolchain of the same name is already installed.
    pub fn register(&mut self, name: String) -> (r: Result<(), ZirconError>)
        requires
            old(self).wf(),
        ensures
            final(self).wf(),
            match r {
                Ok(()) => {
                    &&& !model_contains(old(self)@, name@)
                    &&& final(self)@ == model_register(old(self)@, name@)
                },
                Err(e) => {
                    &&& model_contains(old(self)@, name@)
                    &&& e matches ZirconError::AlreadyExists(x) && x@ == name@
                    &&& final(self)@ == old(self)@
                },
            },
    {
        if self.toolchain_exists(name.as_str()) {
            return Err(ZirconError::AlreadyExists(name));
        }
        self.insert_fresh(name);
        Ok(())
    }

    /// Lists the installed toolchains in sorted order, each marked as
    /// current exactly when the active indirection names it.
    pub fn list_toolchains(&self) -> (r: Vec<ToolchainInfo>)
        ensures
            infos_view(r@) =~= spec_list(self@),
    {
        let n: usize = self.names.len();
        let mut out: Vec<ToolchainInfo> = Vec::new();
        let mut i: usize = 0;
        while i < n
            invariant
                n == self.names.len(),
                i <= n,
                out@.len() == i,
                forall|j: int| 0 <= j < i ==> #[trigger] out@[j]@ == spec_list(self@)[j],
            decreases n - i,
        {
            let name = self.names[i].clone();
            let is_current = match &self.current {
                Some(c) => str_eq(c.as_str(), name.as_str()),
                None => false,
            };
            out.push(ToolchainInfo { name, is_current });
            i = i + 1;
        }
        out
    }

    /// The prune candidates, in sorted order: every installed name
    /// except the active one.
    pub fn get_prunable_toolchains(&self) -> (r: Vec<String>)
        ensures
            r.deep_view() == spec_prunable(self@.names, self@.current),
    {
        let ghost s = self@.names;
        let ghost cur = self@.current;
        let ghost pred = |x: Seq<char>| cur != Some(x);
        let n: usize = self.names.len();
        let mut out: Vec<String> = Vec::new();
        proof {
            assert(s.take(0) =~= Seq::<Seq<char>>::empty());
            reveal(Seq::filter);
            assert(out.deep_view() =~= s.take(0).filter(pred));
        }
        let mut i: usize = 0;
        while i < n
            invariant
                n == self.names.len(),
                i <= n,
                s == self@.names,
                cur == self@.current,
                pred == (|x: Seq<char>| cur != Some(x)),
                out.deep_view() == s.take(i as int).filter(pred),
            decreases n - i,
        {
            let keep = match &self.current {
                Some(c) => !str_eq(c.as_str(), self.names[i].as_str()),
                None => true,
            };
            let ghost prev = out.deep_view();
            if keep {
                out.push(self.names[i].clone());
            }
            proof {
                assert(s.take(i + 1) =~= s.take(i as int) + seq![s[i as int]]);
                Seq::filter_distributes_over_add(s.take(i as int), seq![s[i as int]], pred);
                lemma_filter_singleton(s[i as int], pred);
                if keep {
                    assert(out.deep_view() =~= prev + seq![s[i as int]]);
                } else {
                    assert(out.deep_view() =~= prev);
                }
            }
            i = i + 1;
        }
        proof {
            assert(s.take(n as int) =~= s);
        }
        out
    }

    /// Deletes one toolchain. Fails without touching anything when
    /// the name is not installed, and fails with `CannotDeleteActive`
    /// when the name is the active toolchain: the active one can
    /// never be deleted.
    pub fn delete_toolchain(&mut self, version: &str) -> (r: Result<(), ZirconError>)
        requires
            old(self).wf(),
        ensures
            final(self).wf(),
            match r {
                Ok(()) => {
                    &&& model_contains(old(self)@, version@)
                    &&& old(self)@.current != Some(version@)
                    &&& final(self)@ == model_delete(old(self)@, version@)
                },
                Err(e) => {
                    &&& final(self)@ == old(self)@
                    &&& match e {
                        ZirconError::ToolchainNotFound(x) => !model_contains(old(self)@, version@)
                            && x@ == version@,
                        ZirconError::CannotDeleteActive(x) => model_contains(old(self)@, version@)
                            && old(self)@.current == Some(version@) && x@ == version@,
                        _ => false,
                    }
                },
            },
    {
        let found = self.find_name(version);
        let i: usize = match found {
            Some(i) => i,
            None => {
                return Err(ZirconError::ToolchainNotFound(String::from_str(version)));
            },
        };
        let is_current = match &self.current {
            Some(c) => str_eq(c.as_str(), version),
            None => false,
        };
        if is_current {
            return Err(ZirconError::CannotDeleteActive(String::from_str(version)));
        }
        let ghost s = self@.names;
        proof {
            assert(s.contains(version@));
            let k = index_of_name(s, version@);
            assert(0 <= k < s.len() && s[k] == version@) by {
                let w = choose|w: int| 0 <= w < s.len() && s[w] == version@;
                assert(0 <= w < s.len() && s[w] == version@);
            }
            if k != i as int {
                assert(s[k] != s[i as int]);
            }
        }
        self.names.remove(i);
        proof {
            assert(self@.names =~= s.remove(i as int));
            lemma_delete_effect(old(self)@, version@);
        }
        Ok(())
    }

    /// Repoints the active indirection at an installed toolchain.
    /// Fails without touching anything when the name is not
    /// installed; a toolchain is only ever activated in full.
    pub fn activate(&mut self, version: &str) -> (r: Result<(), ZirconError>)
        requires
            old(self).wf(),
        ensures
            final(self).wf(),
            match r {
                Ok(()) => {
                    &&& model_contains(old(self)@, version@)
                    &&& final(self)@ == model_activate(old(self)@, version@)
                },
                Err(e) => {
                    &&& !model_contains(old(self)@, version@)
                    &&& e matches ZirconError::ToolchainNotFound(x) && x@ == version@
                    &&& final(self)@ == old(self)@
                },
            },
    {
        if !self.toolchain_exists(version) {
            return Err(ZirconError::ToolchainNotFound(String::from_str(version)));
        }
        self.current = Some(String::from_str(version));
        Ok(())
    }

    /// Removes every installed toolchain except the active one and
    /// returns the removed names in sorted order. The active
    /// toolchain always survives.
    pub fn prune(&mut self) -> (removed: Vec<String>)
        requires
            old(self).wf(),
        ensures
            final(self).wf(),
            removed.deep_view() == spec_prunable(old(self)@.names, old(self)@.current),
            final(self)@ == model_prune(old(self)@),
    {
        let ghost s = self@.names;
        let ghost cur = self@.current;
        let ghost keep_pred = |x: Seq<char>| cur == Some(x);
        let removed = self.get_prunable_toolchains();
        let n: usize = self.names.len();
        let mut kept: Vec<String> = Vec::new();
        proof {
            assert(s.take(0) =~= Seq::<Seq<char>>::empty());
            reveal(Seq::filter);
            assert(kept.deep_view() =~= s.take(0).filter(keep_pred));
        }
        let mut i: usize = 0;
        while i < n
            invariant
                n == self.names.len(),
                i <= n,
                s == self@.names,
                cur == self@.current,
                keep_pred == (|x: Seq<char>| cur == Some(x)),
                kept.deep_view() == s.take(i as int).filter(keep_pred),
            decreases n - i,
        {
            let keep = match &self.current {
                Some(c) => str_eq(c.as_str(), self.names[i].as_str()),
                None => false,
            };
            let ghost prev = kept.deep_view();
            if keep {
                kept.push(self.names[i].clone());
            }
            proof {
                assert(s.take(i + 1) =~= s.take(i as int) + seq![s[i as int]]);
                Seq::filter_distributes_over_add(s.take(i as int), seq![s[i as int]], keep_pred);
                lemma_filter_singleton(s[i as int], keep_pred);
                if keep {
                    assert(kept.deep_view() =~= prev + seq![s[i as int]]);
                } else {
                    assert(kept.deep_view() =~= prev);
                }
            }
            i = i + 1;
        }
        self.names = kept;
        proof {
            assert(s.take(n as int) =~= s);
            lemma_filter_sorted_distinct(s, keep_pred);
        }
        removed
    }
}

/// Filtering a single element keeps it or drops it, by the predicate.
proof fn lemma_filter_singleton<A>(x: A, pred: spec_fn(A) -> bool)
    ensures
        pred(x) ==> seq![x].filter(pred) =~= seq![x],
        !pred(x) ==> seq![x].filter(pred) =~= Seq::<A>::empty(),
{
    reveal_with_fuel(Seq::filter, 2);
    assert(seq![x].drop_last() =~= Seq::<A>::empty());
    assert(seq![x].drop_last().len() == 0);
}

/// Filtering keeps a sorted, distinct sequence sorted and distinct.
proof fn lemma_filter_sorted_distinct(s: Seq<Seq<char>>, pred: spec_fn(Seq<char>) -> bool)
    requires
        sorted_distinct(s),
    ensures
        sorted_distinct(s.filter(pred)),
    decreases s.len(),
{
    reveal(Seq::filter);
    if s.len() > 0 {
        assert(sorted_distinct(s.drop_last())) by {
            assert forall|i: int, j: int| 0 <= i < j < s.drop_last().len() implies lex_le(
                #[trigger] s.drop_last()[i],
                #[trigger] s.drop_last()[j],
            ) && s.drop_last()[i] != s.drop_last()[j] by {
                assert(s[i] == s.drop_last()[i]);
                assert(s[j] == s.drop_last()[j]);
            }
        }
        lemma_filter_sorted_distinct(s.drop_last(), pred);
        let f = s.drop_last().filter(pred);
        if pred(s.last()) {
            let t = f.push(s.last());
            assert forall|a: int, b: int| 0 <= a < b < t.len() implies lex_le(
                #[trigger] t[a],
                #[trigger] t[b],
            ) && t[a] != t[b] by {
                if b == t.len() - 1 {
                    s.drop_last().lemma_filter_pred(pred, a);
                    s.drop_last().lemma_filter_len(pred);
                    lemma_filter_element_of(s.drop_last(), pred, a);
                    let k = choose|k: int|
                        0 <= k < s.drop_last().len() && s.drop_last()[k] == f[a];
                    assert(s[k] == f[a]);
                    assert(lex_le(s[k], s.last()) && s[k] != s.last());
                }
            }
        }
    }
}

/// Every element of a filtered sequence stands in the original.
proof fn lemma_filter_element_of<A>(s: Seq<A>, pred: spec_fn(A) -> bool, i: int)
    requires
        0 <= i < s.filter(pred).len(),
    ensures
        exists|k: int| 0 <= k < s.len() && s[k] == s.filter(pred)[i],
    decreases s.len(),
{
    reveal(Seq::filter);
    if s.len() > 0 {
        let f = s.drop_last().filter(pred);
        if i < f.len() {
            lemma_filter_element_of(s.drop_last(), pred, i);
            let k = choose|k: int| 0 <= k < s.drop_last().len() && s.drop_last()[k] == f[i];
            assert(s[k] == s.filter(pred)[i]);
        } else {
            assert(s[s.len() - 1] == s.filter(pred)[i]);
        }
    }
}

} // verus!
