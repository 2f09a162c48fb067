//! The namespace tree and the resolver for fully qualified paths.

use vstd::prelude::*;

verus! {

/// A path of names from the root namespace, as seen by specifications.
pub type Path = Seq<Seq<char>>;

/// The visibility tag on the edge from a namespace to one of its children.
#[derive(Clone, Copy, Debug, PartialEq, Eq, Structural)]
pub enum Visibility {
    Public,
    Private,
}

/// What an entry of the tree is.
#[derive(Clone, Copy, Debug, PartialEq, Eq, Structural)]
pub enum Kind {
    Item,
    Namespace,
}

/// Why a reference does not resolve.
#[derive(Clone, Copy, Debug, PartialEq, Eq, Structural)]
pub enum ResolveError {
    /// Some segment of the path names nothing.
    NotFound,
    /// The path exists but some segment is not reachable from the scope.
    Visibility,
    /// Two glob imports of different namespaces bring in the same short name.
    Ambiguous,
}

/// Why a registration is refused.
#[derive(Clone, Copy, Debug, PartialEq, Eq, Structural)]
pub enum DefineError {
    /// The parent path names no namespace.
    NoSuchNamespace,
    /// The parent already has a child of that name.
    NameTaken,
}

/// The kind and visibility of one registered entry.
#[derive(Clone, Copy, Debug, PartialEq, Eq, Structural)]
pub struct Node {
    pub kind: Kind,
    pub vis: Visibility,
}

/// One registered entry, under its full path from the root.
pub struct Entry {
    pub path: Vec<String>,
    pub node: Node,
}

/// A namespace tree, held as a table of entries keyed by full path. The root
/// namespace has the empty path and is not stored.
pub struct NamespaceTree {
    entries: Vec<Entry>,
}

pub open spec fn path_view(p: Seq<String>) -> Path {
    p.map_values(|s: String| s@)
}

/// The map from full path to node that a sequence of entries describes; a
/// later entry wins over an earlier one with the same path.
pub open spec fn table(s: Seq<Entry>) -> Map<Path, Node>
    decreases s.len(),
{
    if s.len() == 0 {
        Map::empty()
    } else {
        table(s.drop_last()).insert(path_view(s.last().path@), s.last().node)
    }
}

/// Every entry has a non-empty path, and each proper non-empty prefix of it
/// names a namespace.
pub open spec fn tree_wf(m: Map<Path, Node>) -> bool {
    forall|p: Path, i: int|
        #![trigger m.contains_key(p), p.take(i)]
        m.contains_key(p) ==> p.len() > 0 && (1 <= i < p.len() ==> m.contains_key(p.take(i))
            && m[p.take(i)].kind == Kind::Namespace)
}

/// `p` names the root or a registered entry.
pub open spec fn path_exists(m: Map<Path, Node>, p: Path) -> bool {
    p.len() == 0 || m.contains_key(p)
}

/// `p` names the root or a registered namespace.
pub open spec fn is_namespace(m: Map<Path, Node>, p: Path) -> bool {
    p.len() == 0 || (m.contains_key(p) && m[p].kind == Kind::Namespace)
}

pub open spec fn kind_of(m: Map<Path, Node>, p: Path) -> Kind {
    if p.len() == 0 {
        Kind::Namespace
    } else {
        m[p].kind
    }
}

/// The entry at `q` may be named from `scope`: it is public, or `scope` lies
/// inside the namespace that holds it.
pub open spec fn segment_visible(m: Map<Path, Node>, q: Path, scope: Path) -> bool {
    m[q].vis == Visibility::Public || q.drop_last().is_prefix_of(scope)
}

/// Every segment of `p`, walked from the root, is visible from `scope`.
pub open spec fn reachable(m: Map<Path, Node>, p: Path, scope: Path) -> bool {
    forall|i: int| 1 <= i <= p.len() ==> #[trigger] segment_visible(m, p.take(i), scope)
}

/// Resolution of the fully qualified path `p` from `scope`.
pub open spec fn resolve_path(m: Map<Path, Node>, p: Path, scope: Path) -> Result<Kind, ResolveError> {
    if !path_exists(m, p) {
        Err(ResolveError::NotFound)
    } else if !reachable(m, p, scope) {
        Err(ResolveError::Visibility)
    } else {
        Ok(kind_of(m, p))
    }
}

/// Resolution of `p` from `scope`, with the identity of the target.
pub open spec fn resolve_target(m: Map<Path, Node>, p: Path, scope: Path) -> Result<(Path, Kind), ResolveError> {
    match resolve_path(m, p, scope) {
        Ok(k) => Ok((p, k)),
        Err(e) => Err(e),
    }
}

/// Private entries are namespaced: when two namespaces each hold a private
/// entry under the same local name, naming the first one's entry from inside
/// the first succeeds, and naming it from the second fails on visibility
/// unless the second lies inside the first.
pub proof fn lemma_private_entries_are_namespaced(
    m: Map<Path, Node>,
    n1: Path,
    n2: Path,
    x: Seq<char>,
)
    requires
        n1 != n2,
        m.contains_key(n1.push(x)),
        m[n1.push(x)].vis == Visibility::Private,
        m.contains_key(n2.push(x)),
        m[n2.push(x)].vis == Visibility::Private,
        !n1.is_prefix_of(n2),
    ensures
        resolve_path(m, n1.push(x), n2) == Err::<Kind, ResolveError>(ResolveError::Visibility),
        resolve_path(m, n1.push(x), n1) == Ok::<Kind, ResolveError>(m[n1.push(x)].kind),
{
    let p = n1.push(x);
    assert(p.take(p.len() as int) =~= p);
    assert(p.drop_last() =~= n1);
    assert(!segment_visible(m, p.take(p.len() as int), n2));
    assert forall|i: int| 1 <= i <= p.len() implies #[trigger] segment_visible(m, p.take(i), n1) by {
        assert(p.take(i).drop_last() =~= n1.subrange(0, i - 1));
    }
}

proof fn lemma_table_last(s: Seq<Entry>, p: Path, i: int)
    requires
        0 <= i < s.len(),
        path_view(s[i].path@) == p,
        forall|j: int| i < j < s.len() ==> path_view(#[trigger] s[j].path@) != p,
    ensures
        table(s).contains_key(p),
        table(s)[p] == s[i].node,
    decreases s.len(),
{
    if i < s.len() - 1 {
        lemma_table_last(s.drop_last(), p, i);
    }
}

proof fn lemma_table_absent(s: Seq<Entry>, p: Path)
    requires
        forall|j: int| 0 <= j < s.len() ==> path_view(#[trigger] s[j].path@) != p,
    ensures
        !table(s).contains_key(p),
    decreases s.len(),
{
    if s.len() > 0 {
        lemma_table_absent(s.drop_last(), p);
    }
}

/// Whether `a` is the first `n` names of `b`.
fn same_path(a: &Vec<String>, b: &Vec<String>, n: usize) -> (r: bool)
    requires
        n <= b.len(),
    ensures
        r == (path_view(a@) == path_view(b@).take(n as int)),
{
    if a.len() != n {
        assert(path_view(a@).len() != path_view(b@).take(n as int).len());
        return false;
    }
    let mut k: usize = 0;
    while k < n
        invariant
            k <= n,
            n <= b.len(),
            a.len() == n,
            forall|j: int| 0 <= j < k ==> a@[j]@ == b@[j]@,
        decreases n - k,
    {
        if !(a[k] == b[k]) {
            assert(path_view(a@)[k as int] != path_view(b@).take(n as int)[k as int]);
            return false;
        }
        k = k + 1;
    }
    assert(path_view(a@) =~= path_view(b@).take(n as int));
    true
}

/// Whether `a` and `b` agree on their first `n` names.
fn prefix_eq(a: &Vec<String>, b: &Vec<String>, n: usize) -> (r: bool)
    requires
        n <= a.len(),
        n <= b.len(),
    ensures
        r == (path_view(a@).take(n as int) == path_view(b@).take(n as int)),
{
    let mut k: usize = 0;
    while k < n
        invariant
            k <= n,
            n <= a.len(),
            n <= b.len(),
            forall|j: int| 0 <= j < k ==> a@[j]@ == b@[j]@,
        decreases n - k,
    {
        if !(a[k] == b[k]) {
            assert(path_view(a@).take(n as int)[k as int] != path_view(b@).take(n as int)[k as int]);
            return false;
        }
        k = k + 1;
    }
    assert(path_view(a@).take(n as int) =~= path_view(b@).take(n as int));
    true
}

/// Whether the first `n` names of `path` are a prefix of `scope`.
fn within(path: &Vec<String>, n: usize, scope: &Vec<String>) -> (r: bool)
    requires
        n <= path.len(),
    ensures
        r == path_view(path@).take(n as int).is_prefix_of(path_view(scope@)),
{
    if n > scope.len() {
        return false;
    }
    let r = prefix_eq(path, scope, n);
    assert(path_view(scope@).take(n as int) =~= path_view(scope@).subrange(0, n as int));
    r
}

/// A copy of a path.
pub fn copy_path(p: &Vec<String>) -> (r: Vec<String>)
    ensures
        r@ == p@,
{
    let mut r: Vec<String> = Vec::new();
    let mut k: usize = 0;
    while k < p.len()
        invariant
            k <= p.len(),
            r@ == p@.take(k as int),
        decreases p.len() - k,
    {
        r.push(p[k].clone());
        k = k + 1;
        assert(r@ =~= p@.take(k as int));
    }
    assert(p@.take(k as int) =~= p@);
    r
}

impl View for NamespaceTree {
    type V = Map<Path, Node>;

    closed spec fn view(&self) -> Map<Path, Node> {
        table(self.entries@)
    }
}

impl NamespaceTree {
    pub open spec fn wf(&self) -> bool {
        tree_wf(self@)
    }

    /// A tree that holds only the root namespace.
    pub fn new() -> (t: NamespaceTree)
        ensures
            t.wf(),
            t@ == Map::<Path, Node>::empty(),
    {
        NamespaceTree { entries: Vec::new() }
    }

    /// The index of the last entry whose path is the first `n` names of `path`.
    fn find(&self, path: &Vec<String>, n: usize) -> (r: Option<usize>)
        requires
            n <= path.len(),
        ensures
            match r {
                Some(i) => i < self.entries.len() && self.view().contains_key(
                    path_view(path@).take(n as int),
                ) && self.view()[path_view(path@).take(n as int)] == self.entries@[i as int].node,
                None => !self.view().contains_key(path_view(path@).take(n as int)),
            },
    {
        let ghost p = path_view(path@).take(n as int);
        let mut k: usize = self.entries.len();
        while k > 0
            invariant
                k <= self.entries.len(),
                n <= path.len(),
                p == path_view(path@).take(n as int),
                forall|j: int| k <= j < self.entries.len() ==> path_view(
                    #[trigger] self.entries@[j].path@,
                ) != p,
            decreases k,
        {
            k = k - 1;
            if same_path(&self.entries[k].path, path, n) {
                proof {
                    lemma_table_last(self.entries@, p, k as int);
                }
                return Some(k);
            }
        }
        proof {
            lemma_table_absent(self.entries@, p);
        }
        None
    }

    /// The node registered under the full path `path`, if any.
    pub fn lookup(&self, path: &Vec<String>) -> (r: Option<Node>)
        ensures
            r == (if self@.contains_key(path_view(path@)) {
                Some(self@[path_view(path@)])
            } else {
                None::<Node>
            }),
    {
        assert(path_view(path@).take(path.len() as int) =~= path_view(path@));
        match self.find(path, path.len()) {
            Some(i) => Some(self.entries[i].node),
            None => None,
        }
    }

    /// Registers `node` under the local name `name` in the namespace `parent`.
    pub fn define(&mut self, parent: &Vec<String>, name: String, node: Node) -> (r: Result<
        (),
        DefineError,
    >)
        requires
            old(self).wf(),
        ensures
            final(self).wf(),
            !is_namespace(old(self)@, path_view(parent@)) ==> r == Err::<(), DefineError>(
                DefineError::NoSuchNamespace,
            ),
            is_namespace(old(self)@, path_view(parent@)) && old(self)@.contains_key(
                path_view(parent@).push(name@),
            ) ==> r == Err::<(), DefineError>(DefineError::NameTaken),
            r is Ok ==> final(self)@ == old(self)@.insert(path_view(parent@).push(name@), node),
            r is Err ==> final(self)@ == old(self)@,
            is_namespace(old(self)@, path_view(parent@)) && !old(self)@.contains_key(
                path_view(parent@).push(name@),
            ) ==> r is Ok,
    {
        let n = parent.len();
        if n > 0 {
            match self.find(parent, n) {
                None => {
                    assert(path_view(parent@).take(n as int) =~= path_view(parent@));
                    return Err(DefineError::NoSuchNamespace);
                },
                Some(i) => {
                    assert(path_view(parent@).take(n as int) =~= path_view(parent@));
                    if self.entries[i].node.kind != Kind::Namespace {
                        return Err(DefineError::NoSuchNamespace);
                    }
                },
            }
        }
        let mut full = copy_path(parent);
        let ghost pv = path_view(parent@);
        let ghost x = name@;
        full.push(name);
        let ghost q = path_view(full@);
        assert(q =~= pv.push(x));
        assert(q.take(q.len() as int) =~= q);
        if self.find(&full, full.len()).is_some() {
            return Err(DefineError::NameTaken);
        }
        let ghost m = self@;
        self.entries.push(Entry { path: full, node });
        assert(self.entries@.drop_last() =~= old(self).entries@);
        assert(self@ == m.insert(q, node));
        assert forall|p: Path, i: int|
            #![trigger self@.contains_key(p), p.take(i)]
            self@.contains_key(p) implies p.len() > 0 && (1 <= i < p.len() ==> self@.contains_key(
                p.take(i),
            ) && self@[p.take(i)].kind == Kind::Namespace) by {
            if p == q {
                if 1 <= i < p.len() {
                    assert(p.take(i) =~= pv.take(i));
                    if i < pv.len() {
                        assert(m.contains_key(pv) && m.contains_key(pv.take(i)));
                    } else {
                        assert(pv.take(i) =~= pv);
                    }
                }
            } else {
                assert(m.contains_key(p));
                if 1 <= i < p.len() {
                    assert(m.contains_key(p.take(i)));
                    assert(p.take(i).len() < p.len());
                }
            }
        }
        Ok(())
    }

    /// Resolves the fully qualified path `path` from the namespace `scope`.
    pub fn resolve(&self, path: &Vec<String>, scope: &Vec<String>) -> (r: Result<Kind, ResolveError>)
        requires
            self.wf(),
        ensures
            r == resolve_path(self@, path_view(path@), path_view(scope@)),
    {
        let ghost m = self@;
        let ghost pv = path_view(path@);
        let ghost sv = path_view(scope@);
        let n = path.len();
        if n == 0 {
            return Ok(Kind::Namespace);
        }
        assert(pv.take(n as int) =~= pv);
        let kind = match self.find(path, n) {
            None => {
                return Err(ResolveError::NotFound);
            },
            Some(i) => self.entries[i].node.kind,
        };
        let mut k: usize = 0;
        while k < n
            invariant
                k <= n,
                n == path.len(),
                pv == path_view(path@),
                sv == path_view(scope@),
                m == self@,
                tree_wf(m),
                m.contains_key(pv),
                forall|j: int| 1 <= j <= k ==> #[trigger] segment_visible(m, pv.take(j), sv),
            decreases n - k,
        {
            let found = self.find(path, k + 1);
            if k + 1 < n {
                assert(m.contains_key(pv.take(k + 1)));
            } else {
                assert(pv.take(k + 1) =~= pv);
            }
            let i = match found {
                Some(i) => i,
                None => {
                    return Err(ResolveError::NotFound);
                },
            };
            let inside = within(path, k, scope);
            assert(pv.take(k + 1).drop_last() =~= pv.take(k as int));
            if self.entries[i].node.vis != Visibility::Public && !inside {
                assert(!segment_visible(m, pv.take(k + 1), sv));
                return Err(ResolveError::Visibility);
            }
            k = k + 1;
        }
        Ok(kind)
    }
}

} // verus!
