//! Per-scope import tables: aliases and glob imports, and the lookup of a
//! reference through them.

use vstd::prelude::*;
use crate::namespace::{
    copy_path, path_view, reachable, resolve_target, segment_visible, Kind, NamespaceTree, Node,
    Path, ResolveError, Visibility,
};

verus! {

/// A binding as seen by specifications.
pub enum Import {
    /// The short name `name` stands for the full path `target`.
    Alias { name: Seq<char>, target: Path },
    /// The public children of `namespace` are named by their short names.
    Glob { namespace: Path },
}

/// A binding introduced in a scope by an alias or a glob import.
pub enum Binding {
    Alias { name: String, target: Vec<String> },
    Glob { namespace: Vec<String> },
}

impl View for Binding {
    type V = Import;

    open spec fn view(&self) -> Import {
        match self {
            Binding::Alias { name, target } => Import::Alias { name: name@, target: path_view(target@) },
            Binding::Glob { namespace } => Import::Glob { namespace: path_view(namespace@) },
        }
    }
}

pub open spec fn imports_view(bs: Seq<Binding>) -> Seq<Import> {
    bs.map_values(|b: Binding| b@)
}

/// The target of the latest alias of `x`, if any.
pub open spec fn alias_target(is: Seq<Import>, x: Seq<char>) -> Option<Path>
    decreases is.len(),
{
    if is.len() == 0 {
        None
    } else {
        match is.last() {
            Import::Alias { name, target } => if name == x {
                Some(target)
            } else {
                alias_target(is.drop_last(), x)
            },
            Import::Glob { .. } => alias_target(is.drop_last(), x),
        }
    }
}

/// `imp` is a glob import of a namespace that has a public child named `x`.
pub open spec fn provides(m: Map<Path, Node>, imp: Import, x: Seq<char>) -> bool {
    match imp {
        Import::Glob { namespace } => m.contains_key(namespace.push(x)) && m[namespace.push(
            x,
        )].vis == Visibility::Public,
        Import::Alias { .. } => false,
    }
}

/// The namespace of the latest glob import that provides `x`, if any.
pub open spec fn glob_source(m: Map<Path, Node>, is: Seq<Import>, x: Seq<char>) -> Option<Path>
    decreases is.len(),
{
    if is.len() == 0 {
        None
    } else if provides(m, is.last(), x) {
        Some(is.last()->namespace)
    } else {
        glob_source(m, is.drop_last(), x)
    }
}

/// Glob imports of two different namespaces both provide `x`.
pub open spec fn glob_ambiguous(m: Map<Path, Node>, is: Seq<Import>, x: Seq<char>) -> bool {
    exists|i: int, j: int|
        0 <= i < is.len() && 0 <= j < is.len() && #[trigger] provides(m, is[i], x)
            && #[trigger] provides(m, is[j], x) && is[i]->namespace != is[j]->namespace
}

/// The full path that the reference `r` stands for in `scope`: through the
/// latest alias of its first name, else through a glob import, else relative
/// to the scope's own namespace.
pub open spec fn expand(m: Map<Path, Node>, scope: Path, is: Seq<Import>, r: Path) -> Result<
    Path,
    ResolveError,
> {
    if r.len() == 0 {
        Err(ResolveError::NotFound)
    } else {
        match alias_target(is, r[0]) {
            Some(t) => Ok(t + r.drop_first()),
            None => if glob_ambiguous(m, is, r[0]) {
                Err(ResolveError::Ambiguous)
            } else {
                match glob_source(m, is, r[0]) {
                    Some(n) => Ok(n + r),
                    None => Ok(scope + r),
                }
            },
        }
    }
}

/// Resolution of the reference `r` in `scope` with the bindings `is`: the
/// bindings are applied first, then the full path is resolved from `scope`.
pub open spec fn resolve_reference(m: Map<Path, Node>, scope: Path, is: Seq<Import>, r: Path) -> Result<
    (Path, Kind),
    ResolveError,
> {
    match expand(m, scope, is, r) {
        Ok(p) => resolve_target(m, p, scope),
        Err(e) => Err(e),
    }
}

/// A glob import of `n` makes each public child of `n` nameable by its short
/// name, as if it were named by its full path.
pub proof fn lemma_glob_brings_public_names(m: Map<Path, Node>, scope: Path, n: Path, x: Seq<char>)
    requires
        m.contains_key(n.push(x)),
        m[n.push(x)].vis == Visibility::Public,
    ensures
        resolve_reference(m, scope, seq![Import::Glob { namespace: n }], seq![x]) == resolve_target(
            m,
            n.push(x),
            scope,
        ),
        reachable(m, n, scope) ==> resolve_reference(
            m,
            scope,
            seq![Import::Glob { namespace: n }],
            seq![x],
        ) == Ok::<(Path, Kind), ResolveError>((n.push(x), m[n.push(x)].kind)),
{
    let is = seq![Import::Glob { namespace: n }];
    let r = seq![x];
    assert(is.drop_last() =~= Seq::<Import>::empty());
    assert(r[0] == x);
    assert(is.last() == Import::Glob { namespace: n });
    assert(alias_target(Seq::<Import>::empty(), x) is None);
    assert(alias_target(is, x) is None);
    assert(provides(m, is[0], x));
    assert(glob_source(m, is, x) == Some(n));
    assert(n + r =~= n.push(x));
    assert(!glob_ambiguous(m, is, x));
    if reachable(m, n, scope) {
        let p = n.push(x);
        assert forall|i: int| 1 <= i <= p.len() implies #[trigger] segment_visible(
            m,
            p.take(i),
            scope,
        ) by {
            if i <= n.len() {
                assert(p.take(i) =~= n.take(i));
                assert(segment_visible(m, n.take(i), scope));
            } else {
                assert(p.take(i) =~= p);
            }
        }
    }
}

/// A glob import of `n` does not bring in a private child of `n`: the short
/// name resolves as it did without the import.
pub proof fn lemma_glob_keeps_private_names_out(
    m: Map<Path, Node>,
    scope: Path,
    is: Seq<Import>,
    n: Path,
    j: Seq<char>,
)
    requires
        m.contains_key(n.push(j)),
        m[n.push(j)].vis == Visibility::Private,
    ensures
        resolve_reference(m, scope, is.push(Import::Glob { namespace: n }), seq![j])
            == resolve_reference(m, scope, is, seq![j]),
        !m.contains_key(scope.push(j)) ==> resolve_reference(
            m,
            scope,
            seq![Import::Glob { namespace: n }],
            seq![j],
        ) == Err::<(Path, Kind), ResolveError>(ResolveError::NotFound),
{
    let g = Import::Glob { namespace: n };
    let js = is.push(g);
    assert(js.drop_last() =~= is);
    assert(!provides(m, g, j));
    assert(alias_target(js, j) == alias_target(is, j));
    assert(glob_source(m, js, j) == glob_source(m, is, j));
    assert forall|a: int| 0 <= a < js.len() && #[trigger] provides(m, js[a], j) implies a < is.len()
        && js[a] == is[a] by {}
    assert(glob_ambiguous(m, js, j) == glob_ambiguous(m, is, j));
    let one = seq![g];
    assert(one.drop_last() =~= Seq::<Import>::empty());
    assert(one.last() == g);
    assert(seq![j][0] == j);
    assert(alias_target(Seq::<Import>::empty(), j) is None);
    assert(alias_target(one, j) is None);
    assert(glob_source(m, Seq::<Import>::empty(), j) is None);
    assert(glob_source(m, one, j) is None);
    assert(!glob_ambiguous(m, one, j));
    assert(scope + seq![j] =~= scope.push(j));
}

/// An alias is a pure renaming: a reference through the alias resolves
/// exactly as the path that the alias stands for.
pub proof fn lemma_alias_is_renaming(
    m: Map<Path, Node>,
    scope: Path,
    is: Seq<Import>,
    x: Seq<char>,
    n: Path,
    rest: Path,
)
    ensures
        resolve_reference(m, scope, is.push(Import::Alias { name: x, target: n }), seq![x] + rest)
            == resolve_target(m, n + rest, scope),
{
    let js = is.push(Import::Alias { name: x, target: n });
    let r = seq![x] + rest;
    assert(r[0] == x);
    assert(r.drop_first() =~= rest);
    assert(js.last() == Import::Alias { name: x, target: n });
}

proof fn lemma_no_glob_source(m: Map<Path, Node>, is: Seq<Import>, x: Seq<char>)
    requires
        glob_source(m, is, x) is None,
    ensures
        forall|i: int| 0 <= i < is.len() ==> !#[trigger] provides(m, is[i], x),
    decreases is.len(),
{
    if is.len() > 0 {
        lemma_no_glob_source(m, is.drop_last(), x);
        assert forall|i: int| 0 <= i < is.len() implies !#[trigger] provides(m, is[i], x) by {
            if i < is.len() - 1 {
                assert(is.drop_last()[i] == is[i]);
            }
        }
    }
}

/// The entry that a reference resolved to: its full path and its kind.
pub struct Target {
    pub path: Vec<String>,
    pub kind: Kind,
}

/// The names of `a` followed by those of `b` from index `from` on.
fn join(a: &Vec<String>, b: &Vec<String>, from: usize) -> (r: Vec<String>)
    requires
        from <= b.len(),
    ensures
        path_view(r@) == path_view(a@) + path_view(b@).skip(from as int),
{
    let mut r = copy_path(a);
    let mut k: usize = from;
    while k < b.len()
        invariant
            from <= k <= b.len(),
            r@ == a@ + b@.subrange(from as int, k as int),
        decreases b.len() - k,
    {
        r.push(b[k].clone());
        k = k + 1;
        assert(r@ =~= a@ + b@.subrange(from as int, k as int));
    }
    assert(path_view(r@) =~= path_view(a@) + path_view(b@).skip(from as int));
    r
}

/// Whether `a` and `b` hold the same names.
fn same_names(a: &Vec<String>, b: &Vec<String>) -> (r: bool)
    ensures
        r == (path_view(a@) == path_view(b@)),
{
    if a.len() != b.len() {
        assert(path_view(a@).len() != path_view(b@).len());
        return false;
    }
    let mut k: usize = 0;
    while k < a.len()
        invariant
            k <= a.len(),
            a.len() == b.len(),
            forall|j: int| 0 <= j < k ==> a@[j]@ == b@[j]@,
        decreases a.len() - k,
    {
        if !(a[k] == b[k]) {
            assert(path_view(a@)[k as int] != path_view(b@)[k as int]);
            return false;
        }
        k = k + 1;
    }
    assert(path_view(a@) =~= path_view(b@));
    true
}

/// Whether `b` is a glob import of a namespace with a public child named `x`.
fn provides_exec(tree: &NamespaceTree, b: &Binding, x: &String) -> (r: bool)
    ensures
        r == provides(tree@, b@, x@),
{
    match b {
        Binding::Glob { namespace } => {
            let mut full = copy_path(namespace);
            full.push(x.clone());
            assert(path_view(full@) =~= path_view(namespace@).push(x@));
            match tree.lookup(&full) {
                Some(node) => node.vis == Visibility::Public,
                None => false,
            }
        },
        Binding::Alias { .. } => false,
    }
}

/// A reference made from a scope: the names as written there.
pub struct Reference {
    pub scope: Scope,
    pub names: Vec<String>,
}

impl View for Reference {
    /// The scope's namespace, its bindings, and the names as written.
    type V = (Path, Seq<Import>, Path);

    open spec fn view(&self) -> (Path, Seq<Import>, Path) {
        (path_view(self.scope.path@), self.scope.imports(), path_view(self.names@))
    }
}

/// Resolution of the reference `r` against the tree `m`.
pub open spec fn reference_result(m: Map<Path, Node>, r: (Path, Seq<Import>, Path)) -> Result<
    (Path, Kind),
    ResolveError,
> {
    resolve_reference(m, r.0, r.1, r.2)
}

/// Checks every reference before anything runs: `Ok` when all of them
/// resolve, else the index of the first that does not and its error.
pub fn check_references(tree: &NamespaceTree, refs: &Vec<Reference>) -> (r: Result<
    (),
    (usize, ResolveError),
>)
    requires
        tree.wf(),
    ensures
        r is Ok <==> forall|i: int| 0 <= i < refs.len() ==> #[trigger] reference_result(tree@, refs@[i]@) is Ok,
        r matches Err((i, e)) ==> i < refs.len() && reference_result(tree@, refs@[i as int]@)
            == Err::<(Path, Kind), ResolveError>(e) && forall|j: int|
            0 <= j < i ==> #[trigger] reference_result(tree@, refs@[j]@) is Ok,
{
    let mut k: usize = 0;
    while k < refs.len()
        invariant
            k <= refs.len(),
            tree.wf(),
            forall|j: int| 0 <= j < k ==> #[trigger] reference_result(tree@, refs@[j]@) is Ok,
        decreases refs.len() - k,
    {
        let rf = &refs[k];
        match rf.scope.lookup(tree, &rf.names) {
            Ok(_) => {},
            Err(e) => {
                return Err((k, e));
            },
        }
        k = k + 1;
    }
    Ok(())
}

/// A scope: the namespace that code stands in, and the bindings declared
/// there, latest last.
pub struct Scope {
    pub path: Vec<String>,
    pub bindings: Vec<Binding>,
}

impl Scope {
    pub open spec fn imports(&self) -> Seq<Import> {
        imports_view(self.bindings@)
    }

    /// A scope in the namespace `path`, with no bindings.
    pub fn new(path: Vec<String>) -> (s: Scope)
        ensures
            s.path == path,
            s.imports() == Seq::<Import>::empty(),
    {
        let s = Scope { path, bindings: Vec::new() };
        assert(s.imports() =~= Seq::<Import>::empty());
        s
    }

    /// Binds the short name `name` to the full path `target`; it shadows any
    /// earlier binding of `name` in this scope.
    pub fn bind_alias(&mut self, name: String, target: Vec<String>)
        ensures
            final(self).path == old(self).path,
            final(self).imports() == old(self).imports().push(
                Import::Alias { name: name@, target: path_view(target@) },
            ),
    {
        let b = Binding::Alias { name, target };
        self.bindings.push(b);
        assert(self.imports() =~= old(self).imports().push(b@));
    }

    /// Makes the public children of `namespace` nameable by their short names.
    pub fn bind_glob(&mut self, namespace: Vec<String>)
        ensures
            final(self).path == old(self).path,
            final(self).imports() == old(self).imports().push(
                Import::Glob { namespace: path_view(namespace@) },
            ),
    {
        let b = Binding::Glob { namespace };
        self.bindings.push(b);
        assert(self.imports() =~= old(self).imports().push(b@));
    }

    /// The full path that `reference` stands for in this scope.
    fn expand_reference(&self, tree: &NamespaceTree, reference: &Vec<String>) -> (r: Result<
        Vec<String>,
        ResolveError,
    >)
        ensures
            match r {
                Ok(p) => expand(tree@, path_view(self.path@), self.imports(), path_view(reference@))
                    == Ok::<Path, ResolveError>(path_view(p@)),
                Err(e) => expand(tree@, path_view(self.path@), self.imports(), path_view(reference@))
                    == Err::<Path, ResolveError>(e),
            },
    {
        let ghost m = tree@;
        let ghost is = self.imports();
        let ghost rv = path_view(reference@);
        if reference.len() == 0 {
            return Err(ResolveError::NotFound);
        }
        let x = &reference[0];
        assert(rv[0] == x@);
        // The latest alias of `x`.
        let mut k: usize = self.bindings.len();
        assert(is.take(k as int) =~= is);
        while k > 0
            invariant
                k <= self.bindings.len(),
                is == self.imports(),
                alias_target(is.take(k as int), x@) == alias_target(is, x@),
                reference.len() > 0,
                x@ == path_view(reference@)[0],
            decreases k,
        {
            assert(is.take(k as int).drop_last() =~= is.take(k - 1));
            assert(is.take(k as int).last() == self.bindings@[k - 1]@);
            match &self.bindings[k - 1] {
                Binding::Alias { name, target } => {
                    if *name == *x {
                        return Ok(join(target, reference, 1));
                    }
                },
                Binding::Glob { .. } => {},
            }
            k = k - 1;
        }
        assert(is.take(0) =~= Seq::<Import>::empty());
        // The latest glob import that provides `x`.
        let mut k: usize = self.bindings.len();
        let mut source: Option<usize> = None;
        assert(is.take(k as int) =~= is);
        while k > 0 && source.is_none()
            invariant
                k <= self.bindings.len(),
                is == self.imports(),
                m == tree@,
                alias_target(is, x@) is None,
                match source {
                    Some(i) => i < self.bindings.len() && provides(m, is[i as int], x@)
                        && glob_source(m, is, x@) == Some(is[i as int]->namespace),
                    None => glob_source(m, is.take(k as int), x@) == glob_source(m, is, x@),
                },
            decreases k,
        {
            assert(is.take(k as int).drop_last() =~= is.take(k - 1));
            assert(is.take(k as int).last() == self.bindings@[k - 1]@);
            if provides_exec(tree, &self.bindings[k - 1], x) {
                source = Some(k - 1);
            }
            k = k - 1;
        }
        match source {
            None => {
                assert(is.take(0) =~= Seq::<Import>::empty());
                proof {
                    lemma_no_glob_source(m, is, x@);
                }
                assert(!glob_ambiguous(m, is, x@));
                assert(rv.skip(0) =~= rv);
                Ok(join(&self.path, reference, 0))
            },
            Some(i) => {
                let ns = match &self.bindings[i] {
                    Binding::Glob { namespace } => namespace,
                    Binding::Alias { .. } => {
                        return Err(ResolveError::NotFound);
                    },
                };
                // Any glob import of another namespace that provides `x`.
                let mut j: usize = 0;
                while j < self.bindings.len()
                    invariant
                        j <= self.bindings.len(),
                        i < self.bindings.len(),
                        is == self.imports(),
                        m == tree@,
                        is[i as int]->namespace == path_view(ns@),
                        provides(m, is[i as int], x@),
                        glob_source(m, is, x@) == Some(path_view(ns@)),
                        alias_target(is, x@) is None,
                        rv == path_view(reference@),
                        rv.len() > 0,
                        rv[0] == x@,
                        forall|l: int|
                            0 <= l < j ==> #[trigger] provides(m, is[l], x@) ==> is[l]->namespace
                                == path_view(ns@),
                    decreases self.bindings.len() - j,
                {
                    if provides_exec(tree, &self.bindings[j], x) {
                        match &self.bindings[j] {
                            Binding::Glob { namespace } => {
                                if !same_names(namespace, ns) {
                                    assert(provides(m, is[j as int], x@));
                                    assert(is[j as int]->namespace != is[i as int]->namespace);
                                    assert(glob_ambiguous(m, is, x@));
                                    return Err(ResolveError::Ambiguous);
                                }
                            },
                            Binding::Alias { .. } => {},
                        }
                    }
                    j = j + 1;
                }
                assert(!glob_ambiguous(m, is, x@));
                assert(rv.skip(0) =~= rv);
                Ok(join(ns, reference, 0))
            },
        }
    }

    /// Resolves `reference` in this scope: the bindings are applied first,
    /// then the full path is resolved from this scope's namespace.
    pub fn lookup(&self, tree: &NamespaceTree, reference: &Vec<String>) -> (r: Result<
        Target,
        ResolveError,
    >)
        requires
            tree.wf(),
        ensures
            match r {
                Ok(t) => resolve_reference(tree@, path_view(self.path@), self.imports(), path_view(reference@))
                    == Ok::<(Path, Kind), ResolveError>((path_view(t.path@), t.kind)),
                Err(e) => resolve_reference(tree@, path_view(self.path@), self.imports(), path_view(reference@))
                    == Err::<(Path, Kind), ResolveError>(e),
            },
    {
        let path = self.expand_reference(tree, reference)?;
        match tree.resolve(&path, &self.path) {
            Ok(kind) => Ok(Target { path, kind }),
            Err(e) => Err(e),
        }
    }
}

} // verus!
