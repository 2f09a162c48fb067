//! The demonstration program: its namespace tree, the references its entry
//! functions make, and the run that checks them all before any line is
//! emitted.

use vstd::prelude::*;
use crate::imports::{
    alias_target, check_references, glob_ambiguous, glob_source, provides, reference_result,
    resolve_reference, Import, Reference, Scope,
};
use crate::namespace::{
    path_view, resolve_target, segment_visible, Kind, NamespaceTree, Node, Path, ResolveError,
    Visibility,
};
use crate::trace::{extend, lines_view};

verus! {

/// The namespace tree of the demonstration program.
pub open spec fn program_model() -> Map<Path, Node> {
    map![
        seq!["internal_module"@] => Node { kind: Kind::Namespace, vis: Visibility::Private },
        seq!["internal_module"@, "a_public_module_fn"@] => Node { kind: Kind::Item, vis: Visibility::Public },
        seq!["internal_module"@, "a_private_module_fn"@] => Node { kind: Kind::Item, vis: Visibility::Private },
        seq!["public_internal_module"@] => Node { kind: Kind::Namespace, vis: Visibility::Public },
        seq!["public_internal_module"@, "a_public_module_fn"@] => Node { kind: Kind::Item, vis: Visibility::Public },
        seq!["public_internal_module"@, "some_private_fn"@] => Node { kind: Kind::Item, vis: Visibility::Private },
        seq!["use_modules_internal"@] => Node { kind: Kind::Item, vis: Visibility::Public },
        seq!["demonstrate_namespacing"@] => Node { kind: Kind::Namespace, vis: Visibility::Public },
        seq!["demonstrate_namespacing"@, "demonstrate_globbed_calls"@] => Node { kind: Kind::Item, vis: Visibility::Public },
        seq!["demonstrate_namespacing"@, "demonstrate_aliased_calls"@] => Node { kind: Kind::Item, vis: Visibility::Public },
        seq!["demonstrate_use_inside_function"@] => Node { kind: Kind::Item, vis: Visibility::Public },
        seq!["demonstrate_nesting"@] => Node { kind: Kind::Namespace, vis: Visibility::Public },
        seq!["demonstrate_nesting"@, "a_nested_module"@] => Node { kind: Kind::Namespace, vis: Visibility::Public }
    ]
}

/// The path of a single name.
fn name_path(a: &str) -> (r: Vec<String>)
    ensures
        path_view(r@) == seq![a@],
{
    let mut r: Vec<String> = Vec::new();
    r.push(String::from_str(a));
    assert(path_view(r@) =~= seq![a@]);
    r
}

/// The path of two names.
fn two_names(a: &str, b: &str) -> (r: Vec<String>)
    ensures
        path_view(r@) == seq![a@, b@],
{
    let mut r: Vec<String> = Vec::new();
    r.push(String::from_str(a));
    r.push(String::from_str(b));
    assert(path_view(r@) =~= seq![a@, b@]);
    r
}

/// The bindings of `demonstrate_namespacing`.
pub open spec fn namespacing_imports() -> Seq<Import> {
    seq![
        Import::Glob { namespace: seq!["public_internal_module"@] },
        Import::Alias { name: "im"@, target: seq!["internal_module"@] },
    ]
}

/// The scope of `demonstrate_namespacing`: a glob import of
/// `public_internal_module` and the alias `im` of `internal_module`.
fn namespacing_scope() -> (s: Scope)
    ensures
        path_view(s.path@) == seq!["demonstrate_namespacing"@],
        s.imports() == namespacing_imports(),
{
    let mut s = Scope::new(name_path("demonstrate_namespacing"));
    s.bind_glob(name_path("public_internal_module"));
    s.bind_alias(String::from_str("im"), name_path("internal_module"));
    s
}

/// The references that the demonstration entry functions make, each with
/// the scope it is made from.
pub open spec fn program_references_model() -> Seq<(Path, Seq<Import>, Path)> {
    let root = Seq::<Seq<char>>::empty();
    let none = Seq::<Import>::empty();
    seq![
        (root, none, seq!["internal_module"@, "a_public_module_fn"@]),
        (root, none, seq!["public_internal_module"@, "a_public_module_fn"@]),
        (seq!["internal_module"@], none, seq!["a_private_module_fn"@]),
        (seq!["public_internal_module"@], none, seq!["some_private_fn"@]),
        (seq!["demonstrate_namespacing"@], namespacing_imports(), seq!["a_public_module_fn"@]),
        (seq!["demonstrate_namespacing"@], namespacing_imports(), seq!["im"@, "a_public_module_fn"@]),
        (
            root,
            seq![Import::Alias { name: "dn"@, target: seq!["demonstrate_namespacing"@] }],
            seq!["dn"@, "demonstrate_globbed_calls"@],
        ),
    ]
}

/// A scope in the root namespace with no bindings.
fn root_scope() -> (s: Scope)
    ensures
        path_view(s.path@) == Seq::<Seq<char>>::empty(),
        s.imports() == Seq::<Import>::empty(),
{
    let s = Scope::new(Vec::new());
    assert(path_view(s.path@) =~= Seq::<Seq<char>>::empty());
    s
}

/// The references that the demonstration entry functions make.
pub fn program_references() -> (refs: Vec<Reference>)
    ensures
        refs@.len() == program_references_model().len(),
        forall|i: int| 0 <= i < refs@.len() ==> #[trigger] refs@[i]@ == program_references_model()[i],
{
    let mut refs: Vec<Reference> = Vec::new();
    refs.push(Reference { scope: root_scope(), names: two_names("internal_module", "a_public_module_fn") });
    refs.push(Reference { scope: root_scope(), names: two_names("public_internal_module", "a_public_module_fn") });
    refs.push(Reference { scope: Scope::new(name_path("internal_module")), names: name_path("a_private_module_fn") });
    refs.push(Reference { scope: Scope::new(name_path("public_internal_module")), names: name_path("some_private_fn") });
    refs.push(Reference { scope: namespacing_scope(), names: name_path("a_public_module_fn") });
    refs.push(Reference { scope: namespacing_scope(), names: two_names("im", "a_public_module_fn") });
    let mut s = root_scope();
    s.bind_alias(String::from_str("dn"), name_path("demonstrate_namespacing"));
    assert(s.imports() =~= seq![Import::Alias { name: "dn"@, target: seq!["demonstrate_namespacing"@] }]);
    refs.push(Reference { scope: s, names: two_names("dn", "demonstrate_globbed_calls") });
    assert forall|i: int| 0 <= i < refs@.len() implies #[trigger] refs@[i]@ == program_references_model()[i] by {}
    refs
}

/// Every reference of the demonstration program resolves.
pub open spec fn program_resolves() -> bool {
    forall|i: int|
        0 <= i < program_references_model().len() ==> #[trigger] reference_result(
            program_model(),
            program_references_model()[i],
        ) is Ok
}

/// The lines of the demonstration program's run, entry function by entry
/// function.
pub open spec fn program_trace() -> Seq<Seq<char>> {
    seq!["At `use_modules_internal()`."@] + crate::internal_module::public_fn_trace()
        + crate::public_internal_module::public_fn_trace()
        + crate::demonstrate_namespacing::globbed_calls_trace() + seq![
        "At `demonstrate_namespacing::demonstrate_aliased_calls`."@,
    ] + crate::internal_module::public_fn_trace() + seq!["At `demonstrate_use_inside_function()`."@]
        + crate::demonstrate_namespacing::globbed_calls_trace()
}

/// A two-name path resolves from `scope` when it is registered and either
/// public or held by a namespace that contains `scope`.
proof fn lemma_two_names_resolve(m: Map<Path, Node>, a: Seq<char>, b: Seq<char>, scope: Path)
    requires
        m.contains_key(seq![a, b]),
        m.contains_key(seq![a]),
        m[seq![a, b]].vis == Visibility::Public || seq![a].is_prefix_of(scope),
    ensures
        resolve_target(m, seq![a, b], scope) == Ok::<(Path, Kind), ResolveError>(
            (seq![a, b], m[seq![a, b]].kind),
        ),
{
    let p = seq![a, b];
    assert(p.take(1) =~= seq![a]);
    assert(p.take(2) =~= p);
    assert(seq![a].drop_last() =~= Seq::<Seq<char>>::empty());
    assert(p.drop_last() =~= seq![a]);
    assert(Seq::<Seq<char>>::empty().is_prefix_of(scope));
    assert(segment_visible(m, p.take(1), scope));
    assert(segment_visible(m, p.take(2), scope));
}

/// With no bindings a reference is taken relative to the scope's namespace.
proof fn lemma_no_bindings(m: Map<Path, Node>, scope: Path, r: Path)
    requires
        r.len() > 0,
    ensures
        resolve_reference(m, scope, Seq::<Import>::empty(), r) == resolve_target(m, scope + r, scope),
{
    assert(alias_target(Seq::<Import>::empty(), r[0]) is None);
    assert(glob_source(m, Seq::<Import>::empty(), r[0]) is None);
}

/// Every reference of the demonstration program resolves.
pub proof fn lemma_program_resolves()
    ensures
        program_resolves(),
{
    reveal_strlit("internal_module");
    reveal_strlit("public_internal_module");
    reveal_strlit("use_modules_internal");
    reveal_strlit("demonstrate_namespacing");
    reveal_strlit("demonstrate_use_inside_function");
    reveal_strlit("demonstrate_nesting");
    reveal_strlit("a_public_module_fn");
    reveal_strlit("a_private_module_fn");
    reveal_strlit("some_private_fn");
    reveal_strlit("demonstrate_globbed_calls");
    reveal_strlit("demonstrate_aliased_calls");
    reveal_strlit("a_nested_module");
    reveal_strlit("im");
    reveal_strlit("dn");
    let m = program_model();
    let root = Seq::<Seq<char>>::empty();
    let none = Seq::<Import>::empty();
    assert(seq!["internal_module"@, "a_private_module_fn"@][1].len() != seq!["internal_module"@, "a_public_module_fn"@][1].len());
    assert(seq!["public_internal_module"@].len() != seq!["internal_module"@, "a_public_module_fn"@].len());
    assert(seq!["public_internal_module"@, "a_public_module_fn"@][0].len() != seq!["internal_module"@, "a_public_module_fn"@][0].len());
    assert(seq!["public_internal_module"@, "some_private_fn"@][0].len() != seq!["internal_module"@, "a_public_module_fn"@][0].len());
    assert(seq!["use_modules_internal"@].len() != seq!["internal_module"@, "a_public_module_fn"@].len());
    assert(seq!["demonstrate_namespacing"@].len() != seq!["internal_module"@, "a_public_module_fn"@].len());
    assert(seq!["demonstrate_namespacing"@, "demonstrate_globbed_calls"@][0].len() != seq!["internal_module"@, "a_public_module_fn"@][0].len());
    assert(seq!["demonstrate_namespacing"@, "demonstrate_aliased_calls"@][0].len() != seq!["internal_module"@, "a_public_module_fn"@][0].len());
    assert(seq!["demonstrate_use_inside_function"@].len() != seq!["internal_module"@, "a_public_module_fn"@].len());
    assert(seq!["demonstrate_nesting"@].len() != seq!["internal_module"@, "a_public_module_fn"@].len());
    assert(seq!["demonstrate_nesting"@, "a_nested_module"@][0].len() != seq!["internal_module"@, "a_public_module_fn"@][0].len());
    assert(seq!["public_internal_module"@, "some_private_fn"@][1].len() != seq!["public_internal_module"@, "a_public_module_fn"@][1].len());
    assert(seq!["use_modules_internal"@].len() != seq!["public_internal_module"@, "a_public_module_fn"@].len());
    assert(seq!["demonstrate_namespacing"@].len() != seq!["public_internal_module"@, "a_public_module_fn"@].len());
    assert(seq!["demonstrate_namespacing"@, "demonstrate_globbed_calls"@][0].len() != seq!["public_internal_module"@, "a_public_module_fn"@][0].len());
    assert(seq!["demonstrate_namespacing"@, "demonstrate_aliased_calls"@][0].len() != seq!["public_internal_module"@, "a_public_module_fn"@][0].len());
    assert(seq!["demonstrate_use_inside_function"@].len() != seq!["public_internal_module"@, "a_public_module_fn"@].len());
    assert(seq!["demonstrate_nesting"@].len() != seq!["public_internal_module"@, "a_public_module_fn"@].len());
    assert(seq!["demonstrate_nesting"@, "a_nested_module"@][0].len() != seq!["public_internal_module"@, "a_public_module_fn"@][0].len());
    assert(seq!["demonstrate_namespacing"@, "demonstrate_aliased_calls"@][1][12] != seq!["demonstrate_namespacing"@, "demonstrate_globbed_calls"@][1][12]);
    assert(seq!["demonstrate_use_inside_function"@].len() != seq!["demonstrate_namespacing"@, "demonstrate_globbed_calls"@].len());
    assert(seq!["demonstrate_nesting"@].len() != seq!["demonstrate_namespacing"@, "demonstrate_globbed_calls"@].len());
    assert(seq!["demonstrate_nesting"@, "a_nested_module"@][0].len() != seq!["demonstrate_namespacing"@, "demonstrate_globbed_calls"@][0].len());
    let refs = program_references_model();
    // Calls made without bindings, relative to the caller's namespace.
    lemma_no_bindings(m, root, refs[0].2);
    assert(root + refs[0].2 =~= refs[0].2);
    lemma_two_names_resolve(m, "internal_module"@, "a_public_module_fn"@, root);
    lemma_no_bindings(m, root, refs[1].2);
    assert(root + refs[1].2 =~= refs[1].2);
    lemma_two_names_resolve(m, "public_internal_module"@, "a_public_module_fn"@, root);
    let im = seq!["internal_module"@];
    lemma_no_bindings(m, im, refs[2].2);
    assert(im + refs[2].2 =~= seq!["internal_module"@, "a_private_module_fn"@]);
    assert(im.is_prefix_of(im));
    lemma_two_names_resolve(m, "internal_module"@, "a_private_module_fn"@, im);
    let pim = seq!["public_internal_module"@];
    lemma_no_bindings(m, pim, refs[3].2);
    assert(pim + refs[3].2 =~= seq!["public_internal_module"@, "some_private_fn"@]);
    assert(pim.is_prefix_of(pim));
    lemma_two_names_resolve(m, "public_internal_module"@, "some_private_fn"@, pim);
    // The glob-imported short name.
    let dn = seq!["demonstrate_namespacing"@];
    let is = namespacing_imports();
    let glob = Import::Glob { namespace: pim };
    assert(is.drop_last() =~= seq![glob]);
    assert(seq![glob].drop_last() =~= none);
    assert(refs[4].2[0] == "a_public_module_fn"@);
    assert(alias_target(none, "a_public_module_fn"@) is None);
    assert(alias_target(seq![glob], "a_public_module_fn"@) is None);
    assert(alias_target(is, "a_public_module_fn"@) is None);
    assert(pim.push("a_public_module_fn"@) == seq!["public_internal_module"@, "a_public_module_fn"@]);
    assert(provides(m, glob, "a_public_module_fn"@));
    assert(glob_source(m, seq![glob], "a_public_module_fn"@) == Some(pim));
    assert(glob_source(m, is, "a_public_module_fn"@) == Some(pim));
    assert(!glob_ambiguous(m, is, "a_public_module_fn"@));
    assert(pim + refs[4].2 =~= seq!["public_internal_module"@, "a_public_module_fn"@]);
    lemma_two_names_resolve(m, "public_internal_module"@, "a_public_module_fn"@, dn);
    // The call through the alias `im`.
    assert(refs[5].2[0] == "im"@);
    assert(alias_target(is, "im"@) == Some(im));
    assert(refs[5].2.drop_first() =~= seq!["a_public_module_fn"@]);
    assert(im + refs[5].2.drop_first() =~= seq!["internal_module"@, "a_public_module_fn"@]);
    lemma_two_names_resolve(m, "internal_module"@, "a_public_module_fn"@, dn);
    // The call through the alias `dn`.
    let dn_alias = seq![Import::Alias { name: "dn"@, target: dn }];
    assert(refs[6].2[0] == "dn"@);
    assert(alias_target(dn_alias, "dn"@) == Some(dn));
    assert(refs[6].2.drop_first() =~= seq!["demonstrate_globbed_calls"@]);
    assert(dn + refs[6].2.drop_first() =~= seq!["demonstrate_namespacing"@, "demonstrate_globbed_calls"@]);
    lemma_two_names_resolve(m, "demonstrate_namespacing"@, "demonstrate_globbed_calls"@, root);
    assert forall|i: int| 0 <= i < refs.len() implies #[trigger] reference_result(m, refs[i]) is Ok by {
    }
}

/// Checks every reference of the demonstration program, then runs its entry
/// functions in order. Nothing runs when a reference fails: the result is
/// then the index of the first such reference and its error. Every reference
/// of this program resolves, so the run always takes place.
pub fn program_output() -> (r: Result<Vec<String>, (usize, ResolveError)>)
    ensures
        r is Ok,
        r matches Ok(lines) ==> lines_view(lines@) == program_trace(),
{
    proof {
        lemma_program_resolves();
    }
    let tree = program_tree();
    let refs = program_references();
    assert forall|i: int| 0 <= i < refs@.len() implies #[trigger] reference_result(tree@, refs@[i]@)
        == reference_result(program_model(), program_references_model()[i]) by {
        assert(refs@[i]@ == program_references_model()[i]);
    }
    match check_references(&tree, &refs) {
        Err(f) => {
            return Err(f);
        },
        Ok(()) => {},
    }
    let mut lines = crate::use_modules_internal();
    extend(&mut lines, crate::demonstrate_namespacing::demonstrate_globbed_calls());
    extend(&mut lines, crate::demonstrate_namespacing::demonstrate_aliased_calls());
    extend(&mut lines, crate::demonstrate_use_inside_function());
    Ok(lines)
}

/// Registers the demonstration program's namespaces and functions.
pub fn program_tree() -> (t: NamespaceTree)
    ensures
        t.wf(),
        t@ == program_model(),
{
    proof {
        reveal_strlit("internal_module");
        reveal_strlit("public_internal_module");
        reveal_strlit("use_modules_internal");
        reveal_strlit("demonstrate_namespacing");
        reveal_strlit("demonstrate_use_inside_function");
        reveal_strlit("demonstrate_nesting");
        reveal_strlit("a_public_module_fn");
        reveal_strlit("a_private_module_fn");
        reveal_strlit("some_private_fn");
        reveal_strlit("demonstrate_globbed_calls");
        reveal_strlit("demonstrate_aliased_calls");
        reveal_strlit("a_nested_module");
    }
    let mut t = NamespaceTree::new();
    let parent: Vec<String> = Vec::new();
    assert(path_view(parent@) =~= Seq::<Seq<char>>::empty());
    proof {
        assert(!t@.contains_key(seq!["internal_module"@]));
        assert(path_view(parent@).push("internal_module"@) == seq!["internal_module"@]);
    }
    let r = t.define(&parent, String::from_str("internal_module"), Node { kind: Kind::Namespace, vis: Visibility::Private });
    assert(r is Ok);
    let parent: Vec<String> = name_path("internal_module");
    proof {
        assert(seq!["internal_module"@].len() != seq!["internal_module"@, "a_public_module_fn"@].len());
        assert(t@.contains_key(seq!["internal_module"@]));
        assert(t@[seq!["internal_module"@]].kind == Kind::Namespace);
        assert(!t@.contains_key(seq!["internal_module"@, "a_public_module_fn"@]));
        assert(path_view(parent@).push("a_public_module_fn"@) == seq!["internal_module"@, "a_public_module_fn"@]);
    }
    let r = t.define(&parent, String::from_str("a_public_module_fn"), Node { kind: Kind::Item, vis: Visibility::Public });
    assert(r is Ok);
    let parent: Vec<String> = name_path("internal_module");
    proof {
        assert(seq!["internal_module"@].len() != seq!["internal_module"@, "a_private_module_fn"@].len());
        assert(seq!["internal_module"@, "a_public_module_fn"@][1].len() != seq!["internal_module"@, "a_private_module_fn"@][1].len());
        assert(seq!["internal_module"@, "a_public_module_fn"@].len() != seq!["internal_module"@].len());
        assert(t@.contains_key(seq!["internal_module"@]));
        assert(t@[seq!["internal_module"@]].kind == Kind::Namespace);
        assert(!t@.contains_key(seq!["internal_module"@, "a_private_module_fn"@]));
        assert(path_view(parent@).push("a_private_module_fn"@) == seq!["internal_module"@, "a_private_module_fn"@]);
    }
    let r = t.define(&parent, String::from_str("a_private_module_fn"), Node { kind: Kind::Item, vis: Visibility::Private });
    assert(r is Ok);
    let parent: Vec<String> = Vec::new();
    assert(path_view(parent@) =~= Seq::<Seq<char>>::empty());
    proof {
        assert(seq!["internal_module"@][0].len() != seq!["public_internal_module"@][0].len());
        assert(seq!["internal_module"@, "a_public_module_fn"@].len() != seq!["public_internal_module"@].len());
        assert(seq!["internal_module"@, "a_private_module_fn"@].len() != seq!["public_internal_module"@].len());
        assert(!t@.contains_key(seq!["public_internal_module"@]));
        assert(path_view(parent@).push("public_internal_module"@) == seq!["public_internal_module"@]);
    }
    let r = t.define(&parent, String::from_str("public_internal_module"), Node { kind: Kind::Namespace, vis: Visibility::Public });
    assert(r is Ok);
    let parent: Vec<String> = name_path("public_internal_module");
    proof {
        assert(seq!["internal_module"@].len() != seq!["public_internal_module"@, "a_public_module_fn"@].len());
        assert(seq!["internal_module"@, "a_public_module_fn"@][0].len() != seq!["public_internal_module"@, "a_public_module_fn"@][0].len());
        assert(seq!["internal_module"@, "a_private_module_fn"@][0].len() != seq!["public_internal_module"@, "a_public_module_fn"@][0].len());
        assert(seq!["public_internal_module"@].len() != seq!["public_internal_module"@, "a_public_module_fn"@].len());
        assert(seq!["internal_module"@][0].len() != seq!["public_internal_module"@][0].len());
        assert(seq!["internal_module"@, "a_public_module_fn"@].len() != seq!["public_internal_module"@].len());
        assert(seq!["internal_module"@, "a_private_module_fn"@].len() != seq!["public_internal_module"@].len());
        assert(t@.contains_key(seq!["public_internal_module"@]));
        assert(t@[seq!["public_internal_module"@]].kind == Kind::Namespace);
        assert(!t@.contains_key(seq!["public_internal_module"@, "a_public_module_fn"@]));
        assert(path_view(parent@).push("a_public_module_fn"@) == seq!["public_internal_module"@, "a_public_module_fn"@]);
    }
    let r = t.define(&parent, String::from_str("a_public_module_fn"), Node { kind: Kind::Item, vis: Visibility::Public });
    assert(r is Ok);
    let parent: Vec<String> = name_path("public_internal_module");
    proof {
        assert(seq!["internal_module"@].len() != seq!["public_internal_module"@, "some_private_fn"@].len());
        assert(seq!["internal_module"@, "a_public_module_fn"@][0].len() != seq!["public_internal_module"@, "some_private_fn"@][0].len());
        assert(seq!["internal_module"@, "a_private_module_fn"@][0].len() != seq!["public_internal_module"@, "some_private_fn"@][0].len());
        assert(seq!["public_internal_module"@].len() != seq!["public_internal_module"@, "some_private_fn"@].len());
        assert(seq!["public_internal_module"@, "a_public_module_fn"@][1].len() != seq!["public_internal_module"@, "some_private_fn"@][1].len());
        assert(seq!["internal_module"@][0].len() != seq!["public_internal_module"@][0].len());
        assert(seq!["internal_module"@, "a_public_module_fn"@].len() != seq!["public_internal_module"@].len());
        assert(seq!["internal_module"@, "a_private_module_fn"@].len() != seq!["public_internal_module"@].len());
        assert(seq!["public_internal_module"@, "a_public_module_fn"@].len() != seq!["public_internal_module"@].len());
        assert(t@.contains_key(seq!["public_internal_module"@]));
        assert(t@[seq!["public_internal_module"@]].kind == Kind::Namespace);
        assert(!t@.contains_key(seq!["public_internal_module"@, "some_private_fn"@]));
        assert(path_view(parent@).push("some_private_fn"@) == seq!["public_internal_module"@, "some_private_fn"@]);
    }
    let r = t.define(&parent, String::from_str("some_private_fn"), Node { kind: Kind::Item, vis: Visibility::Private });
    assert(r is Ok);
    let parent: Vec<String> = Vec::new();
    assert(path_view(parent@) =~= Seq::<Seq<char>>::empty());
    proof {
        assert(seq!["internal_module"@][0].len() != seq!["use_modules_internal"@][0].len());
        assert(seq!["internal_module"@, "a_public_module_fn"@].len() != seq!["use_modules_internal"@].len());
        assert(seq!["internal_module"@, "a_private_module_fn"@].len() != seq!["use_modules_internal"@].len());
        assert(seq!["public_internal_module"@][0].len() != seq!["use_modules_internal"@][0].len());
        assert(seq!["public_internal_module"@, "a_public_module_fn"@].len() != seq!["use_modules_internal"@].len());
        assert(seq!["public_internal_module"@, "some_private_fn"@].len() != seq!["use_modules_internal"@].len());
        assert(!t@.contains_key(seq!["use_modules_internal"@]));
        assert(path_view(parent@).push("use_modules_internal"@) == seq!["use_modules_internal"@]);
    }
    let r = t.define(&parent, String::from_str("use_modules_internal"), Node { kind: Kind::Item, vis: Visibility::Public });
    assert(r is Ok);
    let parent: Vec<String> = Vec::new();
    assert(path_view(parent@) =~= Seq::<Seq<char>>::empty());
    proof {
        assert(seq!["internal_module"@][0].len() != seq!["demonstrate_namespacing"@][0].len());
        assert(seq!["internal_module"@, "a_public_module_fn"@].len() != seq!["demonstrate_namespacing"@].len());
        assert(seq!["internal_module"@, "a_private_module_fn"@].len() != seq!["demonstrate_namespacing"@].len());
        assert(seq!["public_internal_module"@][0].len() != seq!["demonstrate_namespacing"@][0].len());
        assert(seq!["public_internal_module"@, "a_public_module_fn"@].len() != seq!["demonstrate_namespacing"@].len());
        assert(seq!["public_internal_module"@, "some_private_fn"@].len() != seq!["demonstrate_namespacing"@].len());
        assert(seq!["use_modules_internal"@][0].len() != seq!["demonstrate_namespacing"@][0].len());
        assert(!t@.contains_key(seq!["demonstrate_namespacing"@]));
        assert(path_view(parent@).push("demonstrate_namespacing"@) == seq!["demonstrate_namespacing"@]);
    }
    let r = t.define(&parent, String::from_str("demonstrate_namespacing"), Node { kind: Kind::Namespace, vis: Visibility::Public });
    assert(r is Ok);
    let parent: Vec<String> = name_path("demonstrate_namespacing");
    proof {
        assert(seq!["internal_module"@].len() != seq!["demonstrate_namespacing"@, "demonstrate_globbed_calls"@].len());
        assert(seq!["internal_module"@, "a_public_module_fn"@][0].len() != seq!["demonstrate_namespacing"@, "demonstrate_globbed_calls"@][0].len());
        assert(seq!["internal_module"@, "a_private_module_fn"@][0].len() != seq!["demonstrate_namespacing"@, "demonstrate_globbed_calls"@][0].len());
        assert(seq!["public_internal_module"@].len() != seq!["demonstrate_namespacing"@, "demonstrate_globbed_calls"@].len());
        assert(seq!["public_internal_module"@, "a_public_module_fn"@][0].len() != seq!["demonstrate_namespacing"@, "demonstrate_globbed_calls"@][0].len());
        assert(seq!["public_internal_module"@, "some_private_fn"@][0].len() != seq!["demonstrate_namespacing"@, "demonstrate_globbed_calls"@][0].len());
        assert(seq!["use_modules_internal"@].len() != seq!["demonstrate_namespacing"@, "demonstrate_globbed_calls"@].len());
        assert(seq!["demonstrate_namespacing"@].len() != seq!["demonstrate_namespacing"@, "demonstrate_globbed_calls"@].len());
        assert(seq!["internal_module"@][0].len() != seq!["demonstrate_namespacing"@][0].len());
        assert(seq!["internal_module"@, "a_public_module_fn"@].len() != seq!["demonstrate_namespacing"@].len());
        assert(seq!["internal_module"@, "a_private_module_fn"@].len() != seq!["demonstrate_namespacing"@].len());
        assert(seq!["public_internal_module"@][0].len() != seq!["demonstrate_namespacing"@][0].len());
        assert(seq!["public_internal_module"@, "a_public_module_fn"@].len() != seq!["demonstrate_namespacing"@].len());
        assert(seq!["public_internal_module"@, "some_private_fn"@].len() != seq!["demonstrate_namespacing"@].len());
        assert(seq!["use_modules_internal"@][0].len() != seq!["demonstrate_namespacing"@][0].len());
        assert(t@.contains_key(seq!["demonstrate_namespacing"@]));
        assert(t@[seq!["demonstrate_namespacing"@]].kind == Kind::Namespace);
        assert(!t@.contains_key(seq!["demonstrate_namespacing"@, "demonstrate_globbed_calls"@]));
        assert(path_view(parent@).push("demonstrate_globbed_calls"@) == seq!["demonstrate_namespacing"@, "demonstrate_globbed_calls"@]);
    }
    let r = t.define(&parent, String::from_str("demonstrate_globbed_calls"), Node { kind: Kind::Item, vis: Visibility::Public });
    assert(r is Ok);
    let parent: Vec<String> = name_path("demonstrate_namespacing");
    proof {
        assert(seq!["internal_module"@].len() != seq!["demonstrate_namespacing"@, "demonstrate_aliased_calls"@].len());
        assert(seq!["internal_module"@, "a_public_module_fn"@][0].len() != seq!["demonstrate_namespacing"@, "demonstrate_aliased_calls"@][0].len());
        assert(seq!["internal_module"@, "a_private_module_fn"@][0].len() != seq!["demonstrate_namespacing"@, "demonstrate_aliased_calls"@][0].len());
        assert(seq!["public_internal_module"@].len() != seq!["demonstrate_namespacing"@, "demonstrate_aliased_calls"@].len());
        assert(seq!["public_internal_module"@, "a_public_module_fn"@][0].len() != seq!["demonstrate_namespacing"@, "demonstrate_aliased_calls"@][0].len());
        assert(seq!["public_internal_module"@, "some_private_fn"@][0].len() != seq!["demonstrate_namespacing"@, "demonstrate_aliased_calls"@][0].len());
        assert(seq!["use_modules_internal"@].len() != seq!["demonstrate_namespacing"@, "demonstrate_aliased_calls"@].len());
        assert(seq!["demonstrate_namespacing"@].len() != seq!["demonstrate_namespacing"@, "demonstrate_aliased_calls"@].len());
        assert(seq!["demonstrate_namespacing"@, "demonstrate_globbed_calls"@][1][12] != seq!["demonstrate_namespacing"@, "demonstrate_aliased_calls"@][1][12]);
        assert(seq!["internal_module"@][0].len() != seq!["demonstrate_namespacing"@][0].len());
        assert(seq!["internal_module"@, "a_public_module_fn"@].len() != seq!["demonstrate_namespacing"@].len());
        assert(seq!["internal_module"@, "a_private_module_fn"@].len() != seq!["demonstrate_namespacing"@].len());
        assert(seq!["public_internal_module"@][0].len() != seq!["demonstrate_namespacing"@][0].len());
        assert(seq!["public_internal_module"@, "a_public_module_fn"@].len() != seq!["demonstrate_namespacing"@].len());
        assert(seq!["public_internal_module"@, "some_private_fn"@].len() != seq!["demonstrate_namespacing"@].len());
        assert(seq!["use_modules_internal"@][0].len() != seq!["demonstrate_namespacing"@][0].len());
        assert(seq!["demonstrate_namespacing"@, "demonstrate_globbed_calls"@].len() != seq!["demonstrate_namespacing"@].len());
        assert(t@.contains_key(seq!["demonstrate_namespacing"@]));
        assert(t@[seq!["demonstrate_namespacing"@]].kind == Kind::Namespace);
        assert(!t@.contains_key(seq!["demonstrate_namespacing"@, "demonstrate_aliased_calls"@]));
        assert(path_view(parent@).push("demonstrate_aliased_calls"@) == seq!["demonstrate_namespacing"@, "demonstrate_aliased_calls"@]);
    }
    let r = t.define(&parent, String::from_str("demonstrate_aliased_calls"), Node { kind: Kind::Item, vis: Visibility::Public });
    assert(r is Ok);
    let parent: Vec<String> = Vec::new();
    assert(path_view(parent@) =~= Seq::<Seq<char>>::empty());
    proof {
        assert(seq!["internal_module"@][0].len() != seq!["demonstrate_use_inside_function"@][0].len());
        assert(seq!["internal_module"@, "a_public_module_fn"@].len() != seq!["demonstrate_use_inside_function"@].len());
        assert(seq!["internal_module"@, "a_private_module_fn"@].len() != seq!["demonstrate_use_inside_function"@].len());
        assert(seq!["public_internal_module"@][0].len() != seq!["demonstrate_use_inside_function"@][0].len());
        assert(seq!["public_internal_module"@, "a_public_module_fn"@].len() != seq!["demonstrate_use_inside_function"@].len());
        assert(seq!["public_internal_module"@, "some_private_fn"@].len() != seq!["demonstrate_use_inside_function"@].len());
        assert(seq!["use_modules_internal"@][0].len() != seq!["demonstrate_use_inside_function"@][0].len());
        assert(seq!["demonstrate_namespacing"@][0].len() != seq!["demonstrate_use_inside_function"@][0].len());
        assert(seq!["demonstrate_namespacing"@, "demonstrate_globbed_calls"@].len() != seq!["demonstrate_use_inside_function"@].len());
        assert(seq!["demonstrate_namespacing"@, "demonstrate_aliased_calls"@].len() != seq!["demonstrate_use_inside_function"@].len());
        assert(!t@.contains_key(seq!["demonstrate_use_inside_function"@]));
        assert(path_view(parent@).push("demonstrate_use_inside_function"@) == seq!["demonstrate_use_inside_function"@]);
    }
    let r = t.define(&parent, String::from_str("demonstrate_use_inside_function"), Node { kind: Kind::Item, vis: Visibility::Public });
    assert(r is Ok);
    let parent: Vec<String> = Vec::new();
    assert(path_view(parent@) =~= Seq::<Seq<char>>::empty());
    proof {
        assert(seq!["internal_module"@][0].len() != seq!["demonstrate_nesting"@][0].len());
        assert(seq!["internal_module"@, "a_public_module_fn"@].len() != seq!["demonstrate_nesting"@].len());
        assert(seq!["internal_module"@, "a_private_module_fn"@].len() != seq!["demonstrate_nesting"@].len());
        assert(seq!["public_internal_module"@][0].len() != seq!["demonstrate_nesting"@][0].len());
        assert(seq!["public_internal_module"@, "a_public_module_fn"@].len() != seq!["demonstrate_nesting"@].len());
        assert(seq!["public_internal_module"@, "some_private_fn"@].len() != seq!["demonstrate_nesting"@].len());
        assert(seq!["use_modules_internal"@][0].len() != seq!["demonstrate_nesting"@][0].len());
        assert(seq!["demonstrate_namespacing"@][0].len() != seq!["demonstrate_nesting"@][0].len());
        assert(seq!["demonstrate_namespacing"@, "demonstrate_globbed_calls"@].len() != seq!["demonstrate_nesting"@].len());
        assert(seq!["demonstrate_namespacing"@, "demonstrate_aliased_calls"@].len() != seq!["demonstrate_nesting"@].len());
        assert(seq!["demonstrate_use_inside_function"@][0].len() != seq!["demonstrate_nesting"@][0].len());
        assert(!t@.contains_key(seq!["demonstrate_nesting"@]));
        assert(path_view(parent@).push("demonstrate_nesting"@) == seq!["demonstrate_nesting"@]);
    }
    let r = t.define(&parent, String::from_str("demonstrate_nesting"), Node { kind: Kind::Namespace, vis: Visibility::Public });
    assert(r is Ok);
    let parent: Vec<String> = name_path("demonstrate_nesting");
    proof {
        assert(seq!["internal_module"@].len() != seq!["demonstrate_nesting"@, "a_nested_module"@].len());
        assert(seq!["internal_module"@, "a_public_module_fn"@][0].len() != seq!["demonstrate_nesting"@, "a_nested_module"@][0].len());
        assert(seq!["internal_module"@, "a_private_module_fn"@][0].len() != seq!["demonstrate_nesting"@, "a_nested_module"@][0].len());
        assert(seq!["public_internal_module"@].len() != seq!["demonstrate_nesting"@, "a_nested_module"@].len());
        assert(seq!["public_internal_module"@, "a_public_module_fn"@][0].len() != seq!["demonstrate_nesting"@, "a_nested_module"@][0].len());
        assert(seq!["public_internal_module"@, "some_private_fn"@][0].len() != seq!["demonstrate_nesting"@, "a_nested_module"@][0].len());
        assert(seq!["use_modules_internal"@].len() != seq!["demonstrate_nesting"@, "a_nested_module"@].len());
        assert(seq!["demonstrate_namespacing"@].len() != seq!["demonstrate_nesting"@, "a_nested_module"@].len());
        assert(seq!["demonstrate_namespacing"@, "demonstrate_globbed_calls"@][0].len() != seq!["demonstrate_nesting"@, "a_nested_module"@][0].len());
        assert(seq!["demonstrate_namespacing"@, "demonstrate_aliased_calls"@][0].len() != seq!["demonstrate_nesting"@, "a_nested_module"@][0].len());
        assert(seq!["demonstrate_use_inside_function"@].len() != seq!["demonstrate_nesting"@, "a_nested_module"@].len());
        assert(seq!["demonstrate_nesting"@].len() != seq!["demonstrate_nesting"@, "a_nested_module"@].len());
        assert(seq!["internal_module"@][0].len() != seq!["demonstrate_nesting"@][0].len());
        assert(seq!["internal_module"@, "a_public_module_fn"@].len() != seq!["demonstrate_nesting"@].len());
        assert(seq!["internal_module"@, "a_private_module_fn"@].len() != seq!["demonstrate_nesting"@].len());
        assert(seq!["public_internal_module"@][0].len() != seq!["demonstrate_nesting"@][0].len());
        assert(seq!["public_internal_module"@, "a_public_module_fn"@].len() != seq!["demonstrate_nesting"@].len());
        assert(seq!["public_internal_module"@, "some_private_fn"@].len() != seq!["demonstrate_nesting"@].len());
        assert(seq!["use_modules_internal"@][0].len() != seq!["demonstrate_nesting"@][0].len());
        assert(seq!["demonstrate_namespacing"@][0].len() != seq!["demonstrate_nesting"@][0].len());
        assert(seq!["demonstrate_namespacing"@, "demonstrate_globbed_calls"@].len() != seq!["demonstrate_nesting"@].len());
        assert(seq!["demonstrate_namespacing"@, "demonstrate_aliased_calls"@].len() != seq!["demonstrate_nesting"@].len());
        assert(seq!["demonstrate_use_inside_function"@][0].len() != seq!["demonstrate_nesting"@][0].len());
        assert(t@.contains_key(seq!["demonstrate_nesting"@]));
        assert(t@[seq!["demonstrate_nesting"@]].kind == Kind::Namespace);
        assert(!t@.contains_key(seq!["demonstrate_nesting"@, "a_nested_module"@]));
        assert(path_view(parent@).push("a_nested_module"@) == seq!["demonstrate_nesting"@, "a_nested_module"@]);
    }
    let r = t.define(&parent, String::from_str("a_nested_module"), Node { kind: Kind::Namespace, vis: Visibility::Public });
    assert(r is Ok);
    assert(t@ =~= program_model());
    t
}

} // verus!
