use namespaces::imports::{check_references, Reference, Scope};
use namespaces::namespace::{DefineError, Kind, NamespaceTree, Node, ResolveError, Visibility};

fn p(names: &[&str]) -> Vec<String> {
    names.iter().map(|s| s.to_string()).collect()
}

fn ns(vis: Visibility) -> Node {
    Node { kind: Kind::Namespace, vis }
}

fn item(vis: Visibility) -> Node {
    Node { kind: Kind::Item, vis }
}

/// root { a { helper (private), child {} }, b { helper (private) }, c (private) { f (public), g (private) } }
fn sample() -> NamespaceTree {
    let mut t = NamespaceTree::new();
    t.define(&p(&[]), "a".to_string(), ns(Visibility::Public)).unwrap();
    t.define(&p(&["a"]), "helper".to_string(), item(Visibility::Private)).unwrap();
    t.define(&p(&["a"]), "child".to_string(), ns(Visibility::Public)).unwrap();
    t.define(&p(&[]), "b".to_string(), ns(Visibility::Public)).unwrap();
    t.define(&p(&["b"]), "helper".to_string(), item(Visibility::Private)).unwrap();
    t.define(&p(&[]), "c".to_string(), ns(Visibility::Private)).unwrap();
    t.define(&p(&["c"]), "f".to_string(), item(Visibility::Public)).unwrap();
    t.define(&p(&["c"]), "g".to_string(), item(Visibility::Private)).unwrap();
    t
}

#[test]
fn private_item_visible_only_inside_its_namespace() {
    let t = sample();
    assert_eq!(t.resolve(&p(&["a", "helper"]), &p(&["b"])), Err(ResolveError::Visibility));
    assert_eq!(t.resolve(&p(&["b", "helper"]), &p(&["a"])), Err(ResolveError::Visibility));
    assert_eq!(t.resolve(&p(&["a", "helper"]), &p(&["a"])), Ok(Kind::Item));
    assert_eq!(t.resolve(&p(&["b", "helper"]), &p(&["b"])), Ok(Kind::Item));
    // A scope nested inside the namespace sees its private entries.
    assert_eq!(t.resolve(&p(&["a", "helper"]), &p(&["a", "child"])), Ok(Kind::Item));
    // A common public ancestor is not enough.
    assert_eq!(t.resolve(&p(&["a", "helper"]), &p(&[])), Err(ResolveError::Visibility));
}

#[test]
fn private_namespace_blocks_outside_paths() {
    let t = sample();
    assert_eq!(t.resolve(&p(&["c", "f"]), &p(&[])), Ok(Kind::Item));
    assert_eq!(t.resolve(&p(&["c", "f"]), &p(&["a"])), Ok(Kind::Item));
    assert_eq!(t.resolve(&p(&["c", "f"]), &p(&["b", "x"])), Ok(Kind::Item));
    assert_eq!(t.resolve(&p(&["c", "g"]), &p(&[])), Err(ResolveError::Visibility));
    assert_eq!(t.resolve(&p(&["c", "g"]), &p(&["c"])), Ok(Kind::Item));
}

#[test]
fn missing_paths_are_not_found() {
    let t = sample();
    assert_eq!(t.resolve(&p(&["z"]), &p(&[])), Err(ResolveError::NotFound));
    assert_eq!(t.resolve(&p(&["a", "missing"]), &p(&[])), Err(ResolveError::NotFound));
    assert_eq!(t.resolve(&p(&["a", "helper", "x"]), &p(&["a"])), Err(ResolveError::NotFound));
    // Not found wins over a private segment on the way.
    assert_eq!(t.resolve(&p(&["c", "missing"]), &p(&[])), Err(ResolveError::NotFound));
    assert_eq!(t.resolve(&p(&[]), &p(&["a"])), Ok(Kind::Namespace));
    assert_eq!(t.resolve(&p(&["a", "child"]), &p(&[])), Ok(Kind::Namespace));
}

#[test]
fn define_refuses_bad_parents_and_duplicates() {
    let mut t = sample();
    assert_eq!(t.define(&p(&["nope"]), "x".to_string(), item(Visibility::Public)), Err(DefineError::NoSuchNamespace));
    assert_eq!(
        t.define(&p(&["a", "helper"]), "x".to_string(), item(Visibility::Public)),
        Err(DefineError::NoSuchNamespace)
    );
    assert_eq!(t.define(&p(&["a"]), "helper".to_string(), item(Visibility::Public)), Err(DefineError::NameTaken));
    assert_eq!(t.define(&p(&[]), "a".to_string(), ns(Visibility::Private)), Err(DefineError::NameTaken));
    assert_eq!(t.lookup(&p(&["a", "helper"])), Some(item(Visibility::Private)));
    assert_eq!(t.define(&p(&["a", "child"]), "x".to_string(), item(Visibility::Public)), Ok(()));
    assert_eq!(t.lookup(&p(&["a", "child", "x"])), Some(item(Visibility::Public)));
    assert_eq!(t.lookup(&p(&["a", "child", "y"])), None);
}

#[test]
fn glob_import_brings_public_names_only() {
    let t = sample();
    let mut s = Scope::new(p(&["b"]));
    s.bind_glob(p(&["c"]));
    let r = s.lookup(&t, &p(&["f"])).unwrap();
    assert_eq!(r.path, p(&["c", "f"]));
    assert_eq!(r.kind, Kind::Item);
    // The private `g` is not imported: the name falls back to `b` itself.
    assert_eq!(s.lookup(&t, &p(&["g"])).err(), Some(ResolveError::NotFound));
    // A private child of the scope's own namespace still resolves by short name.
    let mut s = Scope::new(p(&["a"]));
    s.bind_glob(p(&["b"]));
    let r = s.lookup(&t, &p(&["helper"])).unwrap();
    assert_eq!(r.path, p(&["a", "helper"]));
}

#[test]
fn glob_import_of_unreachable_namespace_fails_on_visibility() {
    let mut t = sample();
    t.define(&p(&["a"]), "inner".to_string(), ns(Visibility::Private)).unwrap();
    t.define(&p(&["a", "inner"]), "f".to_string(), item(Visibility::Public)).unwrap();
    let mut s = Scope::new(p(&["b"]));
    s.bind_glob(p(&["a", "inner"]));
    assert_eq!(s.lookup(&t, &p(&["f"])).err(), Some(ResolveError::Visibility));
}

#[test]
fn alias_resolves_as_its_target() {
    let t = sample();
    let mut s = Scope::new(p(&["b"]));
    s.bind_alias("x".to_string(), p(&["c"]));
    let via = s.lookup(&t, &p(&["x", "f"])).unwrap();
    let direct = t.resolve(&p(&["c", "f"]), &p(&["b"]));
    assert_eq!(via.path, p(&["c", "f"]));
    assert_eq!(Ok(via.kind), direct);
    assert_eq!(s.lookup(&t, &p(&["x", "g"])).err(), t.resolve(&p(&["c", "g"]), &p(&["b"])).err());
    assert_eq!(s.lookup(&t, &p(&["x", "g"])).err(), Some(ResolveError::Visibility));
    assert_eq!(s.lookup(&t, &p(&["x", "nope"])).err(), Some(ResolveError::NotFound));
    let alias_of_item = {
        let mut s2 = Scope::new(p(&[]));
        s2.bind_alias("h".to_string(), p(&["a", "helper"]));
        s2.lookup(&t, &p(&["h"])).err()
    };
    assert_eq!(alias_of_item, Some(ResolveError::Visibility));
}

#[test]
fn later_alias_shadows_earlier() {
    let t = sample();
    let mut s = Scope::new(p(&["c"]));
    s.bind_alias("x".to_string(), p(&["a"]));
    s.bind_alias("x".to_string(), p(&["c"]));
    let r = s.lookup(&t, &p(&["x", "g"])).unwrap();
    assert_eq!(r.path, p(&["c", "g"]));
}

#[test]
fn alias_wins_over_glob() {
    let t = sample();
    let mut s = Scope::new(p(&[]));
    s.bind_alias("f".to_string(), p(&["a", "child"]));
    s.bind_glob(p(&["c"]));
    let r = s.lookup(&t, &p(&["f"])).unwrap();
    assert_eq!(r.path, p(&["a", "child"]));
    assert_eq!(r.kind, Kind::Namespace);
}

#[test]
fn colliding_glob_imports_are_ambiguous() {
    let mut t = sample();
    t.define(&p(&["a"]), "f".to_string(), item(Visibility::Public)).unwrap();
    let mut s = Scope::new(p(&["b"]));
    s.bind_glob(p(&["a"]));
    s.bind_glob(p(&["c"]));
    assert_eq!(s.lookup(&t, &p(&["f"])).err(), Some(ResolveError::Ambiguous));
    // The same namespace imported twice is no collision.
    let mut s = Scope::new(p(&["b"]));
    s.bind_glob(p(&["c"]));
    s.bind_glob(p(&["c"]));
    assert_eq!(s.lookup(&t, &p(&["f"])).unwrap().path, p(&["c", "f"]));
}

#[test]
fn empty_reference_is_not_found() {
    let t = sample();
    let s = Scope::new(p(&["a"]));
    assert_eq!(s.lookup(&t, &p(&[])).err(), Some(ResolveError::NotFound));
}

#[test]
fn relative_reference_uses_scope_namespace() {
    let t = sample();
    let s = Scope::new(p(&["a"]));
    assert_eq!(s.lookup(&t, &p(&["child"])).unwrap().path, p(&["a", "child"]));
    let s = Scope::new(p(&[]));
    assert_eq!(s.lookup(&t, &p(&["a", "helper"])).err(), Some(ResolveError::Visibility));
}

#[test]
fn check_references_reports_first_failure() {
    let t = sample();
    let refs = vec![
        Reference { scope: Scope::new(p(&["a"])), names: p(&["helper"]) },
        Reference { scope: Scope::new(p(&[])), names: p(&["c", "g"]) },
        Reference { scope: Scope::new(p(&[])), names: p(&["zz"]) },
    ];
    assert_eq!(check_references(&t, &refs), Err((1, ResolveError::Visibility)));
    let ok = vec![Reference { scope: Scope::new(p(&["a"])), names: p(&["helper"]) }];
    assert_eq!(check_references(&t, &ok), Ok(()));
    assert_eq!(check_references(&t, &Vec::new()), Ok(()));
}
