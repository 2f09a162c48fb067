use namespaces::demonstrate_namespacing::{demonstrate_aliased_calls, demonstrate_globbed_calls};
use namespaces::imports::{check_references, Reference, Scope};
use namespaces::namespace::{Kind, ResolveError};
use namespaces::program::{program_output, program_references, program_tree};
use namespaces::public_internal_module;
use namespaces::{demonstrate_use_inside_function, use_modules_internal};

fn p(names: &[&str]) -> Vec<String> {
    names.iter().map(|s| s.to_string()).collect()
}

fn namespacing_scope() -> Scope {
    let mut s = Scope::new(p(&["demonstrate_namespacing"]));
    s.bind_glob(p(&["public_internal_module"]));
    s.bind_alias("im".to_string(), p(&["internal_module"]));
    s
}

#[test]
fn internal_module_public_item_resolves_from_sibling() {
    let t = program_tree();
    let s = Scope::new(p(&[]));
    let r = s.lookup(&t, &p(&["internal_module", "a_public_module_fn"])).unwrap();
    assert_eq!(r.path, p(&["internal_module", "a_public_module_fn"]));
    assert_eq!(r.kind, Kind::Item);
    assert_eq!(
        use_modules_internal(),
        vec![
            "At `use_modules_internal()`.",
            "At `internal_module::a_public_module_fn()`.",
            "At `internal_module::a_private_module_fn()`.",
            "At `public_internal_module::a_public_module_fn()`.",
            "At `public_internal_module::some_private_fn()`.",
        ]
    );
}

#[test]
fn internal_module_private_item_is_refused_before_output() {
    let t = program_tree();
    let s = Scope::new(p(&[]));
    assert_eq!(
        s.lookup(&t, &p(&["internal_module", "a_private_module_fn"])).err(),
        Some(ResolveError::Visibility)
    );
    assert_eq!(
        s.lookup(&t, &p(&["public_internal_module", "some_private_fn"])).err(),
        Some(ResolveError::Visibility)
    );
    let mut refs = program_references();
    let n = refs.len();
    refs.push(Reference { scope: Scope::new(p(&[])), names: p(&["internal_module", "a_private_module_fn"]) });
    assert_eq!(check_references(&t, &refs), Err((n, ResolveError::Visibility)));
}

#[test]
fn glob_call_matches_qualified_call() {
    let t = program_tree();
    let short = namespacing_scope().lookup(&t, &p(&["a_public_module_fn"])).unwrap();
    let full = Scope::new(p(&["demonstrate_namespacing"]))
        .lookup(&t, &p(&["public_internal_module", "a_public_module_fn"]));
    // Relative to `demonstrate_namespacing` the qualified name does not exist;
    // the glob import names the crate-level namespace.
    assert_eq!(full.err(), Some(ResolveError::NotFound));
    assert_eq!(short.path, p(&["public_internal_module", "a_public_module_fn"]));
    assert_eq!(
        t.resolve(&p(&["public_internal_module", "a_public_module_fn"]), &p(&["demonstrate_namespacing"])),
        Ok(short.kind)
    );
    let globbed = demonstrate_globbed_calls();
    assert_eq!(globbed[0], "At `demonstrate_namespacing::demonstrate_globbed_calls()`.");
    assert_eq!(globbed[1..].to_vec(), public_internal_module::a_public_module_fn());
}

#[test]
fn aliased_call_goes_to_internal_module() {
    let t = program_tree();
    let r = namespacing_scope().lookup(&t, &p(&["im", "a_public_module_fn"])).unwrap();
    assert_eq!(r.path, p(&["internal_module", "a_public_module_fn"]));
    assert_eq!(
        namespacing_scope().lookup(&t, &p(&["im", "a_private_module_fn"])).err(),
        Some(ResolveError::Visibility)
    );
    assert_eq!(
        demonstrate_aliased_calls(),
        vec![
            "At `demonstrate_namespacing::demonstrate_aliased_calls`.",
            "At `internal_module::a_public_module_fn()`.",
            "At `internal_module::a_private_module_fn()`.",
        ]
    );
}

#[test]
fn nested_empty_namespaces_hold_nothing() {
    let t = program_tree();
    assert_eq!(t.resolve(&p(&["demonstrate_nesting"]), &p(&[])), Ok(Kind::Namespace));
    assert_eq!(t.resolve(&p(&["demonstrate_nesting", "a_nested_module"]), &p(&[])), Ok(Kind::Namespace));
    assert_eq!(
        t.resolve(&p(&["demonstrate_nesting", "a_nested_module", "a_public_module_fn"]), &p(&[])),
        Err(ResolveError::NotFound)
    );
    assert_eq!(
        t.resolve(&p(&["demonstrate_nesting", "a_public_module_fn"]), &p(&["demonstrate_nesting"])),
        Err(ResolveError::NotFound)
    );
}

#[test]
fn use_inside_function_calls_through_alias() {
    assert_eq!(
        demonstrate_use_inside_function(),
        vec![
            "At `demonstrate_use_inside_function()`.",
            "At `demonstrate_namespacing::demonstrate_globbed_calls()`.",
            "At `public_internal_module::a_public_module_fn()`.",
            "At `public_internal_module::some_private_fn()`.",
        ]
    );
}

#[test]
fn program_references_all_resolve() {
    let t = program_tree();
    let refs = program_references();
    assert_eq!(refs.len(), 7);
    assert_eq!(check_references(&t, &refs), Ok(()));
}

#[test]
fn program_output_lists_every_call_in_order() {
    let out = program_output().unwrap();
    let mut expected = use_modules_internal();
    expected.extend(demonstrate_globbed_calls());
    expected.extend(demonstrate_aliased_calls());
    expected.extend(demonstrate_use_inside_function());
    assert_eq!(out, expected);
    assert_eq!(out.len(), 15);
    assert_eq!(out[0], "At `use_modules_internal()`.");
    assert_eq!(out[14], "At `public_internal_module::some_private_fn()`.");
}
