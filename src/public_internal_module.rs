//! A public namespace: its public function is reachable from anywhere, and
//! its private one only from inside it.

use vstd::prelude::*;
use crate::trace::{extend, line, lines_view};

verus! {

/// The trace of `a_public_module_fn`.
pub open spec fn public_fn_trace() -> Seq<Seq<char>> {
    seq!["At `public_internal_module::a_public_module_fn()`."@, "At `public_internal_module::some_private_fn()`."@]
}

/// Public within this namespace; it calls its private sibling.
pub fn a_public_module_fn() -> (lines: Vec<String>)
    ensures
        lines_view(lines@) == public_fn_trace(),
{
    let mut lines = line("At `public_internal_module::a_public_module_fn()`.");
    extend(&mut lines, some_private_fn());
    assert(lines_view(lines@) =~= public_fn_trace());
    lines
}

/// Private to this namespace.
fn some_private_fn() -> (lines: Vec<String>)
    ensures
        lines_view(lines@) == seq!["At `public_internal_module::some_private_fn()`."@],
{
    line("At `public_internal_module::some_private_fn()`.")
}

} // verus!
