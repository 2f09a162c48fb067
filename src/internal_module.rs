//! A namespace that is not public: its public function is reachable only
//! from code inside the crate root, and its private one only from inside it.

use vstd::prelude::*;
use crate::trace::{extend, line, lines_view};

verus! {

/// The trace of `a_public_module_fn`.
pub open spec fn public_fn_trace() -> Seq<Seq<char>> {
    seq!["At `internal_module::a_public_module_fn()`."@, "At `internal_module::a_private_module_fn()`."@]
}

/// Public within this namespace; it calls its private sibling.
pub fn a_public_module_fn() -> (lines: Vec<String>)
    ensures
        lines_view(lines@) == public_fn_trace(),
{
    let mut lines = line("At `internal_module::a_public_module_fn()`.");
    extend(&mut lines, a_private_module_fn());
    assert(lines_view(lines@) =~= public_fn_trace());
    lines
}

/// Private to this namespace.
fn a_private_module_fn() -> (lines: Vec<String>)
    ensures
        lines_view(lines@) == seq!["At `internal_module::a_private_module_fn()`."@],
{
    line("At `internal_module::a_private_module_fn()`.")
}

} // verus!
