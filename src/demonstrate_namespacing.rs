//! Calls made through an import of a public namespace's items and through an
//! alias of a namespace.

use vstd::prelude::*;
use crate::internal_module as im;
use crate::public_internal_module::a_public_module_fn;
use crate::trace::{extend, line, lines_view};

verus! {

/// The trace of `demonstrate_globbed_calls`.
pub open spec fn globbed_calls_trace() -> Seq<Seq<char>> {
    seq!["At `demonstrate_namespacing::demonstrate_globbed_calls()`."@]
        + crate::public_internal_module::public_fn_trace()
}

/// Calls an imported function by its short name.
pub fn demonstrate_globbed_calls() -> (lines: Vec<String>)
    ensures
        lines_view(lines@) == globbed_calls_trace(),
{
    let mut lines = line("At `demonstrate_namespacing::demonstrate_globbed_calls()`.");
    extend(&mut lines, a_public_module_fn());
    lines
}

/// Calls a function through an alias of its namespace.
pub fn demonstrate_aliased_calls() -> (lines: Vec<String>)
    ensures
        lines_view(lines@) == seq!["At `demonstrate_namespacing::demonstrate_aliased_calls`."@]
            + im::public_fn_trace(),
{
    let mut lines = line("At `demonstrate_namespacing::demonstrate_aliased_calls`.");
    extend(&mut lines, im::a_public_module_fn());
    lines
}

} // verus!
