//! A model of scoped name visibility: a namespace tree whose entries carry a
//! visibility tag, a resolver for fully qualified paths, and per-scope import
//! tables of aliases and glob imports. Beside it stand the demonstration
//! entry functions whose calls the model describes; each returns the lines
//! that identify the calls it made.

pub mod namespace;
pub mod imports;
pub mod trace;
mod internal_module;
pub mod public_internal_module;
pub mod demonstrate_namespacing;

use vstd::prelude::*;
use crate::demonstrate_namespacing as dn;
use crate::trace::{extend, line, lines_view};

verus! {

/// Calls the public function of a namespace that is not public but shares
/// this function's parent, then that of a public namespace.
pub fn use_modules_internal() -> (lines: Vec<String>)
    ensures
        lines_view(lines@) == seq!["At `use_modules_internal()`."@]
            + internal_module::public_fn_trace() + public_internal_module::public_fn_trace(),
{
    let mut lines = line("At `use_modules_internal()`.");
    extend(&mut lines, internal_module::a_public_module_fn());
    extend(&mut lines, public_internal_module::a_public_module_fn());
    lines
}

/// Calls a function through an alias of its namespace.
pub fn demonstrate_use_inside_function() -> (lines: Vec<String>)
    ensures
        lines_view(lines@) == seq!["At `demonstrate_use_inside_function()`."@]
            + dn::globbed_calls_trace(),
{
    let mut lines = line("At `demonstrate_use_inside_function()`.");
    extend(&mut lines, dn::demonstrate_globbed_calls());
    lines
}

} // verus!
pub mod program;
