//! The trace that the demonstration entry functions emit: one line per call.

use vstd::prelude::*;

verus! {

pub open spec fn lines_view(v: Seq<String>) -> Seq<Seq<char>> {
    v.map_values(|s: String| s@)
}

/// A trace of the single line `s`.
pub fn line(s: &str) -> (r: Vec<String>)
    ensures
        lines_view(r@) == seq![s@],
{
    let mut r: Vec<String> = Vec::new();
    r.push(String::from_str(s));
    assert(lines_view(r@) =~= seq![s@]);
    r
}

/// Appends the trace `b` to the trace `a`.
pub fn extend(a: &mut Vec<String>, b: Vec<String>)
    ensures
        lines_view(final(a)@) == lines_view(old(a)@) + lines_view(b@),
{
    let mut b = b;
    let ghost bv = b@;
    a.append(&mut b);
    assert(lines_view(a@) =~= lines_view(old(a)@) + lines_view(bv));
}

} // verus!
