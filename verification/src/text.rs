//! What it means for a text to show in a line.

use vstd::prelude::*;

verus! {

/// Whether `part` stands in `whole` from position `at` on.
pub open spec fn found_at(part: Seq<char>, whole: Seq<char>, at: int) -> bool {
    &&& 0 <= at
    &&& at + part.len() <= whole.len()
    &&& whole.subrange(at, at + part.len()) == part
}

/// Whether `part` stands somewhere in `whole`, unbroken.
pub open spec fn occurs_in(part: Seq<char>, whole: Seq<char>) -> bool {
    exists|at: int| found_at(part, whole, at)
}

/// A text occurs in whatever is written around it.
pub proof fn occurs_between(before: Seq<char>, part: Seq<char>, after: Seq<char>)
    ensures
        occurs_in(part, before + part + after),
{
    let whole = before + part + after;
    let at = before.len() as int;
    assert(whole.subrange(at, at + part.len()) =~= part);
    assert(found_at(part, whole, at));
}

} // verus!
