use vstd::prelude::*;

verus! {

/// The endpoint at which a segment derived from `a -> b` starts: the end
/// point `b` when building from the end, the start point `a` otherwise.
/// Extending by an absolute angle and deflecting by a relative one share
/// this rule.
pub fn anchor<P>(a: P, b: P, from_end: bool) -> (r: P)
    ensures
        r == (if from_end { b } else { a }),
{
    if from_end {
        b
    } else {
        a
    }
}

} // verus!
