use vstd::prelude::*;

verus! {

/// Placement of a point relative to the infinite line through a directed
/// segment.
#[derive(Clone, Copy, Debug, PartialEq, Eq, Structural)]
pub enum Side {
    Left,
    Right,
    On,
}

/// The classification of an orientation value. `on_line` holds when the
/// value equals zero within the tolerance; `positive` holds when it is
/// above zero. A positive orientation of `(point, a, b)` places the point
/// on the right of `a -> b`.
pub open spec fn side_of_orientation(on_line: bool, positive: bool) -> Side {
    if on_line {
        Side::On
    } else if positive {
        Side::Right
    } else {
        Side::Left
    }
}

impl Side {
    /// Classifies an orientation value from its two comparisons: with zero
    /// under the tolerance, and with zero exactly.
    pub fn from_orientation(on_line: bool, positive: bool) -> (r: Side)
        ensures
            r == side_of_orientation(on_line, positive),
    {
        if on_line {
            Side::On
        } else if positive {
            Side::Right
        } else {
            Side::Left
        }
    }

    /// Whether two classifications name the same side.
    pub fn is_same_side(&self, other: &Side) -> (r: bool)
        ensures
            r == (*self == *other),
    {
        *self == *other
    }
}

/// The tolerance of the classification: a value within the tolerance of
/// zero is `On` whatever its sign, and a value outside it is `Right` when
/// positive and `Left` when negative, so the two sides of the line are
/// never confused.
pub proof fn lemma_side_tolerance(positive: bool)
    ensures
        side_of_orientation(true, positive) == Side::On,
        side_of_orientation(false, true) == Side::Right,
        side_of_orientation(false, false) == Side::Left,
        side_of_orientation(false, true) != side_of_orientation(false, false),
{
}

} // verus!
