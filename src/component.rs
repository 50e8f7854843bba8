use vstd::prelude::*;

verus! {

/// A coordinate component of a 2D vector.
#[derive(Clone, Copy, Debug, PartialEq, Eq, Structural)]
pub enum Component {
    X,
    Y,
}

/// The component that an index names: `0` is `x` and `1` is `y`. No other
/// index names a component, and asking for one is a programming error.
pub fn component_of_index(i: usize) -> (r: Component)
    requires
        i < 2,
    ensures
        i == 0 ==> r == Component::X,
        i == 1 ==> r == Component::Y,
{
    if i == 0 {
        Component::X
    } else {
        Component::Y
    }
}

} // verus!
