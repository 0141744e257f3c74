//! A value handed on as a whole.
use vstd::prelude::*;

verus! {

/// Keeps a value in one piece: what is proved of the thing that holds it need
/// not look at its parts.
#[derive(Clone, Copy, PartialEq, Eq, Structural, Debug)]
pub struct Whole<T> {
    pub value: T,
}

pub open spec fn whole<T>(value: T) -> Whole<T> {
    Whole { value }
}

/// Hold `value` in one piece.
pub fn hold<T>(value: T) -> (held: Whole<T>)
    ensures
        held == whole(value),
{
    Whole { value }
}

} // verus!
