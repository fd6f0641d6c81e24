use vstd::prelude::*;

verus! {

/// The coordinate type: whole device units.
pub type Number = i64;

/// Whether the integer `value` can be held in a [`Number`].
pub open spec fn fits(value: int) -> bool {
    Number::MIN <= value <= Number::MAX
}

} // verus!
