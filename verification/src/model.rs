//! The mathematical model of a container: its two slots as optional values.

use vstd::prelude::*;

verus! {

/// The contents of a container: each slot is either absent or holds a value.
pub ghost struct Slots<L, R> {
    pub left: Option<L>,
    pub right: Option<R>,
}

impl<L, R> Slots<L, R> {
    /// The contents with both slots absent.
    pub open spec fn empty() -> Self {
        Slots { left: None, right: None }
    }

    /// These contents with `value` in the left slot; the right slot is kept.
    pub open spec fn with_left(self, value: L) -> Self {
        Slots { left: Some(value), right: self.right }
    }

    /// These contents with `value` in the right slot; the left slot is kept.
    pub open spec fn with_right(self, value: R) -> Self {
        Slots { left: self.left, right: Some(value) }
    }

    /// These contents with `left` and `right` in their slots.
    pub open spec fn with_both(self, left: L, right: R) -> Self {
        Slots { left: Some(left), right: Some(right) }
    }

    /// Whether the filled slots are exactly those that the state `S` promises.
    pub open spec fn fits<S: crate::state::Occupancy>(self) -> bool {
        &&& self.left is Some <==> S::holds_left()
        &&& self.right is Some <==> S::holds_right()
    }
}

} // verus!
