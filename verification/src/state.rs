//! The four state tags and what each one promises about the slots.

use vstd::prelude::*;

verus! {

/// What a state tag promises: for each slot, whether it is filled.
pub trait Occupancy {
    /// Whether the left slot is filled in this state.
    spec fn holds_left() -> bool;

    /// Whether the right slot is filled in this state.
    spec fn holds_right() -> bool;
}

/// Neither slot is filled.
#[derive(Debug)]
pub struct Nothing;

/// Only the left slot is filled.
#[derive(Debug)]
pub struct HasLeft;

/// Only the right slot is filled.
#[derive(Debug)]
pub struct HasRight;

/// Both slots are filled.
#[derive(Debug)]
pub struct HasBoth;

impl Clone for Nothing {
    fn clone(&self) -> (r: Self)
        ensures
            r == *self,
    {
        Nothing
    }
}

impl Occupancy for Nothing {
    open spec fn holds_left() -> bool {
        false
    }

    open spec fn holds_right() -> bool {
        false
    }
}

impl Clone for HasLeft {
    fn clone(&self) -> (r: Self)
        ensures
            r == *self,
    {
        HasLeft
    }
}

impl Occupancy for HasLeft {
    open spec fn holds_left() -> bool {
        true
    }

    open spec fn holds_right() -> bool {
        false
    }
}

impl Clone for HasRight {
    fn clone(&self) -> (r: Self)
        ensures
            r == *self,
    {
        HasRight
    }
}

impl Occupancy for HasRight {
    open spec fn holds_left() -> bool {
        false
    }

    open spec fn holds_right() -> bool {
        true
    }
}

impl Clone for HasBoth {
    fn clone(&self) -> (r: Self)
        ensures
            r == *self,
    {
        HasBoth
    }
}

impl Occupancy for HasBoth {
    open spec fn holds_left() -> bool {
        true
    }

    open spec fn holds_right() -> bool {
        true
    }
}

} // verus!
