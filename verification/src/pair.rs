//! The container and its transitions.

use crate::model::Slots;
use crate::state::{HasBoth, HasLeft, HasRight, Nothing, Occupancy};
use std::marker::PhantomData;
use vstd::prelude::*;

verus! {

/// A container for a left and a right value, tagged with the state that says
/// which of them it holds.
#[derive(Debug)]
pub struct OneOrBoth<T1, T2, State: Occupancy = Nothing> {
    left: Option<T1>,
    right: Option<T2>,
    state: PhantomData<State>,
}

impl<T1, T2, State: Occupancy> View for OneOrBoth<T1, T2, State> {
    type V = Slots<T1, T2>;

    closed spec fn view(&self) -> Slots<T1, T2> {
        Slots { left: self.left, right: self.right }
    }
}

impl<T1, T2, State: Occupancy> OneOrBoth<T1, T2, State> {
    /// The state tag tells the truth about the slots.
    #[verifier::type_invariant]
    pub closed spec fn inv(self) -> bool {
        self@.fits::<State>()
    }
}

impl<T1: Clone, T2: Clone, State: Occupancy> Clone for OneOrBoth<T1, T2, State> {
    /// A container in the same state whose values are clones of this one's.
    fn clone(&self) -> (r: Self)
        ensures
            self@.fits::<State>(),
            r@.fits::<State>(),
            self@.left matches Some(a) ==> cloned::<T1>(a, r@.left.unwrap()),
            self@.right matches Some(b) ==> cloned::<T2>(b, r@.right.unwrap()),
    {
        proof {
            use_type_invariant(self);
        }
        OneOrBoth { left: self.left.clone(), right: self.right.clone(), state: PhantomData }
    }
}

impl<T1, T2> OneOrBoth<T1, T2> {
    /// An empty container.
    pub fn new() -> (r: Self)
        ensures
            r@ == Slots::<T1, T2>::empty(),
    {
        Self { left: None, right: None, state: PhantomData }
    }
}

impl<T1, T2> OneOrBoth<T1, T2, Nothing> {
    /// Fills both slots in one step.
    pub fn insert_both(self, left: T1, right: T2) -> (r: OneOrBoth<T1, T2, HasBoth>)
        ensures
            self@ == Slots::<T1, T2>::empty(),
            r@ == self@.with_both(left, right),
    {
        proof {
            use_type_invariant(&self);
        }
        OneOrBoth { left: Some(left), right: Some(right), state: PhantomData }
    }

    /// Fills the left slot; the right slot stays absent.
    pub fn insert_left(self, left: T1) -> (r: OneOrBoth<T1, T2, HasLeft>)
        ensures
            self@ == Slots::<T1, T2>::empty(),
            r@ == self@.with_left(left),
    {
        proof {
            use_type_invariant(&self);
        }
        OneOrBoth { left: Some(left), right: self.right, state: PhantomData }
    }

    /// Fills the right slot; the left slot stays absent.
    pub fn insert_right(self, right: T2) -> (r: OneOrBoth<T1, T2, HasRight>)
        ensures
            self@ == Slots::<T1, T2>::empty(),
            r@ == self@.with_right(right),
    {
        proof {
            use_type_invariant(&self);
        }
        OneOrBoth { left: self.left, right: Some(right), state: PhantomData }
    }
}

impl<T1, T2> OneOrBoth<T1, T2, HasLeft> {
    /// Takes the left value out.
    pub fn unwrap_left(self) -> (value: T1)
        ensures
            self@.fits::<HasLeft>(),
            self@.left == Some(value),
    {
        proof {
            use_type_invariant(&self);
        }
        self.left.unwrap()
    }

    /// Fills the right slot; the left value is carried over.
    pub fn insert_right(self, right: T2) -> (r: OneOrBoth<T1, T2, HasBoth>)
        ensures
            self@.fits::<HasLeft>(),
            r@ == self@.with_right(right),
    {
        proof {
            use_type_invariant(&self);
        }
        OneOrBoth { left: self.left, right: Some(right), state: PhantomData }
    }
}

impl<T1, T2> OneOrBoth<T1, T2, HasRight> {
    /// Takes the right value out.
    pub fn unwrap_right(self) -> (value: T2)
        ensures
            self@.fits::<HasRight>(),
            self@.right == Some(value),
    {
        proof {
            use_type_invariant(&self);
        }
        self.right.unwrap()
    }

    /// Fills the left slot; the right value is carried over.
    pub fn insert_left(self, left: T1) -> (r: OneOrBoth<T1, T2, HasBoth>)
        ensures
            self@.fits::<HasRight>(),
            r@ == self@.with_left(left),
    {
        proof {
            use_type_invariant(&self);
        }
        OneOrBoth { left: Some(left), right: self.right, state: PhantomData }
    }
}

impl<T1, T2> OneOrBoth<T1, T2, HasBoth> {
    /// Takes the left value out.
    pub fn unwrap_left(self) -> (value: T1)
        ensures
            self@.fits::<HasBoth>(),
            self@.left == Some(value),
    {
        proof {
            use_type_invariant(&self);
        }
        self.left.unwrap()
    }

    /// Takes the right value out.
    pub fn unwrap_right(self) -> (value: T2)
        ensures
            self@.fits::<HasBoth>(),
            self@.right == Some(value),
    {
        proof {
            use_type_invariant(&self);
        }
        self.right.unwrap()
    }

    /// Takes both values out, the left one first.
    pub fn unwrap_both(self) -> (values: (T1, T2))
        ensures
            self@.fits::<HasBoth>(),
            self@.left == Some(values.0),
            self@.right == Some(values.1),
    {
        proof {
            use_type_invariant(&self);
        }
        (self.left.unwrap(), self.right.unwrap())
    }
}

} // verus!
