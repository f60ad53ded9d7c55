//! Laws of the container, stated over its model.
//!
//! Each executable operation is specified by the model operation of the same
//! shape, so what is proved here of the model holds of every run of the code.

use crate::model::Slots;
use crate::state::{HasBoth, HasLeft, HasRight, Nothing};
use vstd::prelude::*;

verus! {

/// Only the empty contents fit the state `Nothing`.
pub proof fn lemma_nothing_is_empty<L, R>(s: Slots<L, R>)
    ensures
        s.fits::<Nothing>() <==> s == Slots::<L, R>::empty(),
{
}

/// Every edge of the state machine leads to contents that fit its target
/// state: a filled slot is never emptied, and exactly the inserted slots are
/// added.
pub proof fn lemma_transitions_fit<L, R>(s: Slots<L, R>, a: L, b: R)
    ensures
        s.fits::<Nothing>() ==> s.with_left(a).fits::<HasLeft>(),
        s.fits::<Nothing>() ==> s.with_right(b).fits::<HasRight>(),
        s.fits::<Nothing>() ==> s.with_both(a, b).fits::<HasBoth>(),
        s.fits::<HasLeft>() ==> s.with_right(b).fits::<HasBoth>() && s.with_right(b).left == s.left,
        s.fits::<HasRight>() ==> s.with_left(a).fits::<HasBoth>() && s.with_left(a).right
            == s.right,
{
}

/// A left value inserted into an empty container is the one read back, and
/// the right slot is still absent.
pub proof fn lemma_insert_left_then_unwrap<L, R>(a: L)
    ensures
        Slots::<L, R>::empty().with_left(a).left == Some(a),
        Slots::<L, R>::empty().with_left(a).right == None::<R>,
{
}

/// A right value inserted into an empty container is the one read back, and
/// the left slot is still absent.
pub proof fn lemma_insert_right_then_unwrap<L, R>(b: R)
    ensures
        Slots::<L, R>::empty().with_right(b).right == Some(b),
        Slots::<L, R>::empty().with_right(b).left == None::<L>,
{
}

/// Both values inserted at once into an empty container are the ones read
/// back, together or one at a time.
pub proof fn lemma_insert_both_then_unwrap<L, R>(a: L, b: R)
    ensures
        Slots::<L, R>::empty().with_both(a, b).left == Some(a),
        Slots::<L, R>::empty().with_both(a, b).right == Some(b),
{
}

/// Filling the two slots one after the other, in either order, gives the
/// same contents as filling both at once.
pub proof fn lemma_insertion_order_is_irrelevant<L, R>(a: L, b: R)
    ensures
        Slots::<L, R>::empty().with_left(a).with_right(b) == Slots::<L, R>::empty().with_both(
            a,
            b,
        ),
        Slots::<L, R>::empty().with_right(b).with_left(a) == Slots::<L, R>::empty().with_both(
            a,
            b,
        ),
{
}

} // verus!
