//! What holds of the quarter-turns, whatever the point.

use crate::position::Pos;
use crate::wrapping::{lemma_wrap_bounds, lemma_wrap_inside, lemma_wrap_neg_wrapped, wrap_in, WrappingInt};
use vstd::prelude::*;

verus! {

/// Negating a value twice, wrapping each time, gives the value back.
pub proof fn lemma_neg_twice<T: WrappingInt>(v: T)
    ensures
        T::from_int(wrap_in::<T>(-T::from_int(wrap_in::<T>(-v.as_int())).as_int())) == v,
{
    T::lemma_model();
    let lo = T::lower();
    let m = T::modulus();
    lemma_wrap_bounds(-v.as_int(), lo, m);
    lemma_wrap_neg_wrapped(-v.as_int(), lo, m);
    lemma_wrap_inside(v.as_int(), lo, m);
}

/// Four quarter-turns clockwise bring every point back to where it was.
pub proof fn lemma_four_clockwise_turns<T: WrappingInt>(p: Pos<T>)
    ensures
        p.clockwise().clockwise().clockwise().clockwise() == p,
{
    lemma_neg_twice(p.x);
    lemma_neg_twice(p.y);
}

/// Four quarter-turns counterclockwise bring every point back to where it was.
pub proof fn lemma_four_counterclockwise_turns<T: WrappingInt>(p: Pos<T>)
    ensures
        p.counterclockwise().counterclockwise().counterclockwise().counterclockwise() == p,
{
    lemma_neg_twice(p.x);
    lemma_neg_twice(p.y);
}

/// A quarter-turn one way undoes a quarter-turn the other way.
pub proof fn lemma_turns_undo_each_other<T: WrappingInt>(p: Pos<T>)
    ensures
        p.clockwise().counterclockwise() == p,
        p.counterclockwise().clockwise() == p,
{
    lemma_neg_twice(p.x);
    lemma_neg_twice(p.y);
}

} // verus!
