//! Equality and order of points: by `x` first, then by `y`.

use crate::position::Pos;
use crate::wrapping::WrappingInt;
use core::cmp::Ordering;
use vstd::prelude::*;
use vstd::std_specs::cmp::{PartialEqSpec, PartialOrdSpec};

verus! {

/// How the integer `a` stands to the integer `b`.
pub open spec fn int_order(a: int, b: int) -> Option<Ordering> {
    if a < b {
        Some(Ordering::Less)
    } else if a > b {
        Some(Ordering::Greater)
    } else {
        Some(Ordering::Equal)
    }
}

/// How the pair `a` stands to the pair `b` where the first components decide,
/// and the second ones where the first are equal.
pub open spec fn lexicographic(a: (int, int), b: (int, int)) -> Option<Ordering> {
    if a.0 != b.0 {
        int_order(a.0, b.0)
    } else {
        int_order(a.1, b.1)
    }
}

impl<T: PartialEq> vstd::std_specs::cmp::PartialEqSpecImpl for Pos<T> {
    open spec fn obeys_eq_spec() -> bool {
        T::obeys_eq_spec()
    }

    open spec fn eq_spec(&self, other: &Self) -> bool {
        self.x.eq_spec(&other.x) && self.y.eq_spec(&other.y)
    }
}

impl<T: PartialEq> PartialEq for Pos<T> {
    /// Two points are equal where both coordinates are.
    fn eq(&self, other: &Self) -> (r: bool) {
        self.x == other.x && self.y == other.y
    }
}

impl<T: PartialOrd> vstd::std_specs::cmp::PartialOrdSpecImpl for Pos<T> {
    open spec fn obeys_partial_cmp_spec() -> bool {
        T::obeys_partial_cmp_spec()
    }

    open spec fn partial_cmp_spec(&self, other: &Self) -> Option<Ordering> {
        match self.x.partial_cmp_spec(&other.x) {
            Some(Ordering::Equal) => self.y.partial_cmp_spec(&other.y),
            decided => decided,
        }
    }
}

impl<T: PartialOrd> PartialOrd for Pos<T> {
    /// Points are ordered by `x`, and by `y` where `x` is equal.
    fn partial_cmp(&self, other: &Self) -> (r: Option<Ordering>) {
        match self.x.partial_cmp(&other.x) {
            Some(Ordering::Equal) => self.y.partial_cmp(&other.y),
            decided => decided,
        }
    }
}

/// Points of integers are equal where their pairs of integers are, and are
/// ordered as those pairs are, first components first.
pub proof fn lemma_order_is_lexicographic<T: WrappingInt>(a: Pos<T>, b: Pos<T>)
    ensures
        a.eq_spec(&b) <==> (a@ == b@),
        (a@ == b@) <==> (a == b),
        a.partial_cmp_spec(&b) == lexicographic(a@, b@),
        a.partial_cmp_spec(&b) == Some(Ordering::Less) <==> a@.0 < b@.0 || (a@.0 == b@.0 && a@.1
            < b@.1),
{
    T::lemma_model();
    T::lemma_ordered();
}

} // verus!
