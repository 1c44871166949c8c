//! Fixed-width integers as an interval of the mathematical integers, with
//! arithmetic that wraps around at the interval's ends.

use crate::decimal::decimal;
use crate::order::int_order;
use vstd::arithmetic::div_mod::{
    lemma_fundamental_div_mod, lemma_mod_bound, lemma_mod_multiples_vanish, lemma_small_mod,
};
use vstd::prelude::*;
use vstd::std_specs::cmp::{PartialEqSpec, PartialOrdSpec};

verus! {

/// The one integer in `lo .. lo + m` that differs from `v` by a multiple of `m`.
pub open spec fn wrap(v: int, lo: int, m: int) -> int {
    lo + (v - lo) % m
}

/// `wrap` lands in the interval `lo .. lo + m`.
pub proof fn lemma_wrap_bounds(v: int, lo: int, m: int)
    requires
        m > 0,
    ensures
        lo <= wrap(v, lo, m) < lo + m,
{
    lemma_mod_bound(v - lo, m);
}

/// `wrap` leaves the integers of the interval as they are.
pub proof fn lemma_wrap_inside(v: int, lo: int, m: int)
    requires
        m > 0,
        lo <= v < lo + m,
    ensures
        wrap(v, lo, m) == v,
{
    lemma_small_mod((v - lo) as nat, m as nat);
}

/// Integers that differ by a multiple of `m` wrap to the same integer.
pub proof fn lemma_wrap_shift(v: int, k: int, lo: int, m: int)
    requires
        m > 0,
    ensures
        wrap(v + m * k, lo, m) == wrap(v, lo, m),
{
    lemma_mod_multiples_vanish(k, v - lo, m);
}

/// An integer that lies less than `m` outside the interval comes back into it
/// by one step of `m`.
pub proof fn lemma_wrap_once(v: int, lo: int, m: int)
    requires
        m > 0,
        lo - m <= v < lo + 2 * m,
    ensures
        wrap(v, lo, m) == if v < lo {
            v + m
        } else if v >= lo + m {
            v - m
        } else {
            v
        },
{
    if v < lo {
        lemma_wrap_shift(v, 1, lo, m);
        lemma_wrap_inside(v + m, lo, m);
    } else if v >= lo + m {
        lemma_wrap_shift(v, -1, lo, m);
        lemma_wrap_inside(v - m, lo, m);
    } else {
        lemma_wrap_inside(v, lo, m);
    }
}

/// Where the interval holds zero, `wrap` gives the remainder of the division
/// by `m`, less `m` where that remainder lies above the interval.
pub proof fn lemma_wrap_of_remainder(v: int, lo: int, m: int)
    requires
        m > 0,
        lo <= 0 < lo + m,
    ensures
        wrap(v, lo, m) == if v % m >= lo + m {
            v % m - m
        } else {
            v % m
        },
{
    lemma_fundamental_div_mod(v, m);
    lemma_mod_bound(v, m);
    lemma_wrap_shift(v % m, v / m, lo, m);
    lemma_wrap_once(v % m, lo, m);
}

/// `wrap` moves an integer by a multiple of `m`.
pub proof fn lemma_wrap_moves_by_multiple(v: int, lo: int, m: int)
    requires
        m > 0,
    ensures
        wrap(v, lo, m) == v - m * ((v - lo) / m),
{
    lemma_fundamental_div_mod(v - lo, m);
}

/// The wrapped negation does not change when the operand is wrapped first.
pub proof fn lemma_wrap_neg_wrapped(a: int, lo: int, m: int)
    requires
        m > 0,
    ensures
        wrap(-wrap(a, lo, m), lo, m) == wrap(-a, lo, m),
{
    lemma_wrap_moves_by_multiple(a, lo, m);
    lemma_wrap_shift(-a, (a - lo) / m, lo, m);
}

/// A fixed-width integer type with wraparound arithmetic.
///
/// Its values stand one for one for the `modulus()` integers from `lower()`
/// upwards. Each operation gives the value that stands for the wrapped
/// mathematical result, and the values are ordered as their integers are.
pub trait WrappingInt: Copy + PartialOrd {
    /// The smallest integer that the type holds.
    spec fn lower() -> int;

    /// The number of values of the type.
    spec fn modulus() -> int;

    /// The integer that a value stands for.
    spec fn as_int(self) -> int;

    /// The value that stands for `v`, where the type holds `v`.
    spec fn from_int(v: int) -> Self;

    /// The values and the integers from `lower()` up to, but not including,
    /// `lower() + modulus()` correspond one to one, and zero is among them.
    proof fn lemma_model()
        ensures
            Self::lower() <= 0 < Self::lower() + Self::modulus(),
            forall|x: Self|
                Self::lower() <= #[trigger] x.as_int() < Self::lower() + Self::modulus(),
            forall|x: Self| Self::from_int(#[trigger] x.as_int()) == x,
            forall|v: int|
                Self::lower() <= v < Self::lower() + Self::modulus() ==> (#[trigger] Self::from_int(
                    v,
                )).as_int() == v,
    ;

    /// `==` and `<` on the values are those of their integers.
    proof fn lemma_ordered()
        ensures
            Self::obeys_eq_spec(),
            Self::obeys_partial_cmp_spec(),
            forall|a: Self, b: Self| #[trigger] a.eq_spec(&b) <==> a.as_int() == b.as_int(),
            forall|a: Self, b: Self| #[trigger]
                a.partial_cmp_spec(&b) == int_order(a.as_int(), b.as_int()),
    ;

    /// Zero.
    fn zero() -> (r: Self)
        ensures
            r == Self::from_int(0),
    ;

    /// Addition modulo the size of the type.
    fn wrapping_add(&self, v: &Self) -> (r: Self)
        ensures
            r == Self::from_int(wrap(self.as_int() + v.as_int(), Self::lower(), Self::modulus())),
    ;

    /// Subtraction modulo the size of the type.
    fn wrapping_sub(&self, v: &Self) -> (r: Self)
        ensures
            r == Self::from_int(wrap(self.as_int() - v.as_int(), Self::lower(), Self::modulus())),
    ;

    /// Multiplication modulo the size of the type.
    fn wrapping_mul(&self, v: &Self) -> (r: Self)
        ensures
            r == Self::from_int(wrap(self.as_int() * v.as_int(), Self::lower(), Self::modulus())),
    ;

    /// Negation modulo the size of the type.
    fn wrapping_neg(&self) -> (r: Self)
        ensures
            r == Self::from_int(wrap(-self.as_int(), Self::lower(), Self::modulus())),
    ;

    /// The value in decimal notation.
    fn to_decimal(&self) -> (s: String)
        ensures
            s@ == decimal(self.as_int()),
    ;
}

/// `v` wrapped into the integers that `T` holds.
pub open spec fn wrap_in<T: WrappingInt>(v: int) -> int {
    wrap(v, T::lower(), T::modulus())
}

} // verus!
