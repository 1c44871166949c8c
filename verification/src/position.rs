//! A point of the plane with integer coordinates, and what can be done with it:
//! wrapping arithmetic, quarter-turns about the origin, neighbours at a given
//! distance, the step that a direction glyph stands for, and the point as text.

use crate::decimal::decimal;
use crate::wrapping::{wrap_in, WrappingInt};
use core::ops::{Add, Mul, Neg, Sub};
use vstd::prelude::*;
use vstd::std_specs::convert::FromSpecImpl;
use vstd::std_specs::ops::{AddSpecImpl, MulSpecImpl, NegSpecImpl, SubSpecImpl};
use vstd::string::StringExecFns;

verus! {

/// A position in a 2D space.
///
/// Over a [`WrappingInt`] the point is seen as the pair of integers that its
/// coordinates stand for, and all its arithmetic wraps around at the bounds of
/// the coordinate type: no operation fails, whatever the operands.
#[derive(Copy, Debug, Eq, Ord, Hash)]
pub struct Pos<T> {
    /// The horizontal coordinate.
    pub x: T,
    /// The vertical coordinate.
    pub y: T,
}

impl<T: Copy> Clone for Pos<T> {
    fn clone(&self) -> (r: Self)
        ensures
            r == *self,
    {
        *self
    }
}

impl<T: WrappingInt> View for Pos<T> {
    type V = (int, int);

    /// The pair of integers that the coordinates stand for.
    open spec fn view(&self) -> (int, int) {
        (self.x.as_int(), self.y.as_int())
    }
}

impl<T: WrappingInt> Default for Pos<T> {
    /// The origin.
    fn default() -> (r: Self)
        ensures
            r == Self::at(0, 0),
            r@ == (0int, 0int),
    {
        proof {
            T::lemma_model();
        }
        Self { x: T::zero(), y: T::zero() }
    }
}

impl<T: WrappingInt> AddSpecImpl for Pos<T> {
    open spec fn obeys_add_spec() -> bool {
        true
    }

    open spec fn add_req(self, rhs: Self) -> bool {
        true
    }

    open spec fn add_spec(self, rhs: Self) -> Self {
        Self::at(wrap_in::<T>(self@.0 + rhs@.0), wrap_in::<T>(self@.1 + rhs@.1))
    }
}

impl<T: WrappingInt> Add for Pos<T> {
    type Output = Self;

    /// The sum, coordinate by coordinate, wrapped.
    fn add(self, rhs: Self) -> (r: Self)
        ensures
            r@ == (wrap_in::<T>(self@.0 + rhs@.0), wrap_in::<T>(self@.1 + rhs@.1)),
    {
        proof {
            T::lemma_model();
        }
        Self { x: self.x.wrapping_add(&rhs.x), y: self.y.wrapping_add(&rhs.y) }
    }
}

impl<T: WrappingInt> SubSpecImpl for Pos<T> {
    open spec fn obeys_sub_spec() -> bool {
        true
    }

    open spec fn sub_req(self, rhs: Self) -> bool {
        true
    }

    open spec fn sub_spec(self, rhs: Self) -> Self {
        Self::at(wrap_in::<T>(self@.0 - rhs@.0), wrap_in::<T>(self@.1 - rhs@.1))
    }
}

impl<T: WrappingInt> Sub for Pos<T> {
    type Output = Self;

    /// The difference, coordinate by coordinate, wrapped.
    fn sub(self, rhs: Self) -> (r: Self)
        ensures
            r@ == (wrap_in::<T>(self@.0 - rhs@.0), wrap_in::<T>(self@.1 - rhs@.1)),
    {
        proof {
            T::lemma_model();
        }
        Self { x: self.x.wrapping_sub(&rhs.x), y: self.y.wrapping_sub(&rhs.y) }
    }
}

impl<T: WrappingInt> MulSpecImpl<T> for Pos<T> {
    open spec fn obeys_mul_spec() -> bool {
        true
    }

    open spec fn mul_req(self, rhs: T) -> bool {
        true
    }

    open spec fn mul_spec(self, rhs: T) -> Self {
        Self::at(wrap_in::<T>(self@.0 * rhs.as_int()), wrap_in::<T>(self@.1 * rhs.as_int()))
    }
}

impl<T: WrappingInt> Mul<T> for Pos<T> {
    type Output = Self;

    /// Each coordinate times `rhs`, wrapped.
    fn mul(self, rhs: T) -> (r: Self)
        ensures
            r@ == (wrap_in::<T>(self@.0 * rhs.as_int()), wrap_in::<T>(self@.1 * rhs.as_int())),
    {
        proof {
            T::lemma_model();
        }
        Self { x: self.x.wrapping_mul(&rhs), y: self.y.wrapping_mul(&rhs) }
    }
}

impl<T: WrappingInt> NegSpecImpl for Pos<T> {
    open spec fn obeys_neg_spec() -> bool {
        true
    }

    open spec fn neg_req(self) -> bool {
        true
    }

    open spec fn neg_spec(self) -> Self {
        Self::at(wrap_in::<T>(-self@.0), wrap_in::<T>(-self@.1))
    }
}

impl<T: WrappingInt> Neg for Pos<T> {
    type Output = Self;

    /// Each coordinate negated, wrapped: the smallest value of a signed type
    /// is its own negation.
    ///
    /// Verified callers write `p.neg()`; Verus does not yet take the prefix
    /// `-` before a value that is no primitive integer.
    fn neg(self) -> (r: Self)
        ensures
            r@ == (wrap_in::<T>(-self@.0), wrap_in::<T>(-self@.1)),
    {
        proof {
            T::lemma_model();
        }
        Self { x: self.x.wrapping_neg(), y: self.y.wrapping_neg() }
    }
}

/// The byte `<`, which stands for a step west.
pub const WEST: u8 = 0x3c;

/// The byte `>`, which stands for a step east.
pub const EAST: u8 = 0x3e;

/// The byte `v`, which stands for a step south.
pub const SOUTH: u8 = 0x76;

/// The byte `V`, which stands for a step south as well.
pub const SOUTH_CAPITAL: u8 = 0x56;

/// The step of one unit that a direction glyph stands for, on a plane whose
/// `y` grows downwards: `<` is west, `>` east, `v` and `V` south. Every other
/// byte, `^` among them, is north.
pub open spec fn step_of(glyph: u8) -> (int, int) {
    if glyph == WEST {
        (-1, 0)
    } else if glyph == EAST {
        (1, 0)
    } else if glyph == SOUTH || glyph == SOUTH_CAPITAL {
        (0, 1)
    } else {
        (0, -1)
    }
}

impl FromSpecImpl<u8> for Pos<i8> {
    open spec fn obeys_from_spec() -> bool {
        true
    }

    open spec fn from_spec(value: u8) -> Self {
        Self::at(step_of(value).0, step_of(value).1)
    }
}

impl From<u8> for Pos<i8> {
    /// The step that a direction glyph stands for. No byte is refused: one
    /// that is no glyph is a step north.
    fn from(value: u8) -> (r: Self)
        ensures
            r@ == step_of(value),
    {
        if value == WEST {
            Self { x: -1, y: 0 }
        } else if value == EAST {
            Self { x: 1, y: 0 }
        } else if value == SOUTH || value == SOUTH_CAPITAL {
            Self { x: 0, y: 1 }
        } else {
            Self { x: 0, y: -1 }
        }
    }
}

impl<T: WrappingInt> Pos<T> {
    /// The point whose coordinates stand for the integers `x` and `y`.
    pub open spec fn at(x: int, y: int) -> Self {
        Pos { x: T::from_int(x), y: T::from_int(y) }
    }

    /// The point a quarter-turn clockwise about the origin.
    pub open spec fn spec_clockwise(&self) -> Self {
        Pos { x: self.y, y: T::from_int(wrap_in::<T>(-self@.0)) }
    }

    /// The point a quarter-turn counterclockwise about the origin.
    pub open spec fn spec_counterclockwise(&self) -> Self {
        Pos { x: T::from_int(wrap_in::<T>(-self@.1)), y: self.x }
    }

    /// The text of the point: `(x, y)`, each coordinate in decimal notation.
    pub open spec fn shown(self) -> Seq<char> {
        seq!['('] + decimal(self@.0) + seq![',', ' '] + decimal(self@.1) + seq![')']
    }

    /// The four neighbours at distance `dist` along the axes, in this order:
    /// `(x, y + dist)`, `(x, y - dist)`, `(x + dist, y)`, `(x - dist, y)`.
    pub fn crosses(&self, dist: T) -> (r: [Self; 4])
        ensures
            r[0]@ == (self@.0, wrap_in::<T>(self@.1 + dist.as_int())),
            r[1]@ == (self@.0, wrap_in::<T>(self@.1 - dist.as_int())),
            r[2]@ == (wrap_in::<T>(self@.0 + dist.as_int()), self@.1),
            r[3]@ == (wrap_in::<T>(self@.0 - dist.as_int()), self@.1),
    {
        proof {
            T::lemma_model();
        }
        [
            Self { x: self.x, y: self.y.wrapping_add(&dist) },
            Self { x: self.x, y: self.y.wrapping_sub(&dist) },
            Self { x: self.x.wrapping_add(&dist), y: self.y },
            Self { x: self.x.wrapping_sub(&dist), y: self.y },
        ]
    }

    /// The four neighbours at distance `dist` along both diagonals, in this
    /// order: `(x + dist, y + dist)`, `(x - dist, y + dist)`,
    /// `(x + dist, y - dist)`, `(x - dist, y - dist)`.
    pub fn diagonals(&self, dist: T) -> (r: [Self; 4])
        ensures
            r[0]@ == (wrap_in::<T>(self@.0 + dist.as_int()), wrap_in::<T>(self@.1 + dist.as_int())),
            r[1]@ == (wrap_in::<T>(self@.0 - dist.as_int()), wrap_in::<T>(self@.1 + dist.as_int())),
            r[2]@ == (wrap_in::<T>(self@.0 + dist.as_int()), wrap_in::<T>(self@.1 - dist.as_int())),
            r[3]@ == (wrap_in::<T>(self@.0 - dist.as_int()), wrap_in::<T>(self@.1 - dist.as_int())),
    {
        proof {
            T::lemma_model();
        }
        [
            Self { x: self.x.wrapping_add(&dist), y: self.y.wrapping_add(&dist) },
            Self { x: self.x.wrapping_sub(&dist), y: self.y.wrapping_add(&dist) },
            Self { x: self.x.wrapping_add(&dist), y: self.y.wrapping_sub(&dist) },
            Self { x: self.x.wrapping_sub(&dist), y: self.y.wrapping_sub(&dist) },
        ]
    }

    /// The point turned 90 degrees clockwise about the origin, where `y`
    /// grows downwards: `(y, -x)`.
    #[verifier::when_used_as_spec(spec_clockwise)]
    pub fn clockwise(&self) -> (r: Self)
        ensures
            r == self.spec_clockwise(),
            r@ == (self@.1, wrap_in::<T>(-self@.0)),
    {
        proof {
            T::lemma_model();
        }
        Self { x: self.y, y: self.x.wrapping_neg() }
    }

    /// The point turned 90 degrees counterclockwise about the origin, where
    /// `y` grows downwards: `(-y, x)`.
    #[verifier::when_used_as_spec(spec_counterclockwise)]
    pub fn counterclockwise(&self) -> (r: Self)
        ensures
            r == self.spec_counterclockwise(),
            r@ == (wrap_in::<T>(-self@.1), self@.0),
    {
        proof {
            T::lemma_model();
        }
        Self { x: self.y.wrapping_neg(), y: self.x }
    }

    /// The point as text: `(x, y)`.
    pub fn to_string(&self) -> (s: String)
        ensures
            s@ == self.shown(),
    {
        proof {
            reveal_strlit("(");
            reveal_strlit(", ");
            reveal_strlit(")");
        }
        let mut s = String::new();
        s.append("(");
        s.append(self.x.to_decimal().as_str());
        s.append(", ");
        s.append(self.y.to_decimal().as_str());
        s.append(")");
        s
    }
}

} // verus!
