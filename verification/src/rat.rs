//! Exact rational scalars.
//!
//! The host engine hands the widget floating-point coordinates; the verified
//! core works on exact rationals instead, so that every sizing and alignment
//! formula can be stated and proved as written. A `Rat` is a fraction of two
//! machine integers with a positive denominator; its mathematical value is
//! the ghost fraction [`Frac`].

use vstd::prelude::*;

verus! {

/// Largest magnitude allowed for the numerator and denominator of an input
/// coordinate. Inputs bounded by this keep every intermediate product of the
/// geometry formulas comfortably inside `i128`.
pub const COORD_LIMIT: i128 = 0x100_0000;

/// The mathematical value of a rational: a pair of unbounded integers.
/// `num / den` with `den > 0`; two fractions denote the same value exactly
/// when they are [`Frac::eqv`].
pub ghost struct Frac {
    pub num: int,
    pub den: int,
}

impl Frac {
    /// Rational equality by cross multiplication.
    pub open spec fn eqv(self, other: Frac) -> bool {
        self.num * other.den == other.num * self.den
    }

    /// The fraction `n / 1`.
    pub open spec fn from_int(n: int) -> Frac {
        Frac { num: n, den: 1 }
    }
}

/// An exact rational scalar: `num / den`, with `den > 0`.
#[derive(Clone, Copy)]
pub struct Rat {
    pub num: i128,
    pub den: i128,
}

impl View for Rat {
    type V = Frac;

    open spec fn view(&self) -> Frac {
        Frac { num: self.num as int, den: self.den as int }
    }
}

impl Rat {
    /// A denominator of zero or below denotes no rational at all.
    pub open spec fn wf(self) -> bool {
        self.den > 0
    }

    /// Well formed and small enough to enter the geometry formulas.
    pub open spec fn in_range(self) -> bool {
        &&& -COORD_LIMIT <= self.num <= COORD_LIMIT
        &&& 0 < self.den <= COORD_LIMIT
    }

    /// Builds `num / den`; rejects non-positive denominators and values too
    /// large for the geometry formulas.
    pub fn new(num: i64, den: i64) -> (r: Option<Rat>)
        ensures
            match r {
                Some(v) => {
                    &&& v.in_range()
                    &&& v@ == (Frac { num: num as int, den: den as int })
                    &&& -COORD_LIMIT <= num <= COORD_LIMIT
                    &&& 0 < den <= COORD_LIMIT
                },
                None => !(-COORD_LIMIT <= num <= COORD_LIMIT && 0 < den <= COORD_LIMIT),
            },
    {
        let limit: i64 = 0x100_0000;
        if -limit <= num && num <= limit && 0 < den && den <= limit {
            Some(Rat { num: num as i128, den: den as i128 })
        } else {
            None
        }
    }

    /// The whole number `n`.
    pub fn from_int(n: i16) -> (r: Rat)
        ensures
            r.in_range(),
            r@ == Frac::from_int(n as int),
    {
        Rat { num: n as i128, den: 1 }
    }

    /// True exactly when the value is zero.
    pub fn is_zero(&self) -> (r: bool)
        ensures
            r == (self.num == 0),
    {
        self.num == 0
    }
}

/// A two-dimensional rational vector.
#[derive(Clone, Copy)]
pub struct RatVec2 {
    pub x: Rat,
    pub y: Rat,
}

impl RatVec2 {
    pub open spec fn wf(self) -> bool {
        self.x.wf() && self.y.wf()
    }

    pub open spec fn in_range(self) -> bool {
        self.x.in_range() && self.y.in_range()
    }

    pub fn new(x: Rat, y: Rat) -> (r: RatVec2)
        ensures
            r.x == x,
            r.y == y,
    {
        RatVec2 { x, y }
    }
}

/// An axis-aligned rational rectangle.
#[derive(Clone, Copy)]
pub struct RatRect {
    pub min: RatVec2,
    pub max: RatVec2,
}

} // verus!
