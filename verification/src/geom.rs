//! Integer geometry: points, sizes and exact width fractions.

use vstd::prelude::*;

verus! {

/// Bound on the coordinates a well-formed layout works with. Keeping every
/// coordinate within this bound lets each geometric computation be proved
/// free of `i64` overflow.
pub const COORD_LIMIT: i64 = 1_000_000_000;

/// Bound on the numerator and denominator of a width fraction.
pub const RATIO_LIMIT: u32 = 1_000_000;

/// A point or a size on the screen, in integer layout units.
#[derive(Clone, Copy, Debug, PartialEq, Eq, Structural)]
pub struct Vec2 {
    pub x: i64,
    pub y: i64,
}

/// Both coordinates lie within the layout bound.
pub open spec fn vec2_in_bounds(v: Vec2) -> bool {
    &&& -COORD_LIMIT <= v.x <= COORD_LIMIT
    &&& -COORD_LIMIT <= v.y <= COORD_LIMIT
}

/// Builds the point `(x, y)`.
pub fn vec2(x: i64, y: i64) -> (v: Vec2)
    ensures
        v == (Vec2 { x, y }),
{
    Vec2 { x, y }
}

/// An exact fraction `num / den`, used for the share of the widget width
/// that the editable box occupies.
#[derive(Clone, Copy, Debug, PartialEq, Eq, Structural)]
pub struct Ratio {
    pub num: u32,
    pub den: u32,
}

impl Ratio {
    /// The denominator is positive and both parts are small enough that
    /// scaling a bounded width cannot overflow.
    pub open spec fn wf(self) -> bool {
        &&& self.num <= RATIO_LIMIT
        &&& 1 <= self.den <= RATIO_LIMIT
    }

    /// The fraction that leaves a width unchanged.
    pub open spec fn one() -> Ratio {
        Ratio { num: 1, den: 1 }
    }

    /// Builds the fraction `num / den`.
    pub fn new(num: u32, den: u32) -> (r: Ratio)
        ensures
            r == (Ratio { num, den }),
    {
        Ratio { num, den }
    }

    /// `w` scaled by the fraction, rounded toward negative infinity.
    pub open spec fn spec_scale(self, w: int) -> int {
        (w * self.num) / (self.den as int)
    }

    /// Scales a width by the fraction.
    pub fn scale(self, w: i64) -> (r: i64)
        requires
            self.wf(),
            -4 * (COORD_LIMIT as int) <= w <= 4 * (COORD_LIMIT as int),
        ensures
            r == self.spec_scale(w as int),
            -4 * (COORD_LIMIT as int) * (RATIO_LIMIT as int) <= r <= 4 * (COORD_LIMIT as int) * (
            RATIO_LIMIT as int),
    {
        proof {
            assert(-4 * (COORD_LIMIT as int) * (RATIO_LIMIT as int) <= w * self.num <= 4 * (
            COORD_LIMIT as int) * (RATIO_LIMIT as int)) by (nonlinear_arith)
                requires
                    -4 * (COORD_LIMIT as int) <= w <= 4 * (COORD_LIMIT as int),
                    0 <= self.num <= RATIO_LIMIT,
            ;
        }
        let prod: i64 = w * (self.num as i64);
        proof {
            lemma_div_in_range(prod as int, self.den as int);
        }
        match prod.checked_div_euclid(self.den as i64) {
            Some(q) => q,
            None => 0,
        }
    }
}

/// Dividing by a positive divisor cannot move a value out of the range
/// spanned by the value and zero.
proof fn lemma_div_in_range(x: int, d: int)
    requires
        1 <= d,
    ensures
        x >= 0 ==> 0 <= x / d <= x,
        x < 0 ==> x <= x / d <= 0,
{
    vstd::arithmetic::div_mod::lemma_fundamental_div_mod(x, d);
    let q = x / d;
    let r = x % d;
    vstd::arithmetic::div_mod::lemma_mod_bound(x, d);
    assert(x == d * q + r);
    if x >= 0 {
        assert(0 <= q <= x) by (nonlinear_arith)
            requires
                x == d * q + r,
                1 <= d,
                0 <= r < d,
                x >= 0,
        ;
    } else {
        assert(x <= q <= 0) by (nonlinear_arith)
            requires
                x == d * q + r,
                1 <= d,
                0 <= r < d,
                x < 0,
        ;
    }
}

} // verus!
