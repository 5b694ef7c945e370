//! Ratios of 32-bit integers and division that rounds toward zero.

use vstd::prelude::*;

verus! {

/// A ratio of two 32-bit integers, numerator first.
///
/// It stands for a time base (seconds per timestamp unit), a frame rate
/// (frames per second) or an aspect ratio (width over height). No reduction
/// is applied: two values are equal when both parts are equal.
#[derive(Debug, Clone, Copy, PartialEq, Eq, Structural)]
pub struct Rational(pub i32, pub i32);

/// The absolute value of an integer.
pub open spec fn magnitude_of(x: int) -> int {
    if x < 0 {
        -x
    } else {
        x
    }
}

/// The quotient of `a` by `b` rounded toward zero, as machine division rounds.
pub open spec fn trunc_div(a: int, b: int) -> int
    recommends
        b != 0,
{
    if (a < 0) == (b < 0) {
        magnitude_of(a) / magnitude_of(b)
    } else {
        -(magnitude_of(a) / magnitude_of(b))
    }
}

/// The absolute value of a 32-bit integer, which always fits in `u32`.
pub fn magnitude(x: i32) -> (m: u32)
    ensures
        m == magnitude_of(x as int),
{
    if x < 0 {
        let wide: i64 = -(x as i64);
        wide as u32
    } else {
        x as u32
    }
}

impl Rational {
    /// Both parts are strictly positive: the ratio measures something.
    pub open spec fn is_positive(self) -> bool {
        self.0 > 0 && self.1 > 0
    }

    pub fn new(numerator: i32, denominator: i32) -> (r: Rational)
        ensures
            r.0 == numerator,
            r.1 == denominator,
    {
        Rational(numerator, denominator)
    }

    pub fn numerator(&self) -> (n: i32)
        ensures
            n == self.0,
    {
        self.0
    }

    pub fn denominator(&self) -> (d: i32)
        ensures
            d == self.1,
    {
        self.1
    }
}

} // verus!
