//! App units: the integer unit of length of layout, 1/60th of a CSS pixel.
//!
//! Sums and differences saturate at the bounds of the valid range, as they do for the
//! app units of the layout engine.

use vstd::prelude::*;

verus! {

/// The smallest value that an app unit may hold.
pub const MIN_AU_VALUE: i32 = -1073741823i32;

/// The largest value that an app unit may hold.
pub const MAX_AU_VALUE: i32 = 1073741823i32;

/// Clamps an integer into the range of valid app units.
pub open spec fn clamp_au(v: int) -> int {
    if v < MIN_AU_VALUE as int {
        MIN_AU_VALUE as int
    } else if v > MAX_AU_VALUE as int {
        MAX_AU_VALUE as int
    } else {
        v
    }
}

/// Integer division by two, rounding toward zero.
pub open spec fn half_toward_zero(v: int) -> int {
    if v >= 0 {
        v / 2
    } else {
        -((-v) / 2)
    }
}

/// The saturating sum of two app units.
pub open spec fn add_au(a: Au, b: Au) -> Au {
    Au(clamp_au(a.0 + b.0) as i32)
}

/// The saturating difference of two app units.
pub open spec fn sub_au(a: Au, b: Au) -> Au {
    Au(clamp_au(a.0 - b.0) as i32)
}

/// The larger of two app units.
pub open spec fn max_au(a: Au, b: Au) -> Au {
    if a.0 >= b.0 {
        a
    } else {
        b
    }
}

/// The smaller of two app units.
pub open spec fn min_au(a: Au, b: Au) -> Au {
    if a.0 <= b.0 {
        a
    } else {
        b
    }
}

/// Half an app unit, rounded toward zero.
pub open spec fn half_au(a: Au) -> Au {
    Au(half_toward_zero(a.0 as int) as i32)
}

/// An app unit.
#[derive(Clone, Copy, Debug, PartialEq, Eq, Structural, Hash, Default)]
pub struct Au(pub i32);

impl Au {
    /// Whether the value lies between the smallest and the largest app unit.
    pub open spec fn is_valid(self) -> bool {
        MIN_AU_VALUE <= self.0 <= MAX_AU_VALUE
    }

    /// Zero app units.
    pub fn zero() -> (r: Au)
        ensures
            r.0 == 0,
    {
        Au(0)
    }

    /// The largest valid app unit.
    pub fn max_au() -> (r: Au)
        ensures
            r.0 == MAX_AU_VALUE,
    {
        Au(MAX_AU_VALUE)
    }

    /// The smallest valid app unit.
    pub fn min_au() -> (r: Au)
        ensures
            r.0 == MIN_AU_VALUE,
    {
        Au(MIN_AU_VALUE)
    }

    /// A new app unit, clamped into the valid range.
    pub fn new(value: i32) -> (r: Au)
        ensures
            r.0 == clamp_au(value as int),
    {
        if value < MIN_AU_VALUE {
            Au(MIN_AU_VALUE)
        } else if value > MAX_AU_VALUE {
            Au(MAX_AU_VALUE)
        } else {
            Au(value)
        }
    }

    /// Whether the value is zero.
    pub fn is_zero(&self) -> (r: bool)
        ensures
            r == (self.0 == 0),
    {
        self.0 == 0
    }

    /// The saturating sum.
    pub fn plus(self, other: Au) -> (r: Au)
        requires
            i32::MIN <= self.0 + other.0 <= i32::MAX,
        ensures
            r.0 == clamp_au(self.0 + other.0),
            r == add_au(self, other),
    {
        Au::new(self.0 + other.0)
    }

    /// The saturating difference.
    pub fn minus(self, other: Au) -> (r: Au)
        requires
            i32::MIN <= self.0 - other.0 <= i32::MAX,
        ensures
            r.0 == clamp_au(self.0 - other.0),
            r == sub_au(self, other),
    {
        Au::new(self.0 - other.0)
    }

    /// Half the value, rounded toward zero.
    pub fn half(self) -> (r: Au)
        ensures
            r.0 == half_toward_zero(self.0 as int),
            r == half_au(self),
    {
        Au(self.0 / 2)
    }

    /// The larger of the two values.
    pub fn max(self, other: Au) -> (r: Au)
        ensures
            r == max_au(self, other),
    {
        if self.0 >= other.0 {
            self
        } else {
            other
        }
    }

    /// The smaller of the two values.
    pub fn min(self, other: Au) -> (r: Au)
        ensures
            r == min_au(self, other),
    {
        if self.0 <= other.0 {
            self
        } else {
            other
        }
    }
}

/// The sum of two valid app units is valid and, where it lies in the valid range, exact.
pub proof fn lemma_plus_valid(a: Au, b: Au)
    requires
        a.is_valid(),
        b.is_valid(),
    ensures
        i32::MIN <= a.0 + b.0 <= i32::MAX,
        i32::MIN <= a.0 - b.0 <= i32::MAX,
        MIN_AU_VALUE <= clamp_au(a.0 + b.0) <= MAX_AU_VALUE,
        MIN_AU_VALUE <= a.0 + b.0 <= MAX_AU_VALUE ==> clamp_au(a.0 + b.0) == a.0 + b.0,
{
}

} // verus!
