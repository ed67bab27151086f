//! [`Real`]: an IEEE-754 binary64 value carried by its bit pattern.
//!
//! Scores, deltas, intensities and progress are binary64 values. The library
//! keeps each one as the 64 bits that encode it and decides on them with the
//! comparisons below, which follow the binary64 order exactly: a NaN compares
//! with nothing, `-0.0` and `+0.0` are equal, and otherwise the order of two
//! values is the order of their sign-magnitude keys.

use vstd::prelude::*;

verus! {

/// The sign bit of a binary64 pattern.
pub const SIGN_BIT: u64 = 0x8000_0000_0000_0000;

/// The magnitude bits of positive infinity; a larger magnitude is a NaN.
pub const INFINITY_MAGNITUDE: u64 = 0x7FF0_0000_0000_0000;

/// A binary64 value, held as its bit pattern.
#[derive(Clone, Copy, Debug)]
pub struct Real {
    /// The IEEE-754 binary64 encoding of the value.
    pub bits: u64,
}

impl Real {
    /// The bits without the sign bit.
    pub open spec fn magnitude(self) -> u64 {
        if self.bits >= SIGN_BIT {
            (self.bits - SIGN_BIT) as u64
        } else {
            self.bits
        }
    }

    /// The sign bit is set (this holds of `-0.0` and of negative NaNs too).
    pub open spec fn sign_negative(self) -> bool {
        self.bits >= SIGN_BIT
    }

    /// The value is a NaN.
    pub open spec fn nan(self) -> bool {
        self.magnitude() > INFINITY_MAGNITUDE
    }

    /// The sign-magnitude key: for two values that are not NaN, the binary64
    /// order is the order of their keys, and both zeros have key 0.
    pub open spec fn order_key(self) -> int {
        if self.sign_negative() {
            -(self.magnitude() as int)
        } else {
            self.magnitude() as int
        }
    }

    /// `self < other` as binary64 compares.
    pub open spec fn lt_spec(self, other: Real) -> bool {
        !self.nan() && !other.nan() && self.order_key() < other.order_key()
    }

    /// `self <= other` as binary64 compares.
    pub open spec fn le_spec(self, other: Real) -> bool {
        !self.nan() && !other.nan() && self.order_key() <= other.order_key()
    }

    /// `self > other` as binary64 compares.
    pub open spec fn gt_spec(self, other: Real) -> bool {
        other.lt_spec(self)
    }

    /// `self >= other` as binary64 compares.
    pub open spec fn ge_spec(self, other: Real) -> bool {
        other.le_spec(self)
    }

    /// `self == other` as binary64 compares.
    pub open spec fn eq_value(self, other: Real) -> bool {
        !self.nan() && !other.nan() && self.order_key() == other.order_key()
    }

    /// The absolute value: the same bits with the sign bit cleared.
    pub open spec fn abs_spec(self) -> Real {
        Real { bits: self.magnitude() }
    }

    /// The larger of two values, ignoring a NaN: when one argument is NaN the
    /// other is returned; when neither is larger, `self` is kept.
    pub open spec fn max_spec(self, other: Real) -> Real {
        if self.nan() {
            other
        } else if other.nan() {
            self
        } else if self.order_key() < other.order_key() {
            other
        } else {
            self
        }
    }

    /// `self` restricted to `[min, max]`: `min` when below it, `max` when above
    /// it, and `self` otherwise (a NaN stays NaN).
    pub open spec fn clamp_spec(self, min: Real, max: Real) -> Real {
        if self.lt_spec(min) {
            min
        } else if self.gt_spec(max) {
            max
        } else {
            self
        }
    }

    /// `+0.0`.
    pub open spec fn zero_spec() -> Real {
        Real { bits: 0 }
    }

    /// `+0.0`.
    pub fn zero() -> (r: Real)
        ensures
            r == Real::zero_spec(),
    {
        Real { bits: 0 }
    }

    fn magnitude_exec(&self) -> (m: u64)
        ensures
            m == self.magnitude(),
    {
        if self.bits >= SIGN_BIT {
            self.bits - SIGN_BIT
        } else {
            self.bits
        }
    }

    fn order_key_exec(&self) -> (k: i128)
        ensures
            k == self.order_key(),
    {
        let m = self.magnitude_exec();
        if self.bits >= SIGN_BIT {
            -(m as i128)
        } else {
            m as i128
        }
    }

    /// Whether the value is a NaN.
    pub fn is_nan(&self) -> (r: bool)
        ensures
            r == self.nan(),
    {
        self.magnitude_exec() > INFINITY_MAGNITUDE
    }

    /// `self < other` as binary64 compares.
    pub fn lt(&self, other: &Real) -> (r: bool)
        ensures
            r == self.lt_spec(*other),
    {
        !self.is_nan() && !other.is_nan() && self.order_key_exec() < other.order_key_exec()
    }

    /// `self <= other` as binary64 compares.
    pub fn le(&self, other: &Real) -> (r: bool)
        ensures
            r == self.le_spec(*other),
    {
        !self.is_nan() && !other.is_nan() && self.order_key_exec() <= other.order_key_exec()
    }

    /// `self > other` as binary64 compares.
    pub fn gt(&self, other: &Real) -> (r: bool)
        ensures
            r == self.gt_spec(*other),
    {
        other.lt(self)
    }

    /// `self >= other` as binary64 compares.
    pub fn ge(&self, other: &Real) -> (r: bool)
        ensures
            r == self.ge_spec(*other),
    {
        other.le(self)
    }

    /// The absolute value.
    pub fn abs(&self) -> (r: Real)
        ensures
            r == self.abs_spec(),
    {
        Real { bits: self.magnitude_exec() }
    }

    /// The larger of two values, ignoring a NaN.
    pub fn max(&self, other: &Real) -> (r: Real)
        ensures
            r == self.max_spec(*other),
    {
        if self.is_nan() {
            *other
        } else if other.is_nan() {
            *self
        } else if self.order_key_exec() < other.order_key_exec() {
            *other
        } else {
            *self
        }
    }

    /// `self` restricted to `[min, max]`.
    pub fn clamp(&self, min: &Real, max: &Real) -> (r: Real)
        requires
            min.le_spec(*max),
        ensures
            r == self.clamp_spec(*min, *max),
            // a value already within [min, max] is left as it is
            min.le_spec(*self) && self.le_spec(*max) ==> r == *self,
            self.lt_spec(*min) ==> r == *min,
            self.gt_spec(*max) ==> r == *max,
            self.nan() ==> r == *self,
    {
        if self.lt(min) {
            *min
        } else if self.gt(max) {
            *max
        } else {
            *self
        }
    }
}

impl PartialEq for Real {
    fn eq(&self, other: &Real) -> (r: bool) {
        !self.is_nan() && !other.is_nan() && self.order_key_exec() == other.order_key_exec()
    }
}

impl vstd::std_specs::cmp::PartialEqSpecImpl for Real {
    open spec fn obeys_eq_spec() -> bool {
        true
    }

    open spec fn eq_spec(&self, other: &Real) -> bool {
        self.eq_value(*other)
    }
}

/// Clamping moves a value only when it lies outside `[min, max]`: a value
/// within the range is left as it is, one below goes to `min`, one above to
/// `max`, and a NaN stays.
pub proof fn lemma_clamp_moves_only_outliers(x: Real, min: Real, max: Real)
    requires
        min.le_spec(max),
    ensures
        min.le_spec(x) && x.le_spec(max) ==> x.clamp_spec(min, max) == x,
        x.lt_spec(min) ==> x.clamp_spec(min, max) == min,
        x.gt_spec(max) ==> x.clamp_spec(min, max) == max,
        x.nan() ==> x.clamp_spec(min, max) == x,
        !x.nan() ==> min.le_spec(x.clamp_spec(min, max)) && x.clamp_spec(min, max).le_spec(max),
{
}

} // verus!
