//! What the comparison methods need to know of a number format.

use vstd::prelude::*;

verus! {

/// An IEEE-754 binary format whose values are held as bit patterns.
///
/// The model of a pattern has two parts: whether it encodes a NaN, and, for
/// the patterns that do not, their `rank`: the magnitude bits read as an
/// integer, negated where the sign bit is set. The rank orders the numbers as
/// the format does, and gives both zeros the rank 0.
pub trait Float: Copy {
    /// The pattern encodes a NaN.
    spec fn is_nan_spec(&self) -> bool;

    /// The place of the pattern on the number line of its format.
    spec fn rank(&self) -> int;

    /// The number without its sign: the same pattern with the sign bit clear.
    spec fn abs_spec(&self) -> Self;

    /// Clearing the sign bit keeps a NaN a NaN and every other number at its
    /// distance from zero.
    proof fn abs_properties(&self)
        ensures
            self.abs_spec().is_nan_spec() == self.is_nan_spec(),
            self.abs_spec().rank() == (if self.rank() < 0 {
                -self.rank()
            } else {
                self.rank()
            }),
    ;

    /// Positive zero.
    fn zero() -> (z: Self)
        ensures
            !z.is_nan_spec(),
            z.rank() == 0,
    ;

    /// Tests whether the pattern encodes a NaN.
    fn is_nan(&self) -> (r: bool)
        ensures
            r == self.is_nan_spec(),
    ;

    /// Equality of the two numbers, as the format defines it.
    fn float_eq(&self, rhs: &Self) -> (r: bool)
        ensures
            r == (!self.is_nan_spec() && !rhs.is_nan_spec() && self.rank() == rhs.rank()),
    ;

    /// Tests whether `self` is less than or equal to `rhs`, as the format
    /// defines it.
    fn float_le(&self, rhs: &Self) -> (r: bool)
        ensures
            r == (!self.is_nan_spec() && !rhs.is_nan_spec() && self.rank() <= rhs.rank()),
    ;

    /// The number without its sign.
    fn abs(&self) -> (r: Self)
        ensures
            r == self.abs_spec(),
    ;
}

/// `a == b` for two numbers of a format: neither is a NaN, and both stand at
/// the same place of the number line (so the two zeros are equal).
pub open spec fn same_number<T: Float>(a: T, b: T) -> bool {
    !a.is_nan_spec() && !b.is_nan_spec() && a.rank() == b.rank()
}

/// `a <= b` for two numbers of a format: false as soon as one is a NaN.
pub open spec fn at_most<T: Float>(a: T, b: T) -> bool {
    !a.is_nan_spec() && !b.is_nan_spec() && a.rank() <= b.rank()
}

/// `x >= 0`: what a threshold has to satisfy. Negative zero passes, a NaN
/// does not.
pub open spec fn non_negative<T: Float>(x: T) -> bool {
    !x.is_nan_spec() && x.rank() >= 0
}

} // verus!
