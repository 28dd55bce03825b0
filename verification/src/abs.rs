//! The absolute-difference method.

use vstd::prelude::*;
use crate::float::{Float, at_most, non_negative};

verus! {

/// A tolerance on the absolute difference: two numbers pass when
/// `|lhs - rhs| <= threshold`.
///
/// The subtraction rounds, so it is the caller's: the tolerance judges the
/// difference that came out of it.
#[derive(Debug)]
pub struct Abs<T: Float>(T);

impl<T: Float> Clone for Abs<T> {
    fn clone(&self) -> (r: Self)
        ensures
            r == *self,
    {
        *self
    }
}

impl<T: Float> Copy for Abs<T> {

}

impl<T: Float> Abs<T> {
    #[verifier::type_invariant]
    spec fn holds_valid(self) -> bool {
        self.valid()
    }

    /// The threshold that the tolerance was made with.
    pub closed spec fn threshold_spec(&self) -> T {
        self.0
    }

    /// The threshold is a number and not negative.
    pub open spec fn valid(self) -> bool {
        non_negative(self.threshold())
    }

    /// What `admits` decides: `|difference| <= threshold`.
    pub open spec fn admits_spec(self, difference: T) -> bool {
        at_most(difference.abs_spec(), self.threshold())
    }

    /// A tolerance of `x` on the absolute difference.
    pub fn tol(x: T) -> (t: Abs<T>)
        requires
            non_negative(x),
        ensures
            t.threshold() == x,
            t.valid(),
    {
        Abs(x)
    }

    /// A tolerance of `x` on the absolute difference, where `x >= 0`; `None`
    /// where `x` is negative or a NaN.
    pub fn checked_tol(x: T) -> (t: Option<Abs<T>>)
        ensures
            non_negative(x) ==> (t matches Some(v) && v.threshold() == x),
            !non_negative(x) ==> t is None,
    {
        if T::zero().float_le(&x) {
            Some(Abs(x))
        } else {
            None
        }
    }

    /// The threshold, which is a number and never negative.
    #[verifier::when_used_as_spec(threshold_spec)]
    pub fn threshold(&self) -> (x: T)
        ensures
            x == self.threshold(),
            non_negative(x),
    {
        proof {
            use_type_invariant(self);
        }
        self.0
    }

    /// Tests whether two numbers whose difference `lhs - rhs` is `difference`
    /// are approximately equal.
    pub fn admits(&self, difference: &T) -> (r: bool)
        ensures
            r == self.admits_spec(*difference),
    {
        difference.abs().float_le(&self.0)
    }
}

/// Where the difference is a NaN, as it is when one of the two numbers is,
/// the two are not approximately equal under any tolerance.
pub proof fn abs_rejects_nan<T: Float>(t: Abs<T>, difference: T)
    requires
        difference.is_nan_spec(),
    ensures
        !t.admits_spec(difference),
{
    difference.abs_properties();
}

/// A difference of zero, of either sign, passes every valid tolerance.
pub proof fn abs_admits_zero<T: Float>(t: Abs<T>, difference: T)
    requires
        t.valid(),
        !difference.is_nan_spec(),
        difference.rank() == 0,
    ensures
        t.admits_spec(difference),
{
    difference.abs_properties();
}

/// The sign of the difference does not matter: `lhs - rhs` and `rhs - lhs`
/// are judged alike.
pub proof fn abs_ignores_sign<T: Float>(t: Abs<T>, difference: T, opposite: T)
    requires
        opposite.is_nan_spec() == difference.is_nan_spec(),
        opposite.rank() == -difference.rank(),
    ensures
        t.admits_spec(difference) == t.admits_spec(opposite),
{
    difference.abs_properties();
    opposite.abs_properties();
}

} // verus!
