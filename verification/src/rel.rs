//! The relative-difference method.

use vstd::prelude::*;
use crate::float::{Float, at_most, non_negative};

verus! {

/// A tolerance on the relative difference: two numbers pass when
/// `|lhs - rhs| <= threshold * max(|lhs|, |rhs|)`.
///
/// The subtraction and the product round, so they are the caller's: the
/// tolerance names the number that the threshold is multiplied with, and
/// judges the difference against the bound that came out.
///
/// Near zero the bound is next to nothing, and two numbers that are not the
/// same hardly ever pass: join this method with [`crate::Abs`] there.
#[derive(Debug)]
pub struct Rel<T: Float>(T);

impl<T: Float> Clone for Rel<T> {
    fn clone(&self) -> (r: Self)
        ensures
            r == *self,
    {
        *self
    }
}

impl<T: Float> Copy for Rel<T> {

}

impl<T: Float> Rel<T> {
    #[verifier::type_invariant]
    spec fn holds_valid(self) -> bool {
        self.valid()
    }

    /// The threshold that the tolerance was made with.
    pub closed spec fn threshold_spec(&self) -> T {
        self.0
    }

    /// The threshold is a number and not negative.
    pub open spec fn valid(self) -> bool {
        non_negative(self.threshold())
    }

    /// The larger of `|lhs|` and `|rhs|`; where one of them is a NaN, the
    /// other.
    pub open spec fn largest_spec(lhs: T, rhs: T) -> T {
        let l = lhs.abs_spec();
        let r = rhs.abs_spec();
        if l.is_nan_spec() {
            r
        } else if r.is_nan_spec() {
            l
        } else if l.rank() <= r.rank() {
            r
        } else {
            l
        }
    }

    /// What `admits` decides: `|difference| <= bound`.
    pub open spec fn admits_spec(difference: T, bound: T) -> bool {
        at_most(difference.abs_spec(), bound)
    }

    /// A tolerance of `x` on the relative difference.
    pub fn tol(x: T) -> (t: Rel<T>)
        requires
            non_negative(x),
        ensures
            t.threshold() == x,
            t.valid(),
    {
        Rel(x)
    }

    /// A tolerance of `x` on the relative difference, where `x >= 0`; `None`
    /// where `x` is negative or a NaN.
    pub fn checked_tol(x: T) -> (t: Option<Rel<T>>)
        ensures
            non_negative(x) ==> (t matches Some(v) && v.threshold() == x),
            !non_negative(x) ==> t is None,
    {
        if T::zero().float_le(&x) {
            Some(Rel(x))
        } else {
            None
        }
    }

    /// The threshold, which is a number and never negative.
    #[verifier::when_used_as_spec(threshold_spec)]
    pub fn threshold(&self) -> (x: T)
        ensures
            x == self.threshold(),
            non_negative(x),
    {
        proof {
            use_type_invariant(self);
        }
        self.0
    }

    /// The number that the threshold is multiplied with to bound the
    /// difference of `lhs` and `rhs`.
    pub fn largest(lhs: &T, rhs: &T) -> (m: T)
        ensures
            m == Self::largest_spec(*lhs, *rhs),
    {
        let l = lhs.abs();
        let r = rhs.abs();
        if l.is_nan() {
            r
        } else if r.is_nan() {
            l
        } else if l.float_le(&r) {
            r
        } else {
            l
        }
    }

    /// Tests whether two numbers whose difference `lhs - rhs` is `difference`
    /// are approximately equal, where `bound` is the product of the threshold
    /// and `largest(lhs, rhs)`.
    pub fn admits(difference: &T, bound: &T) -> (r: bool)
        ensures
            r == Self::admits_spec(*difference, *bound),
    {
        difference.abs().float_le(bound)
    }
}

/// Where the difference or the bound is a NaN, as both are when one of the
/// two numbers is, the two are not approximately equal.
pub proof fn rel_rejects_nan<T: Float>(difference: T, bound: T)
    requires
        difference.is_nan_spec() || bound.is_nan_spec(),
    ensures
        !Rel::<T>::admits_spec(difference, bound),
{
    difference.abs_properties();
}

/// A difference of zero, of either sign, passes every bound that is a number
/// and not negative.
pub proof fn rel_admits_zero<T: Float>(difference: T, bound: T)
    requires
        !difference.is_nan_spec(),
        difference.rank() == 0,
        non_negative(bound),
    ensures
        Rel::<T>::admits_spec(difference, bound),
{
    difference.abs_properties();
}

/// The number that the threshold is multiplied with does not depend on the
/// order of the two numbers: either way it is a NaN, or either way the same
/// number.
pub proof fn rel_largest_symmetric<T: Float>(lhs: T, rhs: T)
    ensures
        Rel::<T>::largest_spec(lhs, rhs).is_nan_spec() == Rel::<T>::largest_spec(
            rhs,
            lhs,
        ).is_nan_spec(),
        !Rel::<T>::largest_spec(lhs, rhs).is_nan_spec() ==> Rel::<T>::largest_spec(
            lhs,
            rhs,
        ).rank() == Rel::<T>::largest_spec(rhs, lhs).rank(),
{
    lhs.abs_properties();
    rhs.abs_properties();
}

/// The sign of the difference does not matter: `lhs - rhs` and `rhs - lhs`
/// are judged alike.
pub proof fn rel_ignores_sign<T: Float>(difference: T, opposite: T, bound: T)
    requires
        opposite.is_nan_spec() == difference.is_nan_spec(),
        opposite.rank() == -difference.rank(),
    ensures
        Rel::<T>::admits_spec(difference, bound) == Rel::<T>::admits_spec(opposite, bound),
{
    difference.abs_properties();
    opposite.abs_properties();
}

} // verus!
