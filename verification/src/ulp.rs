//! Distance in units in the last place.

use vstd::prelude::*;
use crate::Eq as ApproxEq;
use crate::float::{Float, same_number};
use crate::single::Single;
use crate::double::Double;

verus! {

/// A signed integer in which a distance is counted.
pub trait Int: Copy {
    /// The integer's value.
    spec fn as_int(&self) -> int;

    /// The integer 0.
    fn zero() -> (z: Self)
        ensures
            z.as_int() == 0,
    ;

    /// Tests `self <= rhs`.
    fn at_most(&self, rhs: &Self) -> (r: bool)
        ensures
            r == (self.as_int() <= rhs.as_int()),
    ;
}

impl Int for i32 {
    open spec fn as_int(&self) -> int {
        *self as int
    }

    fn zero() -> (z: i32) {
        0
    }

    fn at_most(&self, rhs: &i32) -> (r: bool) {
        *self <= *rhs
    }
}

impl Int for i64 {
    open spec fn as_int(&self) -> int {
        *self as int
    }

    fn zero() -> (z: i64) {
        0
    }

    fn at_most(&self, rhs: &i64) -> (r: bool) {
        *self <= *rhs
    }
}

/// A tolerance in units in the last place: two numbers pass when at most
/// `threshold` steps between adjacent patterns lead from one to the other.
#[derive(Debug)]
pub struct Ulp<T: Int>(T);

impl<T: Int> Clone for Ulp<T> {
    fn clone(&self) -> (r: Self)
        ensures
            r == *self,
    {
        *self
    }
}

impl<T: Int> Copy for Ulp<T> {

}

impl<T: Int> Ulp<T> {
    #[verifier::type_invariant]
    spec fn holds_valid(self) -> bool {
        self.valid()
    }

    /// The threshold that the tolerance was made with.
    pub closed spec fn threshold_spec(&self) -> T {
        self.0
    }

    /// The threshold is not negative.
    pub open spec fn valid(self) -> bool {
        self.threshold().as_int() >= 0
    }

    /// A tolerance of `x` units in the last place.
    pub fn tol(x: T) -> (t: Ulp<T>)
        requires
            x.as_int() >= 0,
        ensures
            t.threshold() == x,
            t.valid(),
    {
        Ulp(x)
    }

    /// A tolerance of `x` units in the last place, where `x` is not negative;
    /// `None` where it is.
    pub fn checked_tol(x: T) -> (t: Option<Ulp<T>>)
        ensures
            x.as_int() >= 0 ==> (t matches Some(v) && v.threshold() == x),
            x.as_int() < 0 ==> t is None,
    {
        if T::zero().at_most(&x) {
            Some(Ulp(x))
        } else {
            None
        }
    }

    /// The threshold, which is never negative.
    #[verifier::when_used_as_spec(threshold_spec)]
    pub fn threshold(&self) -> (x: T)
        ensures
            x == self.threshold(),
            x.as_int() >= 0,
    {
        proof {
            use_type_invariant(self);
        }
        self.0
    }
}

/// A format in which the distance between two numbers can be counted.
pub trait Distance: Float {
    /// The integer that counts the distance.
    type Ulp: Int;

    /// The distance between two numbers, where it is defined.
    spec fn distance_spec(&self, rhs: &Self) -> Option<Self::Ulp>;

    /// The absolute distance between `self` and `rhs` in units in the last
    /// place; `None` where one of them is a NaN or their signs differ.
    fn distance(&self, rhs: &Self) -> (d: Option<Self::Ulp>)
        ensures
            d == self.distance_spec(rhs),
    ;

    /// What the comparison relies on, in every format: the distance does not
    /// depend on the order of the two numbers, is defined for no NaN, is zero
    /// from a number to itself, and where it is defined it is the number of
    /// steps between the two on the number line.
    proof fn distance_properties(&self, rhs: &Self)
        ensures
            self.distance_spec(rhs) == rhs.distance_spec(self),
            self.is_nan_spec() || rhs.is_nan_spec() ==> self.distance_spec(rhs) is None,
            !self.is_nan_spec() ==> (self.distance_spec(self) matches Some(d) && d.as_int() == 0),
            self.distance_spec(rhs) matches Some(d) ==> d.as_int() == (if self.rank()
                <= rhs.rank() {
                rhs.rank() - self.rank()
            } else {
                self.rank() - rhs.rank()
            }),
    ;
}

impl Distance for Single {
    type Ulp = i32;

    open spec fn distance_spec(&self, rhs: &Single) -> Option<i32> {
        if self.is_nan_spec() || rhs.is_nan_spec() {
            None
        } else if self.sign() != rhs.sign() {
            None
        } else if self.signed() > rhs.signed() {
            Some((self.signed() - rhs.signed()) as i32)
        } else {
            Some((rhs.signed() - self.signed()) as i32)
        }
    }

    proof fn distance_properties(&self, rhs: &Single) {
    }

    fn distance(&self, rhs: &Single) -> (d: Option<i32>) {
        if self.is_nan() || rhs.is_nan() {
            None
        } else {
            let l: i32 = self.to_signed();
            let r: i32 = rhs.to_signed();
            proof {
                assert((l >> 31 != r >> 31) == ((l < 0) != (r < 0))) by (bit_vector);
            }
            if l >> 31 != r >> 31 {
                None
            } else if l > r {
                Some(l - r)
            } else {
                Some(r - l)
            }
        }
    }
}

impl Distance for Double {
    type Ulp = i64;

    open spec fn distance_spec(&self, rhs: &Double) -> Option<i64> {
        if self.is_nan_spec() || rhs.is_nan_spec() {
            None
        } else if self.sign() != rhs.sign() {
            None
        } else if self.signed() > rhs.signed() {
            Some((self.signed() - rhs.signed()) as i64)
        } else {
            Some((rhs.signed() - self.signed()) as i64)
        }
    }

    proof fn distance_properties(&self, rhs: &Double) {
    }

    fn distance(&self, rhs: &Double) -> (d: Option<i64>) {
        if self.is_nan() || rhs.is_nan() {
            None
        } else {
            let l: i64 = self.to_signed();
            let r: i64 = rhs.to_signed();
            proof {
                assert((l >> 63 != r >> 63) == ((l < 0) != (r < 0))) by (bit_vector);
            }
            if l >> 63 != r >> 63 {
                None
            } else if l > r {
                Some(l - r)
            } else {
                Some(r - l)
            }
        }
    }
}

impl<T: Distance> crate::Eq<Ulp<T::Ulp>> for T {
    open spec fn approx_eq_spec(&self, rhs: &T, tol: Ulp<T::Ulp>) -> bool {
        match self.distance_spec(rhs) {
            Some(diff) => diff.as_int() <= tol.threshold().as_int(),
            None => same_number(*self, *rhs),
        }
    }

    fn approx_eq(&self, rhs: &T, tol: Ulp<T::Ulp>) -> (r: bool) {
        match self.distance(rhs) {
            Some(diff) => diff.at_most(&tol.0),
            None => self.float_eq(rhs),
        }
    }
}

/// Reflexivity: a number that is no NaN is approximately equal to itself
/// under every valid tolerance.
pub proof fn ulp_reflexive<T: Distance>(x: T, t: Ulp<T::Ulp>)
    requires
        !x.is_nan_spec(),
        t.valid(),
    ensures
        x.approx_eq_spec(&x, t),
{
    x.distance_properties(&x);
}

/// A NaN is approximately equal to nothing, on either side and under every
/// tolerance.
pub proof fn ulp_rejects_nan<T: Distance>(nan: T, x: T, t: Ulp<T::Ulp>)
    requires
        nan.is_nan_spec(),
    ensures
        !nan.approx_eq_spec(&x, t),
        !x.approx_eq_spec(&nan, t),
{
    nan.distance_properties(&x);
    x.distance_properties(&nan);
}

/// Two NaNs are not approximately equal, whether they are the same pattern
/// or not.
pub proof fn ulp_rejects_two_nans<T: Distance>(a: T, b: T, t: Ulp<T::Ulp>)
    requires
        a.is_nan_spec(),
        b.is_nan_spec(),
    ensures
        !a.approx_eq_spec(&b, t),
{
    a.distance_properties(&b);
}

/// Symmetry: the order of the two numbers does not matter.
pub proof fn ulp_symmetric<T: Distance>(a: T, b: T, t: Ulp<T::Ulp>)
    ensures
        a.approx_eq_spec(&b, t) == b.approx_eq_spec(&a, t),
{
    a.distance_properties(&b);
}

} // verus!
