//! Approximate equality of IEEE-754 numbers, decided on their bit patterns.
//!
//! A number is held as the pattern of its encoding: [`Single`] for the 32-bit
//! format and [`Double`] for the 64-bit one. Three methods say when two
//! numbers are close enough: [`Abs`] and [`Rel`] judge a difference that the
//! caller has computed, [`Ulp`] counts the representable numbers between the
//! two.

use vstd::prelude::*;

pub mod abs;
pub mod double;
pub mod float;
pub mod rel;
pub mod single;
pub mod ulp;

pub use abs::Abs;
pub use double::Double;
pub use float::Float;
pub use rel::Rel;
pub use single::Single;
pub use ulp::{Distance, Int, Ulp};

verus! {

/// Approximate equality under the method that the tolerance's type names.
pub trait Eq<Method>: Sized {
    /// What `approx_eq` decides.
    spec fn approx_eq_spec(&self, rhs: &Self, tolerance: Method) -> bool;

    /// Tests whether `self` and `rhs` are approximately equal according to
    /// `tolerance`.
    fn approx_eq(&self, rhs: &Self, tolerance: Method) -> (r: bool)
        ensures
            r == self.approx_eq_spec(rhs, tolerance),
    ;
}

/// Tests whether `lhs` is approximately equal to `rhs` under the method and
/// the threshold of `tolerance`.
pub fn eq<A, Method>(lhs: &A, rhs: &A, tolerance: Method) -> (r: bool) where A: Eq<Method>
    ensures
        r == lhs.approx_eq_spec(rhs, tolerance),
{
    lhs.approx_eq(rhs, tolerance)
}

} // verus!
