//! The 32-bit format.

use vstd::prelude::*;
use crate::float::Float;

verus! {

/// A number of the 32-bit format, held as its bit pattern.
#[derive(Clone, Copy, Debug)]
pub struct Single {
    pub bits: u32,
}

impl Single {
    /// The magnitude bits: all but the sign bit.
    pub open spec fn magnitude(self) -> int {
        if self.bits >= 0x8000_0000u32 {
            self.bits - 0x8000_0000
        } else {
            self.bits as int
        }
    }

    /// The sign bit is set.
    pub open spec fn sign(self) -> bool {
        self.bits >= 0x8000_0000u32
    }

    /// The pattern read as a signed 32-bit integer in two's complement.
    pub open spec fn signed(self) -> int {
        if self.bits >= 0x8000_0000u32 {
            self.bits - 0x1_0000_0000
        } else {
            self.bits as int
        }
    }

    /// Holds the given pattern.
    pub fn from_bits(bits: u32) -> (r: Single)
        ensures
            r.bits == bits,
    {
        Single { bits }
    }

    /// The pattern held.
    pub fn to_bits(self) -> (r: u32)
        ensures
            r == self.bits,
    {
        self.bits
    }

    /// The pattern read as a signed integer: the same bits, nothing converted.
    pub fn to_signed(self) -> (r: i32)
        ensures
            r == self.signed(),
    {
        let b: u32 = self.bits;
        let r: i32 = b as i32;
        proof {
            assert(b as i32 == (if b >= 0x8000_0000u32 {
                b - 0x1_0000_0000
            } else {
                b as int
            })) by (bit_vector);
        }
        r
    }

    /// Tests the sign bit.
    pub fn is_sign_negative(&self) -> (r: bool)
        ensures
            r == self.sign(),
    {
        let top: u32 = self.bits >> 31;
        proof {
            let b: u32 = self.bits;
            assert((b >> 31 == 1u32) == (b >= 0x8000_0000u32)) by (bit_vector);
        }
        top == 1
    }

    fn magnitude_bits(&self) -> (r: u32)
        ensures
            r == self.magnitude(),
    {
        let m: u32 = self.bits & 0x7fff_ffff;
        proof {
            let b: u32 = self.bits;
            assert(b & 0x7fff_ffffu32 == (if b >= 0x8000_0000u32 {
                (b - 0x8000_0000u32) as u32
            } else {
                b
            })) by (bit_vector);
        }
        m
    }
}

impl Float for Single {
    open spec fn is_nan_spec(&self) -> bool {
        self.magnitude() > 0x7f80_0000
    }

    open spec fn rank(&self) -> int {
        if self.sign() {
            -self.magnitude()
        } else {
            self.magnitude()
        }
    }

    open spec fn abs_spec(&self) -> Single {
        Single { bits: self.magnitude() as u32 }
    }

    proof fn abs_properties(&self) {
    }

    fn zero() -> (z: Single) {
        Single { bits: 0 }
    }

    fn is_nan(&self) -> (r: bool) {
        self.magnitude_bits() > 0x7f80_0000
    }

    fn float_eq(&self, rhs: &Single) -> (r: bool) {
        if self.is_nan() || rhs.is_nan() {
            false
        } else {
            let l: u32 = self.magnitude_bits();
            let r: u32 = rhs.magnitude_bits();
            self.bits == rhs.bits || (l == 0 && r == 0)
        }
    }

    fn float_le(&self, rhs: &Single) -> (r: bool) {
        if self.is_nan() || rhs.is_nan() {
            false
        } else {
            let l: u32 = self.magnitude_bits();
            let r: u32 = rhs.magnitude_bits();
            if self.is_sign_negative() {
                if rhs.is_sign_negative() {
                    r <= l
                } else {
                    true
                }
            } else {
                if rhs.is_sign_negative() {
                    l == 0 && r == 0
                } else {
                    l <= r
                }
            }
        }
    }

    fn abs(&self) -> (r: Single) {
        Single { bits: self.magnitude_bits() }
    }
}

} // verus!
