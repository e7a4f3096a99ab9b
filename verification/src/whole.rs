use vstd::prelude::*;
use crate::scalar::Scalar;
use crate::text::{integer_cell, integer_text, right_aligned, signed_decimal};

verus! {

/// A whole number in 64 bits as the scalar of a simulation.
///
/// Sums, differences, products and negation wrap around. A quotient is
/// rounded toward zero; division by zero, and the one quotient that does not
/// fit, give zero.
#[derive(Clone, Copy, Debug, PartialEq, Eq, Structural)]
pub struct Whole(pub i64);

impl Scalar for Whole {
    open spec fn nil() -> Self {
        Whole(0)
    }

    open spec fn unit() -> Self {
        Whole(1)
    }

    open spec fn plus(self, rhs: Self) -> Self {
        Whole(self.0.wrapping_add(rhs.0))
    }

    open spec fn minus(self, rhs: Self) -> Self {
        Whole(self.0.wrapping_sub(rhs.0))
    }

    open spec fn times(self, rhs: Self) -> Self {
        Whole(self.0.wrapping_mul(rhs.0))
    }

    open spec fn over(self, rhs: Self) -> Self {
        match self.0.checked_div(rhs.0) {
            Some(q) => Whole(q),
            None => Whole(0),
        }
    }

    open spec fn negated(self) -> Self {
        Whole(0i64.wrapping_sub(self.0))
    }

    /// The count itself, or the largest number where it does not fit.
    open spec fn of_index(i: usize) -> Self {
        if i <= i64::MAX {
            Whole(i as i64)
        } else {
            Whole(i64::MAX)
        }
    }

    /// The number itself, zero for a negative one, or the largest count
    /// where it does not fit.
    open spec fn whole(self) -> usize {
        if self.0 <= 0 {
            0
        } else if self.0 > usize::MAX {
            usize::MAX
        } else {
            self.0 as usize
        }
    }

    closed spec fn text(self) -> String {
        choose|s: String| s@ == signed_decimal(self.0 as int)
    }

    closed spec fn cell(self) -> String {
        choose|s: String| s@ == right_aligned(signed_decimal(self.0 as int), 15)
    }

    fn zero() -> (r: Self) {
        Whole(0)
    }

    fn one() -> (r: Self) {
        Whole(1)
    }

    fn add(self, rhs: Self) -> (r: Self) {
        Whole(self.0.wrapping_add(rhs.0))
    }

    fn sub(self, rhs: Self) -> (r: Self) {
        Whole(self.0.wrapping_sub(rhs.0))
    }

    fn mul(self, rhs: Self) -> (r: Self) {
        Whole(self.0.wrapping_mul(rhs.0))
    }

    fn div(self, rhs: Self) -> (r: Self) {
        match self.0.checked_div(rhs.0) {
            Some(q) => Whole(q),
            None => Whole(0),
        }
    }

    fn neg(self) -> (r: Self) {
        Whole(0i64.wrapping_sub(self.0))
    }

    fn from_index(i: usize) -> (r: Self) {
        if i as u64 <= 0x7fff_ffff_ffff_ffff {
            Whole(i as i64)
        } else {
            Whole(i64::MAX)
        }
    }

    fn truncate(self) -> (r: usize) {
        if self.0 <= 0 {
            0
        } else if self.0 as u64 > usize::MAX as u64 {
            usize::MAX
        } else {
            self.0 as usize
        }
    }

    fn to_text(self) -> (r: String) {
        integer_text(self.0)
    }

    fn to_cell(self) -> (r: String) {
        integer_cell(self.0)
    }
}

impl Whole {
    /// The decimal form of the number.
    pub fn decimal_text(self) -> (r: String)
        ensures
            r@ == signed_decimal(self.0 as int),
            r@ == self.text()@,
    {
        integer_text(self.0)
    }

    /// The decimal form of the number, right-aligned in fifteen columns.
    pub fn aligned_text(self) -> (r: String)
        ensures
            r@ == right_aligned(signed_decimal(self.0 as int), 15),
            r@ == self.cell()@,
    {
        integer_cell(self.0)
    }
}

} // verus!
