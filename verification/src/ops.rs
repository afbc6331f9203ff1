//! Operator notation for intervals: `i / x` asks whether `x` belongs to `i`, and
//! `a * b` is the intersection of `a` and `b`.

use crate::interval::Interval;
use core::ops::{Div, Mul};
use vstd::prelude::*;
use vstd::std_specs::cmp::PartialOrdSpec;

verus! {

impl<T: PartialOrd> Div<T> for Interval<T> {
    type Output = bool;

    /// Whether `rhs` belongs to the interval; see `Interval::contains`.
    fn div(self, rhs: T) -> (r: bool)
        ensures
            self.left is PosInf || self.right is NegInf ==> !r,
            self.left is NegInf && self.right is PosInf ==> r,
    {
        self.contains(rhs)
    }
}

impl<T: PartialOrd> vstd::std_specs::ops::DivSpecImpl<T> for Interval<T> {
    open spec fn obeys_div_spec() -> bool {
        T::obeys_partial_cmp_spec()
    }

    open spec fn div_req(self, rhs: T) -> bool {
        true
    }

    open spec fn div_spec(self, rhs: T) -> bool {
        self.contains_spec(rhs)
    }
}

impl<T: PartialOrd> Div<T> for &Interval<T> {
    type Output = bool;

    /// Whether `rhs` belongs to the interval; see `Interval::contains`.
    fn div(self, rhs: T) -> (r: bool)
        ensures
            self.left is PosInf || self.right is NegInf ==> !r,
            self.left is NegInf && self.right is PosInf ==> r,
    {
        self.contains(rhs)
    }
}

impl<T: PartialOrd> vstd::std_specs::ops::DivSpecImpl<T> for &Interval<T> {
    open spec fn obeys_div_spec() -> bool {
        T::obeys_partial_cmp_spec()
    }

    open spec fn div_req(self, rhs: T) -> bool {
        true
    }

    open spec fn div_spec(self, rhs: T) -> bool {
        self.contains_spec(rhs)
    }
}

impl<T: Ord> Mul for Interval<T> {
    type Output = Self;

    /// The intersection of two intervals; see `Interval::intersect`.
    fn mul(self, rhs: Self) -> (r: Self) {
        self.intersect(rhs)
    }
}

impl<T: Ord> vstd::std_specs::ops::MulSpecImpl for Interval<T> {
    open spec fn obeys_mul_spec() -> bool {
        true
    }

    open spec fn mul_req(self, rhs: Self) -> bool {
        self.left.comparable(&rhs.left) && self.right.comparable(&rhs.right)
    }

    open spec fn mul_spec(self, rhs: Self) -> Self {
        self.intersect_spec(rhs)
    }
}

} // verus!
