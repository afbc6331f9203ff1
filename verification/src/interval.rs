//! Intervals as pairs of endpoints.
//!
//! Every operation here is a composition of endpoint comparisons: no case is made of
//! which boundaries are open and which are closed.

use crate::endpoint::Endpoint;
use core::cmp::Ordering;
use vstd::prelude::*;
use vstd::std_specs::cmp::{PartialEqSpec, PartialOrdIs, PartialOrdSpec};

verus! {

/// The values between two endpoints.
///
/// Nothing asks that `left` be at most `right`: an interval whose left endpoint is the
/// greater one is a well-defined empty interval.
#[derive(Clone, Copy, Debug)]
pub struct Interval<T> {
    pub left: Endpoint<T>,
    pub right: Endpoint<T>,
}

impl<T> Interval<T> {
    /// The canonical empty interval, from `PosInf` down to `NegInf`.
    pub open spec fn empty_spec() -> Self {
        Interval { left: Endpoint::PosInf, right: Endpoint::NegInf }
    }

    /// The interval of all values, from `NegInf` up to `PosInf`.
    pub open spec fn all_spec() -> Self {
        Interval { left: Endpoint::NegInf, right: Endpoint::PosInf }
    }

    /// The interval from `left` to `right`.
    pub fn new(left: Endpoint<T>, right: Endpoint<T>) -> (r: Self)
        ensures
            r == (Interval { left, right }),
    {
        Interval { left, right }
    }

    /// Empty set.
    #[verifier::when_used_as_spec(empty_spec)]
    pub fn empty() -> (r: Self)
        ensures
            r == Self::empty_spec(),
    {
        Self::new(Endpoint::PosInf, Endpoint::NegInf)
    }

    /// Universe set.
    #[verifier::when_used_as_spec(all_spec)]
    pub fn all() -> (r: Self)
        ensures
            r == Self::all_spec(),
    {
        Self::new(Endpoint::NegInf, Endpoint::PosInf)
    }

    /// Interval [`x`, +inf).
    pub fn ge(x: T) -> (r: Self)
        ensures
            r == (Interval { left: Endpoint::Closed(x), right: Endpoint::PosInf }),
    {
        Self::new(Endpoint::Closed(x), Endpoint::PosInf)
    }

    /// Interval (-inf, `x`].
    pub fn le(x: T) -> (r: Self)
        ensures
            r == (Interval { left: Endpoint::NegInf, right: Endpoint::Closed(x) }),
    {
        Self::new(Endpoint::NegInf, Endpoint::Closed(x))
    }

    /// Interval (`x`, +inf).
    pub fn gt(x: T) -> (r: Self)
        ensures
            r == (Interval { left: Endpoint::LOpen(x), right: Endpoint::PosInf }),
    {
        Self::new(Endpoint::LOpen(x), Endpoint::PosInf)
    }

    /// Interval (-inf, `x`).
    pub fn lt(x: T) -> (r: Self)
        ensures
            r == (Interval { left: Endpoint::NegInf, right: Endpoint::ROpen(x) }),
    {
        Self::new(Endpoint::NegInf, Endpoint::ROpen(x))
    }

    /// Open interval (`left`, `right`).
    pub fn open(left: T, right: T) -> (r: Self)
        ensures
            r == (Interval { left: Endpoint::LOpen(left), right: Endpoint::ROpen(right) }),
    {
        Self::new(Endpoint::LOpen(left), Endpoint::ROpen(right))
    }

    /// Closed interval \[`left`, `right`\].
    pub fn closed(left: T, right: T) -> (r: Self)
        ensures
            r == (Interval { left: Endpoint::Closed(left), right: Endpoint::Closed(right) }),
    {
        Self::new(Endpoint::Closed(left), Endpoint::Closed(right))
    }

    /// Left-closed-right-open interval [`left`, `right`).
    pub fn lcro(left: T, right: T) -> (r: Self)
        ensures
            r == (Interval { left: Endpoint::Closed(left), right: Endpoint::ROpen(right) }),
    {
        Self::new(Endpoint::Closed(left), Endpoint::ROpen(right))
    }

    /// Left-open-right-closed interval (`left`, `right`].
    pub fn lorc(left: T, right: T) -> (r: Self)
        ensures
            r == (Interval { left: Endpoint::LOpen(left), right: Endpoint::Closed(right) }),
    {
        Self::new(Endpoint::LOpen(left), Endpoint::Closed(right))
    }
}

impl<T: Copy> Interval<T> {
    /// Interval containing only one element, acts as \[`x`, `x`\].
    pub fn only(x: T) -> (r: Self)
        ensures
            r == (Interval { left: Endpoint::Closed(x), right: Endpoint::Closed(x) }),
    {
        Self::closed(x, x)
    }
}

impl<T: PartialOrd> Interval<T> {
    /// An interval is empty when its left endpoint is greater than its right one.
    pub open spec fn is_empty_spec(&self) -> bool {
        self.left.is_gt(&self.right)
    }

    /// Emptiness where the two endpoints have an order, and `None` where they have none.
    pub open spec fn partial_is_empty_spec(&self) -> Option<bool> {
        match self.left.partial_cmp_spec(&self.right) {
            Some(o) => Some(o == Ordering::Greater),
            None => None,
        }
    }

    /// `x` belongs to the interval when `Closed(x)` lies between the two endpoints.
    pub open spec fn contains_spec(&self, x: T) -> bool {
        let v = Endpoint::Closed(x);
        v.is_ge(&self.left) && v.is_le(&self.right)
    }

    /// Whether the interval is empty.
    ///
    /// The endpoints must have an order: of an interval whose endpoints are incomparable
    /// emptiness is undefined, and `partial_is_empty` says so.
    #[verifier::when_used_as_spec(is_empty_spec)]
    pub fn is_empty(&self) -> (r: bool)
        requires
            self.left.comparable(&self.right),
        ensures
            r == self.is_empty_spec(),
    {
        self.left > self.right
    }

    /// Whether the interval is empty, or `None` where its endpoints have no order.
    pub fn partial_is_empty(&self) -> (r: Option<bool>)
        ensures
            T::obeys_partial_cmp_spec() ==> r == self.partial_is_empty_spec(),
            self.left.comparable(&self.right) ==> r == Some(self.is_empty_spec()),
    {
        match self.left.partial_cmp(&self.right) {
            Some(Ordering::Greater) => Some(true),
            Some(_) => Some(false),
            None => None,
        }
    }

    /// Whether `x` belongs to the interval.
    ///
    /// A value that is incomparable with a finite endpoint belongs to no interval. The
    /// last two clauses hold whatever the element type: nothing is in an interval that
    /// starts at `PosInf` or ends at `NegInf`, and everything is in the universe.
    #[verifier::when_used_as_spec(contains_spec)]
    pub fn contains(&self, x: T) -> (r: bool)
        ensures
            T::obeys_partial_cmp_spec() ==> r == self.contains_spec(x),
            self.left is PosInf || self.right is NegInf ==> !r,
            self.left is NegInf && self.right is PosInf ==> r,
    {
        let v = Endpoint::Closed(x);
        v >= self.left && v <= self.right
    }
}

impl<T: PartialEq> Interval<T> {
    /// Whether the interval is the universe: its endpoints are `NegInf` and `PosInf`.
    /// An interval written otherwise that happens to hold every value is not recognised.
    pub fn is_all(&self) -> (r: bool)
        ensures
            r == (self.left is NegInf && self.right is PosInf),
    {
        *self == Self::all()
    }
}

impl<T: PartialEq> PartialEq for Interval<T> {
    /// Two intervals are equal when their left endpoints are equal and their right
    /// endpoints are equal. Two empty intervals written differently are not equal.
    ///
    /// The clauses hold whatever the element type: intervals whose endpoints differ in
    /// kind are never equal, and an interval with two unbounded endpoints is equal to
    /// itself.
    fn eq(&self, other: &Self) -> (r: bool)
        ensures
            self.left.rank() != other.left.rank() ==> !r,
            self.right.rank() != other.right.rank() ==> !r,
            self.left.rank() == other.left.rank() && self.right.rank() == other.right.rank()
                && !self.left.is_finite() && !self.right.is_finite() ==> r,
    {
        self.left == other.left && self.right == other.right
    }
}

impl<T: PartialEq> vstd::std_specs::cmp::PartialEqSpecImpl for Interval<T> {
    open spec fn obeys_eq_spec() -> bool {
        T::obeys_eq_spec()
    }

    open spec fn eq_spec(&self, other: &Self) -> bool {
        &&& PartialEqSpec::eq_spec(&self.left, &other.left)
        &&& PartialEqSpec::eq_spec(&self.right, &other.right)
    }
}

impl<T: Eq> Eq for Interval<T> {}

impl<T: PartialOrd> Interval<T> {
    /// The intersection: from the greater of the left endpoints to the lesser of the
    /// right endpoints. It may be empty.
    pub open spec fn intersect_spec(self, rhs: Self) -> Self {
        Interval { left: self.left.max_spec(rhs.left), right: self.right.min_spec(rhs.right) }
    }

    /// The intersection where both pairs of endpoints have an order, and `None` where
    /// one of them has none.
    pub open spec fn partial_intersect_spec(self, rhs: Self) -> Option<Self> {
        if self.left.partial_cmp_spec(&rhs.left) is Some && self.right.partial_cmp_spec(
            &rhs.right,
        ) is Some {
            Some(self.intersect_spec(rhs))
        } else {
            None
        }
    }

    /// The intersection of two intervals, or `None` where the left endpoints or the
    /// right endpoints have no order.
    pub fn partial_intersect(self, rhs: Self) -> (r: Option<Self>)
        ensures
            T::obeys_partial_cmp_spec() ==> r == self.partial_intersect_spec(rhs),
            self.left.comparable(&rhs.left) && self.right.comparable(&rhs.right) ==> r == Some(
                self.intersect_spec(rhs),
            ),
    {
        let left = match self.left.partial_cmp(&rhs.left) {
            Some(Ordering::Greater) => self.left,
            Some(_) => rhs.left,
            None => { return None; },
        };
        let right = match self.right.partial_cmp(&rhs.right) {
            Some(Ordering::Greater) => rhs.right,
            Some(_) => self.right,
            None => { return None; },
        };
        Some(Self::new(left, right))
    }
}

impl<T: Ord> Interval<T> {
    /// The intersection of two intervals over a totally ordered element type.
    ///
    /// The result may be empty; that is an answer, not a failure. Endpoints without an
    /// order are kept out here, and `partial_intersect` answers `None` for them.
    pub fn intersect(self, rhs: Self) -> (r: Self)
        requires
            self.left.comparable(&rhs.left),
            self.right.comparable(&rhs.right),
        ensures
            r == self.intersect_spec(rhs),
    {
        Self::new(self.left.max(rhs.left), self.right.min(rhs.right))
    }
}

impl<T: Eq + PartialOrd> Interval<T> {
    /// The subset order: `Less` reads "is a subset of".
    ///
    /// Two empty intervals are equal in this order however they are written; so are two
    /// intervals with equal endpoints. Otherwise the interval whose endpoints lie within
    /// the other's is the lesser, and two intervals of which neither lies within the
    /// other have no order.
    pub open spec fn subset_cmp_spec(&self, other: &Self) -> Option<Ordering> {
        if self.is_empty_spec() && other.is_empty_spec() {
            Some(Ordering::Equal)
        } else if PartialEqSpec::eq_spec(&self.left, &other.left) && PartialEqSpec::eq_spec(
            &self.right,
            &other.right,
        ) {
            Some(Ordering::Equal)
        } else if self.left.is_ge(&other.left) && self.right.is_le(&other.right) {
            Some(Ordering::Less)
        } else if self.left.is_le(&other.left) && self.right.is_ge(&other.right) {
            Some(Ordering::Greater)
        } else {
            None
        }
    }

    /// Compares two intervals in the subset order.
    pub fn subset_cmp(&self, other: &Self) -> (r: Option<Ordering>)
        ensures
            T::obeys_eq_spec() && T::obeys_partial_cmp_spec() ==> r == self.subset_cmp_spec(
                other,
            ),
    {
        if self.left > self.right && other.left > other.right {
            return Some(Ordering::Equal);
        }
        if self.left == other.left && self.right == other.right {
            return Some(Ordering::Equal);
        }
        if self.left >= other.left && self.right <= other.right {
            return Some(Ordering::Less);
        }
        if self.left <= other.left && self.right >= other.right {
            return Some(Ordering::Greater);
        }
        None
    }
}

impl<T: Eq + PartialOrd> PartialOrd for Interval<T> {
    /// The subset order, so that `a <= b` reads "`a` is a subset of `b`".
    fn partial_cmp(&self, other: &Self) -> (r: Option<Ordering>) {
        self.subset_cmp(other)
    }
}

impl<T: Eq + PartialOrd> vstd::std_specs::cmp::PartialOrdSpecImpl for Interval<T> {
    open spec fn obeys_partial_cmp_spec() -> bool {
        T::obeys_eq_spec() && T::obeys_partial_cmp_spec()
    }

    open spec fn partial_cmp_spec(&self, other: &Self) -> Option<Ordering> {
        self.subset_cmp_spec(other)
    }
}

} // verus!
