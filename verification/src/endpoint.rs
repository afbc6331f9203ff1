//! Endpoints of intervals and their order.
//!
//! An open endpoint is placed an infinitesimal step beside its value: `LOpen(x)` just
//! after `x`, `ROpen(x)` just before it. With the two unbounded endpoints beyond every
//! value, comparing endpoints is all that the interval operations need.

use core::cmp::Ordering;
use vstd::prelude::*;
use vstd::std_specs::cmp::{PartialEqSpec, PartialOrdSpec};

verus! {

/// One boundary of an interval.
#[derive(Clone, Copy, Debug)]
pub enum Endpoint<T> {
    /// The boundary value belongs to the interval.
    Closed(T),
    /// The boundary value is left out, and the interval starts just after it.
    LOpen(T),
    /// The boundary value is left out, and the interval ends just before it.
    ROpen(T),
    /// Unbounded above.
    PosInf,
    /// Unbounded below.
    NegInf,
}

/// The order of the integers `a` and `b`.
pub open spec fn int_order(a: int, b: int) -> Ordering {
    if a < b {
        Ordering::Less
    } else if a == b {
        Ordering::Equal
    } else {
        Ordering::Greater
    }
}

/// The order of two positions whose values compare as `value_order`, where `eq_fallback`
/// decides between positions of equal value.
pub open spec fn tie_break(value_order: Option<Ordering>, eq_fallback: Ordering) -> Option<
    Ordering,
> {
    match value_order {
        Some(Ordering::Equal) => Some(eq_fallback),
        _ => value_order,
    }
}

/// Compares `x` with `y` and answers `eq_fallback` in place of "equal".
///
/// The second clause holds of every element type, also of one whose comparison Verus
/// knows nothing about: the answer is the tie break of something that `partial_cmp` may
/// return on these two values.
pub fn cmp_or<T: PartialOrd>(x: T, y: T, eq_fallback: Ordering) -> (r: Option<Ordering>)
    ensures
        T::obeys_partial_cmp_spec() ==> r == tie_break(x.partial_cmp_spec(&y), eq_fallback),
        exists|o: Option<Ordering>| #[trigger]
            call_ensures(T::partial_cmp, (&x, &y), o) && r == tie_break(o, eq_fallback),
{
    let o = x.partial_cmp(&y);
    match o {
        Some(Ordering::Equal) => Some(eq_fallback),
        _ => o,
    }
}

impl<T> Endpoint<T> {
    /// Whether the endpoint wraps a value.
    pub open spec fn is_finite(self) -> bool {
        self is Closed || self is LOpen || self is ROpen
    }

    /// The wrapped value of a finite endpoint.
    pub open spec fn value(self) -> T
        recommends
            self.is_finite(),
    {
        match self {
            Endpoint::Closed(x) => x,
            Endpoint::LOpen(x) => x,
            Endpoint::ROpen(x) => x,
            _ => arbitrary(),
        }
    }

    /// Where the endpoint stands beside its value: `-1` just before it, `0` on it, `1`
    /// just after it; the unbounded endpoints stand at `-2` and `2`, beyond all of these.
    pub open spec fn rank(self) -> int {
        match self {
            Endpoint::NegInf => -2,
            Endpoint::ROpen(_) => -1,
            Endpoint::Closed(_) => 0,
            Endpoint::LOpen(_) => 1,
            Endpoint::PosInf => 2,
        }
    }
}

impl<T: PartialEq> PartialEq for Endpoint<T> {
    /// Two endpoints are equal when they are of the same kind and wrap equal values.
    ///
    /// The two clauses hold whatever the element type: endpoints of different kinds are
    /// never equal, and an unbounded endpoint is equal to itself.
    fn eq(&self, other: &Self) -> (r: bool)
        ensures
            self.rank() != other.rank() ==> !r,
            self.rank() == other.rank() && !self.is_finite() ==> r,
    {
        match (self, other) {
            (Endpoint::Closed(x), Endpoint::Closed(y)) => x.eq(y),
            (Endpoint::LOpen(x), Endpoint::LOpen(y)) => x.eq(y),
            (Endpoint::ROpen(x), Endpoint::ROpen(y)) => x.eq(y),
            (Endpoint::PosInf, Endpoint::PosInf) => true,
            (Endpoint::NegInf, Endpoint::NegInf) => true,
            _ => false,
        }
    }
}

impl<T: PartialEq> vstd::std_specs::cmp::PartialEqSpecImpl for Endpoint<T> {
    open spec fn obeys_eq_spec() -> bool {
        T::obeys_eq_spec()
    }

    open spec fn eq_spec(&self, other: &Self) -> bool {
        &&& self.rank() == other.rank()
        &&& self.is_finite() ==> self.value().eq_spec(&other.value())
    }
}

impl<T: Eq> Eq for Endpoint<T> {}

impl<T: PartialOrd> PartialOrd for Endpoint<T> {
    /// Compares two endpoints by position.
    ///
    /// A comparison with an unbounded endpoint never looks at a value, so its answer is
    /// fixed whatever the element type; that is the added clause.
    fn partial_cmp(&self, other: &Self) -> (r: Option<Ordering>)
        ensures
            !(self.is_finite() && other.is_finite()) ==> r == Some(
                int_order(self.rank(), other.rank()),
            ),
    {
        match (self, other) {
            (Endpoint::Closed(x), Endpoint::Closed(y)) => x.partial_cmp(y),
            (Endpoint::LOpen(x), Endpoint::LOpen(y)) => x.partial_cmp(y),
            (Endpoint::ROpen(x), Endpoint::ROpen(y)) => x.partial_cmp(y),
            (Endpoint::Closed(x), Endpoint::LOpen(y)) => cmp_or(x, y, Ordering::Less),
            (Endpoint::Closed(x), Endpoint::ROpen(y)) => cmp_or(x, y, Ordering::Greater),
            (Endpoint::LOpen(x), Endpoint::Closed(y)) => cmp_or(x, y, Ordering::Greater),
            (Endpoint::LOpen(x), Endpoint::ROpen(y)) => cmp_or(x, y, Ordering::Greater),
            (Endpoint::ROpen(x), Endpoint::Closed(y)) => cmp_or(x, y, Ordering::Less),
            (Endpoint::ROpen(x), Endpoint::LOpen(y)) => cmp_or(x, y, Ordering::Less),
            (Endpoint::PosInf, Endpoint::PosInf) => Some(Ordering::Equal),
            (Endpoint::NegInf, Endpoint::NegInf) => Some(Ordering::Equal),
            (Endpoint::PosInf, _) => Some(Ordering::Greater),
            (Endpoint::NegInf, _) => Some(Ordering::Less),
            (_, Endpoint::PosInf) => Some(Ordering::Less),
            (_, Endpoint::NegInf) => Some(Ordering::Greater),
        }
    }
}

impl<T: PartialOrd> vstd::std_specs::cmp::PartialOrdSpecImpl for Endpoint<T> {
    open spec fn obeys_partial_cmp_spec() -> bool {
        T::obeys_partial_cmp_spec()
    }

    /// Finite endpoints compare by value first and by rank among equal values; an
    /// unbounded endpoint compares by rank alone.
    open spec fn partial_cmp_spec(&self, other: &Self) -> Option<Ordering> {
        if self.is_finite() && other.is_finite() {
            tie_break(
                self.value().partial_cmp_spec(&other.value()),
                int_order(self.rank(), other.rank()),
            )
        } else {
            Some(int_order(self.rank(), other.rank()))
        }
    }
}

impl<T: PartialOrd> Endpoint<T> {
    /// Whether the order of `self` and `other` is known to be defined: one of them is
    /// unbounded, or the element type compares as its specification says and the two
    /// values are comparable.
    pub open spec fn comparable(&self, other: &Self) -> bool {
        self.is_finite() && other.is_finite() ==> T::obeys_partial_cmp_spec()
            && self.value().partial_cmp_spec(&other.value()) is Some
    }

    /// The greater of two endpoints: `self` where it is the greater one, else `other`.
    pub open spec fn max_spec(self, other: Self) -> Self {
        if self.partial_cmp_spec(&other) == Some(Ordering::Greater) {
            self
        } else {
            other
        }
    }

    /// The lesser of two endpoints: `other` where `self` is the greater one, else `self`.
    pub open spec fn min_spec(self, other: Self) -> Self {
        if self.partial_cmp_spec(&other) == Some(Ordering::Greater) {
            other
        } else {
            self
        }
    }
}

impl<T: Ord> Endpoint<T> {
    /// The order of two endpoints of a totally ordered element type.
    ///
    /// Endpoints whose values are incomparable have no order; they are kept out here, and
    /// `partial_cmp` answers `None` for them.
    pub fn cmp(&self, other: &Self) -> (r: Ordering)
        requires
            self.comparable(other),
        ensures
            self.partial_cmp_spec(other) == Some(r),
    {
        self.partial_cmp(other).unwrap()
    }

    /// The greater of two endpoints, and `other` if they are equal.
    pub fn max(self, other: Self) -> (r: Self)
        requires
            self.comparable(&other),
        ensures
            r == self.max_spec(other),
    {
        match self.cmp(&other) {
            Ordering::Greater => self,
            _ => other,
        }
    }

    /// The lesser of two endpoints, and `self` if they are equal.
    pub fn min(self, other: Self) -> (r: Self)
        requires
            self.comparable(&other),
        ensures
            r == self.min_spec(other),
    {
        match self.cmp(&other) {
            Ordering::Greater => other,
            _ => self,
        }
    }
}

} // verus!
