//! What holds of intersection, membership and the subset order.
//!
//! The lemmas that take a totally ordered element type (`vstd::laws_cmp::obeys_cmp`)
//! say what the operations mean for the values that an interval holds.

use crate::endpoint::Endpoint;
use crate::endpoint_laws::{
    lemma_converse, lemma_equal_iff_eq, lemma_max_is_least_upper_bound, lemma_max_min_commute,
    lemma_min_is_greatest_lower_bound, lemma_transitive,
};
use crate::interval::Interval;
use core::cmp::Ordering;
use vstd::laws_cmp::obeys_cmp;
use vstd::laws_eq::obeys_concrete_eq;
use vstd::prelude::*;
use vstd::std_specs::cmp::{PartialEqSpec, PartialOrdIs, PartialOrdSpec};

verus! {

/// Membership means what the bracket notation says, for every kind of boundary and
/// whatever the element type: a closed boundary admits its value, an open one does not,
/// and an unbounded one admits everything on its side.
pub proof fn lemma_contains_reads_the_brackets<T: PartialOrd>(l: T, r: T, x: T)
    ensures
        (Interval { left: Endpoint::Closed(l), right: Endpoint::Closed(r) }).contains_spec(x)
            <==> x.is_ge(&l) && x.is_le(&r),
        (Interval { left: Endpoint::LOpen(l), right: Endpoint::ROpen(r) }).contains_spec(x)
            <==> x.is_gt(&l) && x.is_lt(&r),
        (Interval { left: Endpoint::Closed(l), right: Endpoint::ROpen(r) }).contains_spec(x)
            <==> x.is_ge(&l) && x.is_lt(&r),
        (Interval { left: Endpoint::LOpen(l), right: Endpoint::Closed(r) }).contains_spec(x)
            <==> x.is_gt(&l) && x.is_le(&r),
        (Interval { left: Endpoint::Closed(l), right: Endpoint::PosInf }).contains_spec(x)
            <==> x.is_ge(&l),
        (Interval { left: Endpoint::LOpen(l), right: Endpoint::PosInf }).contains_spec(x)
            <==> x.is_gt(&l),
        (Interval { left: Endpoint::NegInf, right: Endpoint::Closed(r) }).contains_spec(x)
            <==> x.is_le(&r),
        (Interval { left: Endpoint::NegInf, right: Endpoint::ROpen(r) }).contains_spec(x)
            <==> x.is_lt(&r),
        Interval::<T>::all().contains_spec(x),
        !Interval::<T>::empty().contains_spec(x),
{
}

/// Intersecting an interval with itself gives the same interval back, endpoint for
/// endpoint.
pub proof fn lemma_intersect_idempotent<T: PartialOrd>(a: Interval<T>)
    ensures
        a.intersect_spec(a) == a,
{
}

/// Over a totally ordered element type intersection is commutative: the two results are
/// equal intervals, and the very same where equal values are the same value.
pub proof fn lemma_intersect_commutative<T: Ord>(a: Interval<T>, b: Interval<T>)
    requires
        obeys_cmp::<T>(),
    ensures
        PartialEqSpec::eq_spec(&a.intersect_spec(b), &b.intersect_spec(a)),
        obeys_concrete_eq::<T>() ==> a.intersect_spec(b) == b.intersect_spec(a),
{
    reveal(obeys_concrete_eq);
    lemma_max_min_commute(a.left, b.left);
    lemma_max_min_commute(a.right, b.right);
}

/// The intersection with the empty interval, on either side, is the empty interval.
pub proof fn lemma_intersect_empty<T: PartialOrd>(a: Interval<T>)
    ensures
        a.intersect_spec(Interval::empty()) == Interval::<T>::empty(),
        Interval::<T>::empty().intersect_spec(a) == Interval::<T>::empty(),
        a.intersect_spec(Interval::empty()).is_empty_spec(),
        Interval::<T>::empty().intersect_spec(a).is_empty_spec(),
{
}

/// The intersection with the universe, on either side, is the interval itself, endpoint
/// for endpoint.
pub proof fn lemma_intersect_all<T: PartialOrd>(a: Interval<T>)
    ensures
        a.intersect_spec(Interval::all()) == a,
        Interval::<T>::all().intersect_spec(a) == a,
{
}

/// Over a totally ordered element type a value belongs to the intersection of two
/// intervals exactly when it belongs to both.
pub proof fn lemma_intersect_contains<T: Ord>(a: Interval<T>, b: Interval<T>, x: T)
    requires
        obeys_cmp::<T>(),
    ensures
        a.intersect_spec(b).contains_spec(x) <==> a.contains_spec(x) && b.contains_spec(x),
{
    lemma_max_is_least_upper_bound(a.left, b.left, Endpoint::Closed(x));
    lemma_min_is_greatest_lower_bound(a.right, b.right, Endpoint::Closed(x));
}

/// Over a totally ordered element type an empty interval holds no value.
pub proof fn lemma_empty_contains_nothing<T: Ord>(a: Interval<T>, x: T)
    requires
        obeys_cmp::<T>(),
        a.is_empty_spec(),
    ensures
        !a.contains_spec(x),
{
    let v = Endpoint::Closed(x);
    lemma_converse(v, a.left);
    if a.left.is_le(&v) && v.is_le(&a.right) {
        lemma_transitive(a.left, v, a.right);
    }
}

/// Over a totally ordered element type the subset order tells the truth about
/// membership: every value of the lesser interval belongs to the greater one, and two
/// intervals that are equal in the order hold the same values.
pub proof fn lemma_subset_cmp_sound<T: Ord>(a: Interval<T>, b: Interval<T>, x: T)
    requires
        obeys_cmp::<T>(),
    ensures
        a.subset_cmp_spec(&b) == Some(Ordering::Less) && a.contains_spec(x) ==> b.contains_spec(
            x,
        ),
        a.subset_cmp_spec(&b) == Some(Ordering::Greater) && b.contains_spec(x)
            ==> a.contains_spec(x),
        a.subset_cmp_spec(&b) == Some(Ordering::Equal) ==> (a.contains_spec(x)
            <==> b.contains_spec(x)),
{
    let v = Endpoint::Closed(x);
    if a.is_empty_spec() {
        lemma_empty_contains_nothing(a, x);
    }
    if b.is_empty_spec() {
        lemma_empty_contains_nothing(b, x);
    }
    lemma_equal_iff_eq(a.left, b.left);
    lemma_equal_iff_eq(a.right, b.right);
    lemma_converse(a.left, b.left);
    lemma_converse(a.right, b.right);
    lemma_converse(v, a.left);
    lemma_converse(v, b.left);
    if a.left.is_le(&b.left) && b.left.is_le(&v) {
        lemma_transitive(a.left, b.left, v);
    }
    if b.left.is_le(&a.left) && a.left.is_le(&v) {
        lemma_transitive(b.left, a.left, v);
    }
    if v.is_le(&a.right) && a.right.is_le(&b.right) {
        lemma_transitive(v, a.right, b.right);
    }
    if v.is_le(&b.right) && b.right.is_le(&a.right) {
        lemma_transitive(v, b.right, a.right);
    }
}

/// Over a totally ordered element type, turning a subset comparison round turns its
/// answer round, and two intervals that have no order one way have none the other way.
pub proof fn lemma_subset_cmp_converse<T: Ord>(a: Interval<T>, b: Interval<T>)
    requires
        obeys_cmp::<T>(),
    ensures
        a.subset_cmp_spec(&b) == Some(Ordering::Less) <==> b.subset_cmp_spec(&a) == Some(
            Ordering::Greater,
        ),
        a.subset_cmp_spec(&b) == Some(Ordering::Equal) <==> b.subset_cmp_spec(&a) == Some(
            Ordering::Equal,
        ),
        a.subset_cmp_spec(&b) is None <==> b.subset_cmp_spec(&a) is None,
{
    lemma_converse(a.left, b.left);
    lemma_converse(a.right, b.right);
    lemma_equal_iff_eq(a.left, b.left);
    lemma_equal_iff_eq(a.right, b.right);
    lemma_equal_iff_eq(b.left, a.left);
    lemma_equal_iff_eq(b.right, a.right);
}

/// Over a totally ordered element type "is a proper subset of" is transitive.
pub proof fn lemma_subset_cmp_less_transitive<T: Ord>(
    a: Interval<T>,
    b: Interval<T>,
    c: Interval<T>,
)
    requires
        obeys_cmp::<T>(),
        a.subset_cmp_spec(&b) == Some(Ordering::Less),
        b.subset_cmp_spec(&c) == Some(Ordering::Less),
    ensures
        a.subset_cmp_spec(&c) == Some(Ordering::Less),
{
    lemma_converse(a.left, b.left);
    lemma_converse(b.left, c.left);
    lemma_converse(a.left, c.left);
    lemma_converse(a.right, c.right);
    lemma_converse(c.left, c.right);
    lemma_converse(b.left, b.right);
    lemma_equal_iff_eq(a.left, b.left);
    lemma_equal_iff_eq(a.right, b.right);
    lemma_equal_iff_eq(a.left, c.left);
    lemma_equal_iff_eq(a.right, c.right);
    lemma_transitive(c.left, b.left, a.left);
    lemma_transitive(a.right, b.right, c.right);
    if c.is_empty_spec() {
        lemma_transitive(c.right, c.left, b.left);
        lemma_transitive(b.right, c.right, b.left);
    }
}

} // verus!
