//! What holds of the order of endpoints.
//!
//! The first lemmas ask nothing of the element type. The later ones take an element
//! type that is totally ordered (`vstd::laws_cmp::obeys_cmp`) and show that its
//! endpoints are totally ordered too.

use crate::endpoint::{int_order, Endpoint};
use core::cmp::Ordering;
use vstd::laws_cmp::{
    obeys_cmp, obeys_cmp_ord, obeys_cmp_partial_ord, obeys_partial_cmp_spec_properties,
};
use vstd::laws_eq::obeys_eq_spec_properties;
use vstd::prelude::*;
use vstd::std_specs::cmp::{PartialEqSpec, PartialOrdIs, PartialOrdSpec};

verus! {

/// Two finite endpoints whose values are not equal are ordered as their values are,
/// whatever their kinds; where the values have no order, the endpoints have none.
pub proof fn lemma_unequal_values_decide<T: PartialOrd>(a: Endpoint<T>, b: Endpoint<T>)
    requires
        a.is_finite(),
        b.is_finite(),
        a.value().partial_cmp_spec(&b.value()) != Some(Ordering::Equal),
    ensures
        a.partial_cmp_spec(&b) == a.value().partial_cmp_spec(&b.value()),
{
}

/// For `x < y`, every endpoint that wraps `x` is less than every endpoint that wraps `y`.
pub proof fn lemma_lesser_value_lesser_endpoint<T: PartialOrd>(a: Endpoint<T>, b: Endpoint<T>)
    requires
        a.is_finite(),
        b.is_finite(),
        a.value().is_lt(&b.value()),
    ensures
        a.is_lt(&b),
{
}

/// Two finite endpoints of equal values are ordered by rank alone: `ROpen` before
/// `Closed` before `LOpen`, and each kind equal to itself.
pub proof fn lemma_equal_values_rank_decides<T: PartialOrd>(a: Endpoint<T>, b: Endpoint<T>)
    requires
        a.is_finite(),
        b.is_finite(),
        a.value().partial_cmp_spec(&b.value()) == Some(Ordering::Equal),
    ensures
        a.partial_cmp_spec(&b) == Some(int_order(a.rank(), b.rank())),
{
}

/// Around a value `x` that is equal to itself the endpoints form a strict chain:
/// `NegInf < ROpen(x) < Closed(x) < LOpen(x) < PosInf`.
pub proof fn lemma_strict_chain<T: PartialOrd>(x: T)
    requires
        x.partial_cmp_spec(&x) == Some(Ordering::Equal),
    ensures
        Endpoint::<T>::NegInf.is_lt(&Endpoint::ROpen(x)),
        Endpoint::ROpen(x).is_lt(&Endpoint::Closed(x)),
        Endpoint::Closed(x).is_lt(&Endpoint::LOpen(x)),
        Endpoint::ROpen(x).is_lt(&Endpoint::LOpen(x)),
        Endpoint::LOpen(x).is_lt(&Endpoint::<T>::PosInf),
{
}

/// `PosInf` is greater than every other endpoint and equal only to itself; `NegInf` is
/// less than every other endpoint and equal only to itself. No value is looked at.
pub proof fn lemma_infinities_are_extreme<T: PartialOrd>(e: Endpoint<T>)
    ensures
        Endpoint::<T>::PosInf.partial_cmp_spec(&e) == Some(
            if e is PosInf {
                Ordering::Equal
            } else {
                Ordering::Greater
            },
        ),
        e.partial_cmp_spec(&Endpoint::<T>::PosInf) == Some(
            if e is PosInf {
                Ordering::Equal
            } else {
                Ordering::Less
            },
        ),
        Endpoint::<T>::NegInf.partial_cmp_spec(&e) == Some(
            if e is NegInf {
                Ordering::Equal
            } else {
                Ordering::Less
            },
        ),
        e.partial_cmp_spec(&Endpoint::<T>::NegInf) == Some(
            if e is NegInf {
                Ordering::Equal
            } else {
                Ordering::Greater
            },
        ),
        PartialEqSpec::eq_spec(&Endpoint::<T>::PosInf, &e) <==> e is PosInf,
        PartialEqSpec::eq_spec(&Endpoint::<T>::NegInf, &e) <==> e is NegInf,
{
}

/// The facts about a totally ordered element type that the lemmas below build on.
proof fn lemma_value_order<T: Ord>(x: T, y: T, z: T)
    requires
        obeys_cmp::<T>(),
    ensures
        T::obeys_eq_spec(),
        T::obeys_partial_cmp_spec(),
        x.partial_cmp_spec(&y) is Some,
        x.partial_cmp_spec(&x) == Some(Ordering::Equal),
        x.partial_cmp_spec(&y) == Some(Ordering::Equal) <==> x.eq_spec(&y),
        x.is_lt(&y) <==> y.is_gt(&x),
        x.is_gt(&y) <==> y.is_lt(&x),
        x.partial_cmp_spec(&y) == Some(Ordering::Equal) <==> y.partial_cmp_spec(&x) == Some(
            Ordering::Equal,
        ),
        x.is_le(&y) && y.is_le(&z) ==> x.is_le(&z),
        x.is_lt(&y) && y.is_le(&z) ==> x.is_lt(&z),
        x.is_le(&y) && y.is_lt(&z) ==> x.is_lt(&z),
{
    reveal(obeys_eq_spec_properties);
    reveal(obeys_partial_cmp_spec_properties);
    reveal(obeys_cmp_partial_ord);
    reveal(obeys_cmp_ord);
}

/// Over a totally ordered element type every two endpoints have an order.
pub proof fn lemma_total<T: Ord>(a: Endpoint<T>, b: Endpoint<T>)
    requires
        obeys_cmp::<T>(),
    ensures
        a.comparable(&b),
        a.partial_cmp_spec(&b) is Some,
{
    lemma_value_order(a.value(), b.value(), b.value());
}

/// Over a totally ordered element type every endpoint is equal to itself in the order.
pub proof fn lemma_reflexive<T: Ord>(a: Endpoint<T>)
    requires
        obeys_cmp::<T>(),
    ensures
        a.partial_cmp_spec(&a) == Some(Ordering::Equal),
{
    lemma_value_order(a.value(), a.value(), a.value());
}

/// Over a totally ordered element type, turning a comparison round turns its answer
/// round: `a < b` exactly when `b > a`, and `a` equals `b` exactly when `b` equals `a`.
pub proof fn lemma_converse<T: Ord>(a: Endpoint<T>, b: Endpoint<T>)
    requires
        obeys_cmp::<T>(),
    ensures
        a.is_lt(&b) <==> b.is_gt(&a),
        a.is_gt(&b) <==> b.is_lt(&a),
        a.partial_cmp_spec(&b) == Some(Ordering::Equal) <==> b.partial_cmp_spec(&a) == Some(
            Ordering::Equal,
        ),
{
    lemma_value_order(b.value(), a.value(), b.value());
}

/// Over a totally ordered element type, two endpoints are equal in the order exactly
/// when `==` holds of them.
pub proof fn lemma_equal_iff_eq<T: Ord>(a: Endpoint<T>, b: Endpoint<T>)
    requires
        obeys_cmp::<T>(),
    ensures
        a.partial_cmp_spec(&b) == Some(Ordering::Equal) <==> PartialEqSpec::eq_spec(&a, &b),
{
    lemma_value_order(a.value(), b.value(), a.value());
}

/// Over a totally ordered element type the order of endpoints is transitive, and
/// strictly so where one of the two steps is strict.
pub proof fn lemma_transitive<T: Ord>(a: Endpoint<T>, b: Endpoint<T>, c: Endpoint<T>)
    requires
        obeys_cmp::<T>(),
        a.is_le(&b),
        b.is_le(&c),
    ensures
        a.is_le(&c),
        a.is_lt(&b) || b.is_lt(&c) ==> a.is_lt(&c),
{
    lemma_value_order(a.value(), b.value(), c.value());
}

/// Over a totally ordered element type `max_spec` is the least upper bound: an endpoint
/// is at or above the maximum of two exactly when it is at or above both.
pub proof fn lemma_max_is_least_upper_bound<T: Ord>(
    a: Endpoint<T>,
    b: Endpoint<T>,
    v: Endpoint<T>,
)
    requires
        obeys_cmp::<T>(),
    ensures
        a.max_spec(b) == a || a.max_spec(b) == b,
        a.is_le(&a.max_spec(b)),
        b.is_le(&a.max_spec(b)),
        v.is_ge(&a.max_spec(b)) <==> v.is_ge(&a) && v.is_ge(&b),
{
    lemma_total(a, b);
    lemma_converse(a, b);
    lemma_reflexive(a);
    lemma_reflexive(b);
    lemma_converse(v, a);
    lemma_converse(v, b);
    if a.is_le(&b) && b.is_le(&v) {
        lemma_transitive(a, b, v);
    }
    if b.is_le(&a) && a.is_le(&v) {
        lemma_transitive(b, a, v);
    }
}

/// Over a totally ordered element type `min_spec` is the greatest lower bound: an
/// endpoint is at or below the minimum of two exactly when it is at or below both.
pub proof fn lemma_min_is_greatest_lower_bound<T: Ord>(
    a: Endpoint<T>,
    b: Endpoint<T>,
    v: Endpoint<T>,
)
    requires
        obeys_cmp::<T>(),
    ensures
        a.min_spec(b) == a || a.min_spec(b) == b,
        a.min_spec(b).is_le(&a),
        a.min_spec(b).is_le(&b),
        v.is_le(&a.min_spec(b)) <==> v.is_le(&a) && v.is_le(&b),
{
    lemma_total(a, b);
    lemma_converse(a, b);
    lemma_reflexive(a);
    lemma_reflexive(b);
    if v.is_le(&a) && a.is_le(&b) {
        lemma_transitive(v, a, b);
    }
    if v.is_le(&b) && b.is_le(&a) {
        lemma_transitive(v, b, a);
    }
}

/// Over a totally ordered element type `max_spec` and `min_spec` do not depend on the
/// order of their arguments, up to `==`: where the two endpoints are equal the one call
/// answers the first and the other the second.
pub proof fn lemma_max_min_commute<T: Ord>(a: Endpoint<T>, b: Endpoint<T>)
    requires
        obeys_cmp::<T>(),
    ensures
        PartialEqSpec::eq_spec(&a.max_spec(b), &b.max_spec(a)),
        PartialEqSpec::eq_spec(&a.min_spec(b), &b.min_spec(a)),
{
    lemma_total(a, b);
    lemma_converse(a, b);
    lemma_reflexive(a);
    lemma_reflexive(b);
    lemma_equal_iff_eq(a, a);
    lemma_equal_iff_eq(b, b);
    lemma_equal_iff_eq(a, b);
    lemma_equal_iff_eq(b, a);
}

} // verus!
