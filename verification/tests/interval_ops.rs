use interva::{Endpoint, Interval};
use std::cmp::Ordering;

fn sample() -> Vec<Interval<i32>> {
    vec![
        Interval::empty(),
        Interval::all(),
        Interval::ge(2),
        Interval::le(2),
        Interval::gt(2),
        Interval::lt(2),
        Interval::open(1, 3),
        Interval::closed(1, 3),
        Interval::lcro(1, 3),
        Interval::lorc(1, 3),
        Interval::only(2),
        Interval::open(1, 1),
        Interval::closed(3, 1),
        Interval::closed(2, 4),
        Interval::open(0, 2),
        Interval::lorc(3, 5),
    ]
}

#[test]
fn factories_build_the_documented_endpoints() {
    let e = Interval::<i32>::empty();
    assert!(e.left == Endpoint::PosInf && e.right == Endpoint::NegInf);
    let u = Interval::<i32>::all();
    assert!(u.left == Endpoint::NegInf && u.right == Endpoint::PosInf);
    let i = Interval::ge(4);
    assert!(i.left == Endpoint::Closed(4) && i.right == Endpoint::PosInf);
    let i = Interval::le(4);
    assert!(i.left == Endpoint::NegInf && i.right == Endpoint::Closed(4));
    let i = Interval::gt(4);
    assert!(i.left == Endpoint::LOpen(4) && i.right == Endpoint::PosInf);
    let i = Interval::lt(4);
    assert!(i.left == Endpoint::NegInf && i.right == Endpoint::ROpen(4));
    let i = Interval::open(4, 6);
    assert!(i.left == Endpoint::LOpen(4) && i.right == Endpoint::ROpen(6));
    let i = Interval::closed(4, 6);
    assert!(i.left == Endpoint::Closed(4) && i.right == Endpoint::Closed(6));
    let i = Interval::lcro(4, 6);
    assert!(i.left == Endpoint::Closed(4) && i.right == Endpoint::ROpen(6));
    let i = Interval::lorc(4, 6);
    assert!(i.left == Endpoint::LOpen(4) && i.right == Endpoint::Closed(6));
    let i = Interval::only(4);
    assert!(i.left == Endpoint::Closed(4) && i.right == Endpoint::Closed(4));
    let i = Interval::new(Endpoint::ROpen(4), Endpoint::LOpen(6));
    assert!(i.left == Endpoint::ROpen(4) && i.right == Endpoint::LOpen(6));
}

#[test]
fn is_empty_compares_the_two_endpoints() {
    assert!(Interval::<i32>::empty().is_empty());
    assert!(!Interval::<i32>::all().is_empty());
    assert!(Interval::open(1, 1).is_empty());
    assert!(Interval::lcro(1, 1).is_empty());
    assert!(Interval::lorc(1, 1).is_empty());
    assert!(!Interval::only(1).is_empty());
    assert!(!Interval::closed(1, 1).is_empty());
    assert!(Interval::closed(2, 1).is_empty());
    assert!(!Interval::open(1, 2).is_empty());
    assert!(!Interval::ge(1).is_empty());
    assert!(!Interval::lt(1).is_empty());
    assert!(Interval::<i32>::new(Endpoint::PosInf, Endpoint::PosInf).is_empty() == false);
    assert!(Interval::new(Endpoint::PosInf, Endpoint::Closed(1)).is_empty());
    assert!(Interval::new(Endpoint::Closed(1), Endpoint::NegInf).is_empty());
}

#[test]
fn partial_is_empty_agrees_with_is_empty_where_defined() {
    for i in sample() {
        assert_eq!(i.partial_is_empty(), Some(i.is_empty()));
    }
    assert_eq!(Interval::open(1.0, 1.0).partial_is_empty(), Some(true));
    assert_eq!(Interval::closed(1.0, 2.0).partial_is_empty(), Some(false));
}

#[test]
fn partial_is_empty_is_none_for_incomparable_endpoints() {
    assert_eq!(Interval::closed(f64::NAN, 1.0).partial_is_empty(), None);
    assert_eq!(Interval::open(0.0, f64::NAN).partial_is_empty(), None);
    assert_eq!(Interval::ge(f64::NAN).partial_is_empty(), Some(false));
    assert_eq!(Interval::lt(f64::NAN).partial_is_empty(), Some(false));
}

#[test]
fn is_all_recognises_only_the_universe_pair() {
    assert!(Interval::<i32>::all().is_all());
    assert!(Interval::<i32>::new(Endpoint::NegInf, Endpoint::PosInf).is_all());
    assert!(Interval::<f64>::all().is_all());
    assert!(!Interval::<i32>::empty().is_all());
    assert!(!Interval::ge(i32::MIN).is_all());
    assert!(!Interval::le(i32::MAX).is_all());
    assert!(!Interval::closed(i32::MIN, i32::MAX).is_all());
    assert!(!Interval::<i32>::new(Endpoint::NegInf, Endpoint::NegInf).is_all());
}

#[test]
fn closed_interval_contains_its_bound_and_open_does_not() {
    assert!(Interval::closed(1.5, 1.7).contains(1.7));
    assert!(!Interval::open(1.5, 1.7).contains(1.7));
    assert!(Interval::closed(1.5, 1.7) / 1.7);
    assert!(!(Interval::open(1.5, 1.7) / 1.7));
    assert!(&Interval::closed(1.5, 1.7) / 1.5);
    assert!(!(&Interval::open(1.5, 1.7) / 1.5));
}

#[test]
fn contains_handles_every_kind_of_boundary() {
    let inside = |i: Interval<i32>| -> Vec<i32> { (0..=4).filter(|x| i.contains(*x)).collect() };
    assert_eq!(inside(Interval::closed(1, 3)), vec![1, 2, 3]);
    assert_eq!(inside(Interval::open(1, 3)), vec![2]);
    assert_eq!(inside(Interval::lcro(1, 3)), vec![1, 2]);
    assert_eq!(inside(Interval::lorc(1, 3)), vec![2, 3]);
    assert_eq!(inside(Interval::only(2)), vec![2]);
    assert_eq!(inside(Interval::ge(2)), vec![2, 3, 4]);
    assert_eq!(inside(Interval::gt(2)), vec![3, 4]);
    assert_eq!(inside(Interval::le(2)), vec![0, 1, 2]);
    assert_eq!(inside(Interval::lt(2)), vec![0, 1]);
    assert_eq!(inside(Interval::all()), vec![0, 1, 2, 3, 4]);
    assert_eq!(inside(Interval::empty()), Vec::<i32>::new());
    assert_eq!(inside(Interval::open(2, 2)), Vec::<i32>::new());
    assert_eq!(inside(Interval::closed(3, 1)), Vec::<i32>::new());
}

#[test]
fn incomparable_value_belongs_only_to_the_universe() {
    assert!(!Interval::closed(0.0, 1.0).contains(f64::NAN));
    assert!(!Interval::ge(0.0).contains(f64::NAN));
    assert!(!Interval::lt(0.0).contains(f64::NAN));
    assert!(!Interval::<f64>::empty().contains(f64::NAN));
    assert!(Interval::<f64>::all().contains(f64::NAN));
}

#[test]
fn equality_is_by_endpoints() {
    assert!(Interval::closed(1, 2) == Interval::closed(1, 2));
    assert!(Interval::closed(1, 2) != Interval::open(1, 2));
    assert!(Interval::closed(1, 2) != Interval::closed(1, 3));
    assert!(Interval::only(1) == Interval::closed(1, 1));
    assert!(Interval::<i32>::empty() == Interval::empty());
    assert!(Interval::<i32>::all() != Interval::empty());
}

#[test]
fn empty_intervals_written_differently_are_unequal_but_order_equal() {
    let a = Interval::open(1, 1);
    let b = Interval::closed(5, 2);
    let e = Interval::<i32>::empty();
    assert!(a.is_empty() && b.is_empty() && e.is_empty());
    assert!(a != b && a != e && b != e);
    assert_eq!(a.subset_cmp(&b), Some(Ordering::Equal));
    assert_eq!(a.subset_cmp(&e), Some(Ordering::Equal));
    assert_eq!(e.subset_cmp(&b), Some(Ordering::Equal));
    assert_eq!(a.partial_cmp(&b), Some(Ordering::Equal));
}

#[test]
fn closed_is_greater_than_open_in_the_subset_order() {
    assert!(Interval::closed(1, 2) > Interval::open(1, 2));
    assert!(Interval::closed(1, 2) >= Interval::open(1, 2));
    assert!(Interval::open(1, 2) < Interval::closed(1, 2));
    assert!(!(Interval::closed(1, 2) <= Interval::open(1, 2)));
    assert_eq!(
        Interval::closed(1, 2).subset_cmp(&Interval::open(1, 2)),
        Some(Ordering::Greater)
    );
    assert_eq!(
        Interval::open(1, 2).subset_cmp(&Interval::closed(1, 2)),
        Some(Ordering::Less)
    );
}

#[test]
fn empty_is_at_least_an_empty_open_range() {
    assert!(Interval::<i32>::empty() >= Interval::open(1, 1));
    assert!(Interval::<i32>::empty() <= Interval::open(1, 1));
    assert!(Interval::<i32>::empty() <= Interval::empty());
    assert_eq!(
        Interval::<i32>::empty().subset_cmp(&Interval::open(1, 1)),
        Some(Ordering::Equal)
    );
}

#[test]
fn overlapping_intervals_have_no_subset_order() {
    let a = Interval::closed(1, 3);
    let b = Interval::closed(2, 4);
    assert_eq!(a.subset_cmp(&b), None);
    assert_eq!(b.subset_cmp(&a), None);
    assert_eq!(a.partial_cmp(&b), None);
    assert!(!(a < b) && !(a > b) && !(a <= b) && !(a >= b));
    assert_eq!(Interval::closed(1, 2).subset_cmp(&Interval::closed(3, 4)), None);
}

#[test]
fn subset_order_ranks_nested_intervals() {
    assert_eq!(Interval::only(2).subset_cmp(&Interval::closed(1, 3)), Some(Ordering::Less));
    assert_eq!(Interval::closed(1, 3).subset_cmp(&Interval::ge(1)), Some(Ordering::Less));
    assert_eq!(Interval::ge(1).subset_cmp(&Interval::all()), Some(Ordering::Less));
    assert_eq!(Interval::all().subset_cmp(&Interval::lt(0)), Some(Ordering::Greater));
    assert_eq!(Interval::<i32>::empty().subset_cmp(&Interval::all()), Some(Ordering::Less));
    assert_eq!(Interval::<i32>::all().subset_cmp(&Interval::empty()), Some(Ordering::Greater));
    assert_eq!(Interval::lcro(1, 3).subset_cmp(&Interval::lcro(1, 3)), Some(Ordering::Equal));
}

#[test]
fn subset_order_turns_round_with_its_arguments() {
    for a in sample() {
        for b in sample() {
            let forth = a.subset_cmp(&b);
            let back = b.subset_cmp(&a);
            assert_eq!(forth.map(Ordering::reverse), back);
        }
    }
}

#[test]
fn subset_order_is_sound_for_membership() {
    for a in sample() {
        for b in sample() {
            for x in -1..=6 {
                match a.subset_cmp(&b) {
                    Some(Ordering::Less) => assert!(!a.contains(x) || b.contains(x)),
                    Some(Ordering::Greater) => assert!(!b.contains(x) || a.contains(x)),
                    Some(Ordering::Equal) => assert_eq!(a.contains(x), b.contains(x)),
                    None => {}
                }
            }
        }
    }
}

#[test]
fn closed_and_open_intersect_to_half_open() {
    let got = Interval::closed(1, 3).intersect(Interval::open(2, 4));
    assert!(got == Interval::lorc(2, 3));
    assert!(got.left == Endpoint::LOpen(2));
    assert!(got.right == Endpoint::Closed(3));
    assert!(Interval::closed(1, 3) * Interval::open(2, 4) == Interval::lorc(2, 3));
}

#[test]
fn intersection_takes_greater_left_and_lesser_right() {
    let got = Interval::ge(1).intersect(Interval::lt(5));
    assert!(got == Interval::lcro(1, 5));
    let got = Interval::closed(1, 5).intersect(Interval::open(1, 5));
    assert!(got == Interval::open(1, 5));
    let got = Interval::lorc(0, 9).intersect(Interval::only(4));
    assert!(got == Interval::only(4));
    let got = Interval::gt(3).intersect(Interval::ge(3));
    assert!(got == Interval::gt(3));
    let got = Interval::lt(3).intersect(Interval::le(3));
    assert!(got == Interval::lt(3));
}

#[test]
fn intersection_of_disjoint_intervals_is_empty() {
    let got = Interval::closed(1, 2).intersect(Interval::closed(3, 4));
    assert!(got.left == Endpoint::Closed(3) && got.right == Endpoint::Closed(2));
    assert!(got.is_empty());
    assert!(got != Interval::empty());
    let got = Interval::lcro(1, 2).intersect(Interval::closed(2, 3));
    assert!(got.left == Endpoint::Closed(2) && got.right == Endpoint::ROpen(2));
    assert!(got.is_empty());
}

#[test]
fn intersection_with_itself_gives_the_interval_back() {
    for a in sample() {
        assert!(a.intersect(a) == a);
        assert!(a * a == a);
    }
}

#[test]
fn intersection_is_commutative() {
    for a in sample() {
        for b in sample() {
            let ab = a.intersect(b);
            let ba = b.intersect(a);
            assert!(ab.left == ba.left);
            assert!(ab.right == ba.right);
            assert!(ab == ba);
        }
    }
}

#[test]
fn intersection_with_empty_is_empty() {
    for a in sample() {
        let got = a.intersect(Interval::empty());
        assert!(got.is_empty());
        assert!(got == Interval::empty());
        let got = Interval::empty().intersect(a);
        assert!(got.is_empty());
        assert!(got == Interval::empty());
    }
}

#[test]
fn intersection_with_universe_gives_the_interval_back() {
    for a in sample() {
        assert!(a.intersect(Interval::all()) == a);
        assert!(Interval::all().intersect(a) == a);
    }
}

#[test]
fn intersection_holds_the_values_that_both_hold() {
    for a in sample() {
        for b in sample() {
            let both = a.intersect(b);
            for x in -1..=6 {
                assert_eq!(both.contains(x), a.contains(x) && b.contains(x));
            }
        }
    }
}

#[test]
fn empty_interval_holds_no_value() {
    for a in sample() {
        if a.is_empty() {
            for x in -1..=6 {
                assert!(!a.contains(x));
            }
        }
    }
}

#[test]
fn partial_intersect_agrees_with_intersect_where_defined() {
    for a in sample() {
        for b in sample() {
            assert!(a.partial_intersect(b) == Some(a.intersect(b)));
        }
    }
    let got = Interval::closed(1.0, 3.0).partial_intersect(Interval::open(2.0, 4.0));
    assert!(got == Some(Interval::lorc(2.0, 3.0)));
}

#[test]
fn partial_intersect_is_none_for_incomparable_endpoints() {
    let nan = f64::NAN;
    assert!(Interval::closed(nan, 3.0).partial_intersect(Interval::closed(1.0, 2.0)).is_none());
    assert!(Interval::closed(0.0, 3.0).partial_intersect(Interval::closed(1.0, nan)).is_none());
    assert!(Interval::closed(0.0, nan).partial_intersect(Interval::closed(nan, 2.0)).is_none());
    let got = Interval::ge(nan).partial_intersect(Interval::le(2.0));
    assert!(got.is_some());
    let got = got.unwrap();
    assert!(got.right == Endpoint::Closed(2.0));
    assert!(matches!(got.left, Endpoint::Closed(x) if x.is_nan()));
}
