use infinite_arrays::{InfStepRange, InfUnitRange, OneToInf};

#[test]
fn test_one_to_inf() {
    let range: OneToInf<i32> = OneToInf::new();
    assert_eq!(range.get(0), 1);
    assert_eq!(range.get(1), 2);
    assert_eq!(range.get(99), 100);
}

#[test]
fn test_one_to_inf_iter() {
    let range: OneToInf<i32> = OneToInf::new();
    let mut iter = range.iter();
    assert_eq!(iter.next(), Some(1));
    assert_eq!(iter.next(), Some(2));
    assert_eq!(iter.next(), Some(3));
}

#[test]
fn test_inf_unit_range() {
    let range = InfUnitRange::new(5i32);
    assert_eq!(range.get(0), 5);
    assert_eq!(range.get(1), 6);
    assert_eq!(range.get(10), 15);
}

#[test]
fn test_inf_step_range() {
    let range = InfStepRange::new(0i32, 2i32);
    assert_eq!(range.get(0), 0);
    assert_eq!(range.get(1), 2);
    assert_eq!(range.get(2), 4);
}

#[test]
fn test_unit_range_iter() {
    let range = InfUnitRange::new(5i32);
    let mut iter = range.iter();
    assert_eq!(iter.next(), Some(5));
    assert_eq!(iter.next(), Some(6));
    assert_eq!(iter.next(), Some(7));
}

#[test]
fn test_step_range_iter() {
    let range = InfStepRange::new(0i32, 2i32);
    let mut iter = range.iter();
    assert_eq!(iter.next(), Some(0));
    assert_eq!(iter.next(), Some(2));
    assert_eq!(iter.next(), Some(4));
}

#[test]
fn test_iterate_deterministic() {
    // Two independent iterators over the same sequence value yield
    // identical prefixes.
    let range = InfStepRange::new(3i32, 4i32);
    let mut a = range.iter();
    let mut b = range.iter();
    for _ in 0..50 {
        assert_eq!(a.next(), b.next());
    }
}

#[test]
fn test_iter_matches_get_for_integers() {
    // For exact integer elements, iteration's repeated addition agrees
    // with the multiplicative closed form of indexed access.
    let range = InfStepRange::new(-7i32, 3i32);
    let mut iter = range.iter();
    for k in 0..100 {
        assert_eq!(iter.next(), Some(range.get(k)));
    }
}

#[test]
fn test_negative_step() {
    let range = InfStepRange::new(10i32, -2i32);
    assert_eq!(range.get(0), 10);
    assert_eq!(range.get(1), 8);
    assert_eq!(range.get(5), 0);
    assert_eq!(range.get(6), -2);
}
