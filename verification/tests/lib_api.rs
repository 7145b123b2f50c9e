use infinite_arrays::{Infinite, InfiniteArray, OneToInf, Ones, INFINITY};

#[test]
fn lib_test_ones() {
    let ones: Ones<i32> = Ones::new();
    assert_eq!(ones.get(0), 1);
    assert_eq!(ones.get(100), 1);
}

#[test]
fn test_range() {
    let range: OneToInf<i32> = OneToInf::new();
    assert_eq!(range.get(0), 1);
    assert_eq!(range.get(1), 2);
    assert_eq!(range.get(99), 100);
}

#[test]
fn test_infinity_sentinels() {
    assert_eq!(INFINITY, usize::MAX);
    assert_eq!(usize::infinity(), usize::MAX);
    assert_eq!(isize::infinity(), isize::MAX);
}
