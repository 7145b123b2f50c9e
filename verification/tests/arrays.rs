use infinite_arrays::{InfiniteArray, InfiniteArrayFromFn, Ones, Zeros};

#[test]
fn arrays_test_ones() {
    let ones: Ones<i32> = Ones::new();
    assert_eq!(ones.get(0), 1);
    assert_eq!(ones.get(100), 1);

    let mut iter = ones.iter();
    assert_eq!(iter.next(), Some(1));
    assert_eq!(iter.next(), Some(1));
    assert_eq!(iter.next(), Some(1));
}

#[test]
fn test_zeros() {
    let zeros: Zeros<i32> = Zeros::new();
    assert_eq!(zeros.get(0), 0);
    assert_eq!(zeros.get(100), 0);
}

#[test]
fn test_infinite_array_from_fn() {
    let arr = InfiniteArrayFromFn::new(|i| i * 2);
    assert_eq!(arr.get(0), 0);
    assert_eq!(arr.get(1), 2);
    assert_eq!(arr.get(5), 10);
}

#[test]
fn test_zeros_iter() {
    let zeros: Zeros<i32> = Zeros::new();
    let mut iter = zeros.iter();
    assert_eq!(iter.next(), Some(0));
    assert_eq!(iter.next(), Some(0));
}

#[test]
fn test_from_fn_iter_borrows_and_restarts() {
    let arr = InfiniteArrayFromFn::new(|i| i * 2);
    let mut iter = arr.iter();
    assert_eq!(iter.next(), Some(0));
    assert_eq!(iter.next(), Some(2));
    assert_eq!(iter.next(), Some(4));
    // A fresh call to iter() starts again from index 0.
    let mut again = arr.iter();
    assert_eq!(again.next(), Some(0));
}

#[test]
fn test_get_is_idempotent() {
    let arr = InfiniteArrayFromFn::new(|i| i + 7);
    assert_eq!(arr.get(3), arr.get(3));
    let ones: Ones<i32> = Ones::new();
    assert_eq!(ones.get(42), ones.get(42));
}

#[test]
fn test_len_is_unbounded() {
    let ones: Ones<i32> = Ones::new();
    assert_eq!(ones.len(), None);
    let zeros: Zeros<i32> = Zeros::new();
    assert_eq!(zeros.len(), None);
}

#[test]
fn test_elements_other_widths() {
    let ones: Ones<u64> = Ones::new();
    assert_eq!(ones.get(9), 1u64);
    let ones: Ones<usize> = Ones::new();
    assert_eq!(ones.get(9), 1usize);
    let ones: Ones<i64> = Ones::new();
    assert_eq!(ones.get(9), 1i64);
}
