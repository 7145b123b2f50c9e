use infinite_arrays::{
    add_arrays, add_scalar, broadcast, cumsum, div_arrays, mul_arrays, mul_scalar, sub_arrays,
    InfiniteArray, Ones,
};

#[test]
fn test_cumsum() {
    let ones: Ones<i32> = Ones::new();
    let cumsum_result = cumsum(ones);

    assert_eq!(cumsum_result.get(0), 1);
    assert_eq!(cumsum_result.get(1), 2);
    assert_eq!(cumsum_result.get(2), 3);
    assert_eq!(cumsum_result.get(9), 10);
}

#[test]
fn test_broadcast() {
    let ones: Ones<i32> = Ones::new();
    let doubled = broadcast(ones, |x: i32| x * 2);

    assert_eq!(doubled.get(0), 2);
    assert_eq!(doubled.get(100), 2);
}

#[test]
fn test_add_scalar() {
    let ones: Ones<i32> = Ones::new();
    let result = add_scalar(ones, 2);

    assert_eq!(result.get(0), 3);
    assert_eq!(result.get(100), 3);
}

#[test]
fn test_mul_scalar() {
    let ones: Ones<i32> = Ones::new();
    let result = mul_scalar(ones, 5);
    assert_eq!(result.get(0), 5);
    assert_eq!(result.get(100), 5);
}

#[test]
fn test_add_arrays() {
    let a = add_scalar(Ones::<i32>::new(), 1);
    let b: Ones<i32> = Ones::new();
    let sum = add_arrays(a, b);
    assert_eq!(sum.get(0), 3);
    assert_eq!(sum.get(7), 3);
}

#[test]
fn test_sub_arrays() {
    let a = add_scalar(Ones::<i32>::new(), 5);
    let b: Ones<i32> = Ones::new();
    let diff = sub_arrays(a, b);
    assert_eq!(diff.get(0), 5);
    assert_eq!(diff.get(7), 5);
}

#[test]
fn test_mul_arrays() {
    let a = mul_scalar(Ones::<i32>::new(), 3);
    let b = mul_scalar(Ones::<i32>::new(), 4);
    let prod = mul_arrays(a, b);
    assert_eq!(prod.get(0), 12);
    assert_eq!(prod.get(7), 12);
}

#[test]
fn test_div_arrays() {
    let a = add_scalar(Ones::<u64>::new(), 5);
    let b = add_scalar(Ones::<u64>::new(), 1);
    let quot = div_arrays(a, b);
    assert_eq!(quot.get(0), 3);
    assert_eq!(quot.get(7), 3);
}

#[test]
fn test_div_arrays_signed_truncates() {
    let a = add_scalar(Ones::<i32>::new(), -8);
    let b = add_scalar(Ones::<i32>::new(), 1);
    let quot = div_arrays(a, b);
    // -7 / 2 truncates toward zero.
    assert_eq!(quot.get(0), -3);
    assert_eq!(quot.get(9), -3);
}

#[test]
fn test_cumsum_recomputes_per_index() {
    // The cumulative sum carries no state between calls: asking for a
    // smaller index after a larger one gives the same answers.
    let ones: Ones<i32> = Ones::new();
    let c = cumsum(ones);
    assert_eq!(c.get(9), 10);
    assert_eq!(c.get(0), 1);
    assert_eq!(c.get(9), 10);
}

#[test]
fn test_broadcast_composes() {
    let ones: Ones<i32> = Ones::new();
    let shifted = add_scalar(ones, 4);
    let doubled = broadcast(shifted, |x: i32| x * 2);
    assert_eq!(doubled.get(0), 10);
    assert_eq!(doubled.get(33), 10);
}
