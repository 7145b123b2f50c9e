use infinite_arrays::{CachedArray, InfiniteArray, Ones};

#[test]
fn test_cached_array() {
    let ones: Ones<i32> = Ones::new();
    let mut cached = CachedArray::new(ones);

    assert_eq!(cached.get(0), 1);
    assert_eq!(cached.get(1), 1);

    cached.set(0, 3);
    assert_eq!(cached.get(0), 3);
    assert_eq!(cached.get(1), 1);
}

#[test]
fn test_cached_array_iter() {
    let ones: Ones<i32> = Ones::new();
    let mut cached = CachedArray::new(ones);
    cached.set(0, 5);

    let mut iter = cached.iter();
    assert_eq!(iter.next(), Some(5));
    assert_eq!(iter.next(), Some(1));
    assert_eq!(iter.next(), Some(1));
}

#[test]
fn test_clear_cache_restores_base() {
    let ones: Ones<i32> = Ones::new();
    let mut cached = CachedArray::new(ones);
    assert_eq!(cached.get(0), 1);
    cached.set(0, 3);
    assert_eq!(cached.get(0), 3);
    cached.clear_cache();
    assert_eq!(cached.get(0), 1);
}

#[test]
fn test_cache_size_counts_overrides() {
    let ones: Ones<i32> = Ones::new();
    let mut cached = CachedArray::new(ones);
    assert_eq!(cached.cache_size(), 0);
    cached.set(2, 9);
    assert_eq!(cached.cache_size(), 1);
    // Replacing an override does not grow the mapping.
    cached.set(2, 11);
    assert_eq!(cached.cache_size(), 1);
    cached.set(5, 4);
    assert_eq!(cached.cache_size(), 2);
    cached.clear_cache();
    assert_eq!(cached.cache_size(), 0);
}

#[test]
fn test_get_mut_materializes_and_writes() {
    let ones: Ones<i32> = Ones::new();
    let mut cached = CachedArray::new(ones);
    // Materializes the base's value when no override is present.
    assert_eq!(*cached.get_mut(4), 1);
    assert_eq!(cached.cache_size(), 1);
    // The returned place can be written through.
    *cached.get_mut(4) = 7;
    assert_eq!(cached.get(4), 7);
    assert_eq!(cached.cache_size(), 1);
}
