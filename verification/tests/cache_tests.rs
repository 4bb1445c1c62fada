use sxtwl_rs::cache::{found_or_computed, FixedCache, ThreadSafeCache};

#[test]
fn computing_twice_with_one_key_computes_once() {
    let cache: ThreadSafeCache<u32, i64, 4, 2> = ThreadSafeCache::new();
    let mut counter = 0;
    let first = cache.get_or_compute(7, || {
        counter += 1;
        [10, 20]
    });
    let second = cache.get_or_compute(7, || {
        counter += 1;
        [30, 40]
    });
    assert_eq!(counter, 1);
    assert_eq!(first, [10, 20]);
    assert_eq!(second, [10, 20]);
    let third = cache.get_or_compute(8, || {
        counter += 1;
        [30, 40]
    });
    assert_eq!(counter, 2);
    assert_eq!(third, [30, 40]);
    assert_eq!(cache.len(), 2);
}

#[test]
fn shared_cache_stores_and_clears() {
    let cache: ThreadSafeCache<i32, u8, 2, 3> = ThreadSafeCache::new();
    assert!(cache.is_empty());
    assert_eq!(cache.len(), 0);
    assert_eq!(cache.get(1), None);
    cache.insert(1, [1, 2, 3]);
    assert_eq!(cache.get(1), Some([1, 2, 3]));
    assert!(!cache.is_empty());
    cache.insert(2, [4, 5, 6]);
    assert_eq!(cache.len(), 2);
    cache.clear();
    assert!(cache.is_empty());
    assert_eq!(cache.get(1), None);
}

#[test]
fn fixed_cache_fills_from_the_front() {
    let mut cache: FixedCache<u64, u16, 3, 1> = FixedCache::new();
    assert!(cache.is_empty());
    assert_eq!(cache.len(), 0);
    assert_eq!(cache.get(5), None);
    cache.insert(5, [50]);
    assert_eq!(cache.len(), 1);
    assert_eq!(cache.get(5), Some([50]));
    cache.insert(6, [60]);
    cache.insert(7, [70]);
    assert_eq!(cache.len(), 3);
    assert_eq!(cache.get(6), Some([60]));
    assert_eq!(cache.get(7), Some([70]));
    assert!(!cache.is_empty());
    cache.clear();
    assert_eq!(cache.len(), 0);
    assert_eq!(cache.get(5), None);
}

#[test]
fn full_cache_replaces_the_oldest() {
    let mut cache: FixedCache<u64, u16, 3, 1> = FixedCache::new();
    // Stored at hit counts 0, 0 and 2.
    cache.insert(1, [10]);
    cache.insert(2, [20]);
    assert_eq!(cache.get(1), Some([10]));
    assert_eq!(cache.get(2), Some([20]));
    cache.insert(3, [30]);
    // The first of the slots with the lowest count goes.
    cache.insert(4, [40]);
    assert_eq!(cache.get(1), None);
    assert_eq!(cache.get(2), Some([20]));
    assert_eq!(cache.get(3), Some([30]));
    assert_eq!(cache.get(4), Some([40]));
    assert_eq!(cache.len(), 3);
    // Key 2 was stored at count 0 and is now the oldest.
    cache.insert(5, [50]);
    assert_eq!(cache.get(2), None);
    assert_eq!(cache.get(5), Some([50]));
}

#[test]
fn an_equal_key_is_not_looked_for() {
    let mut cache: FixedCache<u8, u8, 2, 1> = FixedCache::new();
    cache.insert(1, [1]);
    cache.insert(1, [2]);
    // Both slots hold key 1; the first is found.
    assert_eq!(cache.len(), 2);
    assert_eq!(cache.get(1), Some([1]));
}

#[test]
fn lookup_settles_what_is_returned() {
    let mut calls = 0;
    let (data, computed) = found_or_computed(Some([1u8, 2]), || {
        calls += 1;
        [3, 4]
    });
    assert_eq!((data, computed), ([1, 2], false));
    assert_eq!(calls, 0);
    let (data, computed) = found_or_computed(None, || {
        calls += 1;
        [3u8, 4]
    });
    assert_eq!((data, computed), ([3, 4], true));
    assert_eq!(calls, 1);
}
