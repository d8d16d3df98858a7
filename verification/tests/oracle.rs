use mmap_allocator::PageSizeCache;

#[test]
fn fresh_cache_is_empty() {
    let cache = PageSizeCache::new();
    assert_eq!(cache.lookup(), None);
}

#[test]
fn first_record_fills_the_cache() {
    let mut cache = PageSizeCache::new();
    assert_eq!(cache.record(4096), 4096);
    assert_eq!(cache.lookup(), Some(4096));
}

#[test]
fn second_record_returns_the_first_value() {
    // The oracle is stable: whatever a later query reports, the first
    // recorded answer is the one every caller sees.
    let mut cache = PageSizeCache::new();
    let first = cache.record(4096);
    let second = cache.record(8192);
    assert_eq!(first, second);
    assert_eq!(cache.lookup(), Some(4096));
}

#[test]
fn zero_record_keeps_the_cache_empty() {
    // Zero is the "not yet queried" sentinel, so a failed OS query is
    // simply retried on the next lookup.
    let mut cache = PageSizeCache::new();
    assert_eq!(cache.record(0), 0);
    assert_eq!(cache.lookup(), None);
    assert_eq!(cache.record(16384), 16384);
    assert_eq!(cache.lookup(), Some(16384));
}
