use nstimes::cache::service::{CacheFile, FileAction};
use nstimes::cache::{CacheEntry, PriceCache};
use nstimes::dates::Date;

fn day(year: i32, month: u32, day: u32) -> Date {
    Date { year, month, day }
}

#[test]
fn test_normalize_key() {
    // A->B should equal B->A
    let key1 = PriceCache::normalize_key("Amsterdam", "Utrecht", 2);
    let key2 = PriceCache::normalize_key("Utrecht", "Amsterdam", 2);
    assert_eq!(key1, key2);
    assert_eq!(key1, "Amsterdam-Utrecht-2");

    // Different class should produce different key
    let key3 = PriceCache::normalize_key("Amsterdam", "Utrecht", 1);
    assert_ne!(key1, key3);
}

#[test]
fn test_cache_operations() {
    // Create new cache
    let mut cache = PriceCache::new("test_cache.json", CacheFile::Absent).unwrap();

    // Set a price
    assert_eq!(cache.set("Amsterdam", "Utrecht", 2, 940), FileAction::Rewrite);

    // Get it back
    let price = cache.get("Amsterdam", "Utrecht", 2);
    assert_eq!(price, Some(940));

    // Check reverse direction works
    let price_reverse = cache.get("Utrecht", "Amsterdam", 2);
    assert_eq!(price_reverse, Some(940));

    // Different class should not match
    let price_different_class = cache.get("Amsterdam", "Utrecht", 1);
    assert_eq!(price_different_class, None);

    // Load a second cache from what the file would hold
    let cache2 = PriceCache::new("test_cache.json", CacheFile::Entries(cache.entries())).unwrap();
    let price_reloaded = cache2.get("Amsterdam", "Utrecht", 2);
    assert_eq!(price_reloaded, Some(940));
}

#[test]
fn normalize_key_orders_by_code_point() {
    assert_eq!(PriceCache::normalize_key("b", "a", 1), "a-b-1");
    assert_eq!(PriceCache::normalize_key("a", "b", 1), "a-b-1");
    assert_eq!(PriceCache::normalize_key("Zwolle", "arnhem", 2), "Zwolle-arnhem-2");
    assert_eq!(PriceCache::normalize_key("Den Haag", "Den", 2), "Den-Den Haag-2");
    assert_eq!(PriceCache::normalize_key("", "x", 2), "-x-2");
    assert_eq!(PriceCache::normalize_key("same", "same", 2), "same-same-2");
    assert_eq!(PriceCache::normalize_key("é", "z", 2), "z-é-2");
    assert_eq!(PriceCache::normalize_key("\u{10000}", "\u{ffff}", 2), "\u{ffff}-\u{10000}-2");
}

#[test]
fn normalize_key_writes_class_in_decimal() {
    assert_eq!(PriceCache::normalize_key("a", "b", 0), "a-b-0");
    assert_eq!(PriceCache::normalize_key("a", "b", 9), "a-b-9");
    assert_eq!(PriceCache::normalize_key("a", "b", 10), "a-b-10");
    assert_eq!(PriceCache::normalize_key("a", "b", 255), "a-b-255");
}

#[test]
fn set_then_get_on_same_day() {
    let today = day(2025, 7, 1);
    let mut cache = PriceCache::empty("prices.json");
    assert_eq!(cache.get_on("Utrecht Centraal", "Amsterdam Centraal", 2, today), None);
    cache.set_on("Utrecht Centraal", "Amsterdam Centraal", 2, 940, today);
    assert_eq!(cache.get_on("Utrecht Centraal", "Amsterdam Centraal", 2, today), Some(940));
    assert_eq!(cache.get_on("Amsterdam Centraal", "Utrecht Centraal", 2, today), Some(940));
    assert_eq!(cache.len(), 1);
}

#[test]
fn other_class_is_absent() {
    let today = day(2025, 7, 1);
    let mut cache = PriceCache::empty("prices.json");
    cache.set_on("A", "B", 1, 1500, today);
    assert_eq!(cache.get_on("A", "B", 2, today), None);
    assert_eq!(cache.get_on("B", "A", 2, today), None);
    assert_eq!(cache.get_on("A", "B", 1, today), Some(1500));
    cache.set_on("A", "B", 2, 900, today);
    assert_eq!(cache.get_on("A", "B", 1, today), Some(1500));
    assert_eq!(cache.get_on("A", "B", 2, today), Some(900));
    assert_eq!(cache.len(), 2);
}

#[test]
fn set_overwrites_the_entry_of_a_key() {
    let today = day(2025, 7, 1);
    let mut cache = PriceCache::empty("prices.json");
    cache.set_on("A", "B", 2, 900, today);
    cache.set_on("B", "A", 2, 950, today);
    assert_eq!(cache.len(), 1);
    assert_eq!(cache.get_on("A", "B", 2, today), Some(950));
}

#[test]
fn entry_is_valid_until_the_year_ends() {
    let mut cache = PriceCache::empty("prices.json");
    cache.set_on("A", "B", 2, 900, day(2025, 3, 3));
    assert_eq!(cache.get_on("A", "B", 2, day(2025, 12, 31)), Some(900));
    assert_eq!(cache.get_on("A", "B", 2, day(2026, 1, 1)), None);
    assert_eq!(cache.get_on("A", "B", 2, day(2026, 6, 1)), None);
    // a lookup does not remove the expired entry
    assert_eq!(cache.len(), 1);
}

fn mixed_cache() -> PriceCache {
    let loaded = vec![
        (
            "A-B-2".to_string(),
            CacheEntry { price_cents: 100, travel_class: 2, expires_at: "2020-01-01".to_string() },
        ),
        (
            "A-C-2".to_string(),
            CacheEntry { price_cents: 200, travel_class: 2, expires_at: "2099-01-01".to_string() },
        ),
        (
            "A-D-1".to_string(),
            CacheEntry { price_cents: 300, travel_class: 1, expires_at: "garbage".to_string() },
        ),
        (
            "B-C-1".to_string(),
            CacheEntry { price_cents: 400, travel_class: 1, expires_at: "2031-06-15".to_string() },
        ),
    ];
    PriceCache::new("prices.json", CacheFile::Entries(loaded)).unwrap()
}

#[test]
fn expired_entry_is_absent_counted_and_removed() {
    let today = day(2025, 7, 1);
    let mut cache = mixed_cache();
    assert_eq!(cache.get_on("A", "B", 2, today), None);
    assert_eq!(cache.get_on("D", "A", 1, today), None);
    assert_eq!(cache.get_on("C", "A", 2, today), Some(200));
    assert_eq!(cache.get_on("C", "B", 1, today), Some(400));

    let stats = cache.stats_on(today);
    assert_eq!(stats.total_entries, 4);
    assert_eq!(stats.expired_entries, 2);
    assert_eq!(stats.valid_entries, 2);
    // counting changes nothing
    assert_eq!(cache.len(), 4);

    let outcome = cache.cleanup_on(today);
    assert_eq!(outcome.removed, 2);
    assert_eq!(outcome.action, FileAction::Rewrite);
    assert_eq!(cache.len(), 2);
    assert_eq!(cache.get_on("C", "A", 2, today), Some(200));
    assert_eq!(cache.get_on("C", "B", 1, today), Some(400));
    assert_eq!(cache.get_on("A", "B", 2, today), None);

    let stats = cache.stats_on(today);
    assert_eq!(stats.total_entries, 2);
    assert_eq!(stats.expired_entries, 0);
    assert_eq!(stats.valid_entries, 2);

    let again = cache.cleanup_on(today);
    assert_eq!(again.removed, 0);
    assert_eq!(again.action, FileAction::Leave);
    assert_eq!(cache.len(), 2);
}

#[test]
fn cleanup_on_a_later_day_removes_more() {
    let mut cache = mixed_cache();
    let outcome = cache.cleanup_on(day(2031, 6, 15));
    assert_eq!(outcome.removed, 3);
    assert_eq!(cache.len(), 1);
    assert_eq!(cache.get_on("A", "C", 2, day(2031, 6, 15)), Some(200));
}

#[test]
fn cleanup_of_empty_cache_leaves_the_file() {
    let mut cache = PriceCache::empty("prices.json");
    let outcome = cache.cleanup();
    assert_eq!(outcome.removed, 0);
    assert_eq!(outcome.action, FileAction::Leave);
    let stats = cache.stats();
    assert_eq!(stats.total_entries, 0);
    assert_eq!(stats.valid_entries, 0);
    assert_eq!(stats.expired_entries, 0);
}

#[test]
fn stats_and_cleanup_as_of_today() {
    let mut cache = mixed_cache();
    let stats = cache.stats();
    assert_eq!(stats.total_entries, 4);
    assert_eq!(stats.valid_entries + stats.expired_entries, 4);
    assert!(stats.expired_entries >= 2);
    let outcome = cache.cleanup();
    assert_eq!(outcome.removed, stats.expired_entries);
    assert_eq!(outcome.action, FileAction::Rewrite);
    assert_eq!(cache.len(), stats.valid_entries);
}

#[test]
fn open_on_absent_file_is_empty() {
    let cache = PriceCache::new("dir/prices.json", CacheFile::Absent).unwrap();
    assert_eq!(cache.len(), 0);
    assert_eq!(cache.path(), "dir/prices.json");
    assert!(cache.entries().is_empty());
}

#[test]
fn open_on_malformed_file_is_empty() {
    let cache =
        PriceCache::new("prices.json", CacheFile::Malformed("expected value".to_string())).unwrap();
    assert_eq!(cache.len(), 0);
    assert_eq!(cache.get("Amsterdam", "Utrecht", 2), None);
    assert_eq!(
        PriceCache::malformed_warning("expected value"),
        "⚠️  Failed to parse cache file, starting fresh: expected value"
    );
}

#[test]
fn open_on_unusable_file_fails() {
    let opened = PriceCache::new("prices.json", CacheFile::Unusable("permission denied".to_string()));
    match opened {
        Ok(_) => panic!("an unusable file must not open"),
        Err(e) => assert_eq!(e.message(), "permission denied"),
    }
}

#[test]
fn last_of_repeated_keys_counts() {
    let loaded = vec![
        (
            "A-B-2".to_string(),
            CacheEntry { price_cents: 100, travel_class: 2, expires_at: "2099-01-01".to_string() },
        ),
        (
            "A-B-2".to_string(),
            CacheEntry { price_cents: 150, travel_class: 2, expires_at: "2099-01-01".to_string() },
        ),
    ];
    let cache = PriceCache::from_entries("prices.json", &loaded);
    assert_eq!(cache.len(), 1);
    assert_eq!(cache.get_on("A", "B", 2, day(2025, 1, 1)), Some(150));
}

#[test]
fn entries_reproduce_the_cache() {
    let today = day(2025, 7, 1);
    let mut cache = PriceCache::empty("prices.json");
    cache.set_on("Amsterdam", "Utrecht", 2, 940, today);
    cache.set_on("Amsterdam", "Utrecht", 1, 1600, today);
    cache.set_on("Zwolle", "Assen", 2, 1200, today);
    let snapshot = cache.entries();
    assert_eq!(snapshot.len(), 3);
    let reopened = PriceCache::new("prices.json", CacheFile::Entries(snapshot)).unwrap();
    assert_eq!(reopened.len(), 3);
    assert_eq!(reopened.get_on("Utrecht", "Amsterdam", 2, today), Some(940));
    assert_eq!(reopened.get_on("Utrecht", "Amsterdam", 1, today), Some(1600));
    assert_eq!(reopened.get_on("Assen", "Zwolle", 2, today), Some(1200));
    assert_eq!(reopened.get_on("Assen", "Zwolle", 1, today), None);
}
