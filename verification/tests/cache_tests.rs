use lyricsify::cache::LyricsCache;
use lyricsify::lyrics::LyricsFetcher;

#[test]
fn cache_miss_returns_none() {
    let mut cache = LyricsCache::new(4);
    assert_eq!(cache.get("unknown"), None);
}

#[test]
fn cache_hit_returns_stored_value() {
    let mut cache = LyricsCache::new(4);
    cache.insert("t1".to_string(), Some("la la".to_string()));
    assert_eq!(cache.get("t1"), Some(Some("la la".to_string())));
}

#[test]
fn cache_stores_negative_results() {
    let mut cache = LyricsCache::new(4);
    cache.insert("t2".to_string(), None);
    assert_eq!(cache.get("t2"), Some(None));
}

#[test]
fn cache_overwrite_updates_value() {
    let mut cache = LyricsCache::new(4);
    cache.insert("t1".to_string(), None);
    cache.insert("t1".to_string(), Some("found later".to_string()));
    assert_eq!(cache.get("t1"), Some(Some("found later".to_string())));
}

#[test]
fn cache_evicts_least_recently_touched() {
    let mut cache = LyricsCache::new(2);
    cache.insert("a".to_string(), Some("A".to_string()));
    cache.insert("b".to_string(), Some("B".to_string()));
    // Touch "a": now "b" is the least recently used.
    assert_eq!(cache.get("a"), Some(Some("A".to_string())));
    cache.insert("c".to_string(), Some("C".to_string()));
    assert_eq!(cache.get("b"), None);
    assert_eq!(cache.get("a"), Some(Some("A".to_string())));
    assert_eq!(cache.get("c"), Some(Some("C".to_string())));
}

#[test]
fn cache_insert_refreshes_recency() {
    let mut cache = LyricsCache::new(2);
    cache.insert("a".to_string(), Some("A".to_string()));
    cache.insert("b".to_string(), Some("B".to_string()));
    // Re-inserting "a" makes "b" least recently used.
    cache.insert("a".to_string(), Some("A2".to_string()));
    cache.insert("c".to_string(), Some("C".to_string()));
    assert_eq!(cache.get("b"), None);
    assert_eq!(cache.get("a"), Some(Some("A2".to_string())));
}

#[test]
fn cache_overwrite_at_capacity_evicts_nothing() {
    let mut cache = LyricsCache::new(2);
    cache.insert("a".to_string(), Some("A".to_string()));
    cache.insert("b".to_string(), Some("B".to_string()));
    cache.insert("b".to_string(), Some("B2".to_string()));
    assert_eq!(cache.get("a"), Some(Some("A".to_string())));
    assert_eq!(cache.get("b"), Some(Some("B2".to_string())));
}

#[test]
fn cache_never_exceeds_capacity() {
    let mut cache = LyricsCache::new(3);
    let mut i: usize = 0;
    while i < 10 {
        cache.insert(format!("track-{}", i), Some(format!("lyrics {}", i)));
        i += 1;
    }
    // Only the three most recent keys remain.
    let mut i: usize = 0;
    while i < 7 {
        assert_eq!(cache.get(&format!("track-{}", i)), None);
        i += 1;
    }
    let mut i: usize = 7;
    while i < 10 {
        assert_eq!(
            cache.get(&format!("track-{}", i)),
            Some(Some(format!("lyrics {}", i)))
        );
        i += 1;
    }
}

#[test]
fn fetcher_starts_empty_with_default_capacity() {
    let mut fetcher = LyricsFetcher::new();
    assert_eq!(fetcher.cached_lyrics("anything"), None);
}
