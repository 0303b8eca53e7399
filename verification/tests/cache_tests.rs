use http_source::cache::{save_to_cache, try_load_from_cache, CacheStore};
use http_source::hashing::{hash_to_hex, url_hash, url_to_hash};

#[test]
fn cache_round_trip_returns_bytes_unchanged() {
    let mut store = CacheStore::new();
    let bytes = vec![0u8, 1, 2, 254, 255, 7];
    save_to_cache(&mut store, "http://example.com/a.bin", &bytes);
    let loaded = try_load_from_cache(&store, "http://example.com/a.bin").expect("present");
    assert_eq!(loaded, &bytes);
}

#[test]
fn cache_miss_is_absent_not_an_error() {
    let store = CacheStore::new();
    assert!(try_load_from_cache(&store, "http://example.com/unseen").is_none());
}

#[test]
fn cache_overwrite_replaces_whole_body() {
    let mut store = CacheStore::new();
    save_to_cache(&mut store, "http://example.com/a", &[1, 2, 3]);
    save_to_cache(&mut store, "http://example.com/a", &[9]);
    let loaded = try_load_from_cache(&store, "http://example.com/a").expect("present");
    assert_eq!(loaded, &vec![9u8]);
}

#[test]
fn cache_keys_are_per_url() {
    let mut store = CacheStore::new();
    save_to_cache(&mut store, "http://example.com/a", &[1]);
    save_to_cache(&mut store, "http://example.com/b", &[2]);
    assert_eq!(
        try_load_from_cache(&store, "http://example.com/a").expect("present"),
        &vec![1u8]
    );
    assert_eq!(
        try_load_from_cache(&store, "http://example.com/b").expect("present"),
        &vec![2u8]
    );
}

#[test]
fn url_hash_has_exact_known_values() {
    assert_eq!(url_hash(""), 0xcbf29ce484222325);
    assert_eq!(url_hash("a"), 0xaf63dc4c8601ec8c);
    assert_eq!(url_hash("http://example.com/favicon.png"), 0xa30be6020b117bba);
}

#[test]
fn url_to_hash_is_sixteen_hex_digits() {
    assert_eq!(url_to_hash("http://example.com/favicon.png").as_str(), "a30be6020b117bba");
    assert_eq!(url_to_hash("").as_str(), "cbf29ce484222325");
    assert_eq!(hash_to_hex(0).as_str(), "0000000000000000");
    assert_eq!(hash_to_hex(u64::MAX).as_str(), "ffffffffffffffff");
    assert_eq!(url_to_hash("a"), url_to_hash("a"));
}
