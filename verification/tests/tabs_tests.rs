use crawl_agent::address::base_address;
use crawl_agent::tabs::TabCache;

#[test]
fn base_address_is_scheme_and_host() {
    assert_eq!(base_address("https://example.com/path?q=1"), "https://example.com");
    assert_eq!(base_address("http://shop.example.org/a/b"), "http://shop.example.org");
}

#[test]
fn base_address_host_scoped() {
    let a = base_address("https://example.com/one");
    let b = base_address("https://example.com/two?x=3");
    assert_eq!(a, b);
}

#[test]
fn base_address_idempotent() {
    let once = base_address("https://example.com/deal");
    let twice = base_address(&once);
    assert_eq!(once, twice);
}

#[test]
fn base_address_unparsable_is_itself() {
    assert_eq!(base_address("not a url"), "not a url");
}

#[test]
fn get_or_create_hits_on_second_call() {
    let mut cache = TabCache::new(4);
    let (first, created_first) = cache.get_or_create("https://example.com/list", 1);
    assert!(created_first);
    let (second, created_second) = cache.get_or_create("https://example.com/detail", 2);
    assert!(!created_second);
    assert_eq!(first.id, second.id);
    assert_eq!(cache.len(), 1);
}

#[test]
fn fifo_eviction_keeps_last_two() {
    let mut cache = TabCache::new(2);
    cache.get_or_create("https://a.example/x", 1);
    cache.get_or_create("https://b.example/y", 2);
    cache.get_or_create("https://c.example/z", 3);
    assert_eq!(cache.len(), 2);
    assert!(cache.lookup("https://a.example/x").is_none());
    assert_eq!(cache.lookup("https://b.example/other").unwrap().id, 2);
    assert_eq!(cache.lookup("https://c.example/other").unwrap().id, 3);
}

#[test]
fn navigation_rekeys_the_same_tab() {
    let mut cache = TabCache::new(4);
    let (tab, _) = cache.get_or_create("https://a.example/start", 7);
    cache.record_navigation("https://a.example/start", "https://b.example/landed");
    assert!(cache.lookup("https://a.example/start").is_none());
    let moved = cache.lookup("https://b.example/landed").unwrap();
    assert_eq!(moved.id, tab.id);
    assert_eq!(cache.len(), 1);
}

#[test]
fn same_host_navigation_keeps_the_key() {
    let mut cache = TabCache::new(4);
    cache.get_or_create("https://a.example/one", 5);
    cache.record_navigation("https://a.example/one", "https://a.example/two");
    let tab = cache.lookup("https://a.example/three").unwrap();
    assert_eq!(tab.id, 5);
    assert_eq!(tab.address, "https://a.example/two");
}

#[test]
fn evict_and_clear() {
    let mut cache = TabCache::new(4);
    cache.get_or_create("https://a.example/", 1);
    cache.get_or_create("https://b.example/", 2);
    cache.evict("https://a.example/anything");
    assert_eq!(cache.len(), 1);
    cache.clear();
    assert_eq!(cache.len(), 0);
}

#[test]
fn revisiting_the_old_host_after_rekey_opens_a_new_tab() {
    let mut cache = TabCache::new(4);
    cache.get_or_create("https://a.example/start", 1);
    cache.record_navigation("https://a.example/start", "https://b.example/els");
    let (tab, created) = cache.get_or_create("https://a.example/back", 9);
    assert!(created);
    assert_eq!(tab.id, 9);
}
