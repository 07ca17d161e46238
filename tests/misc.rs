use url_shortener::config::StorageConfig;
use url_shortener::repository::SledUrlRepository;
use url_shortener::validator::{inspects, rejects, UrlValidator, UrlValidatorMiddleware};

#[test]
fn validator_turns_away_bad_urls_on_the_shorten_route() {
    let _ = UrlValidator::new();
    assert!(rejects("/api/v1/shorten", true, Some("not a url")));
    assert!(!rejects("/api/v1/shorten", true, Some("https://example.com")));
    assert!(!rejects("/api/v1/shorten", false, Some("not a url")));
    assert!(!rejects("/other", true, Some("not a url")));
    assert!(!rejects("/api/v1/shorten", true, None));
    let m = UrlValidatorMiddleware::new(5u8);
    assert_eq!(*m.service(), 5);
}

#[test]
fn cache_capacity_in_bytes() {
    let c = StorageConfig { path: "db".to_string(), cache_size_mb: 64, flush_interval_ms: 1000 };
    assert_eq!(c.cache_capacity_bytes(), Some(64 * 1024 * 1024));
    let big = StorageConfig { path: "db".to_string(), cache_size_mb: usize::MAX, flush_interval_ms: 1 };
    assert_eq!(big.cache_capacity_bytes(), None);
}

#[test]
fn repository_stores_gets_and_scans() {
    let db = sled::Config::new().temporary(true).open().unwrap();
    let repo = SledUrlRepository::new(db);
    assert_eq!(repo.get("k1").unwrap(), None);
    repo.store("k1", "v1").unwrap();
    repo.store("k2", "v2").unwrap();
    repo.store("x1", "v3").unwrap();
    assert_eq!(repo.get("k1").unwrap(), Some("v1".to_string()));
    let under_k = repo.scan_prefix("k").unwrap();
    assert_eq!(under_k.len(), 2);
    assert!(under_k.iter().all(|e| e.key.starts_with(b"k")));
    assert_eq!(repo.scan_prefix("").unwrap().len(), 3);
    repo.store("k1", "v9").unwrap();
    assert_eq!(repo.get("k1").unwrap(), Some("v9".to_string()));
}

#[test]
fn only_posts_to_the_shorten_route_are_inspected() {
    assert!(inspects("/api/v1/shorten", true));
    assert!(!inspects("/api/v1/shorten", false));
    assert!(!inspects("/api/v1/health", true));
}
