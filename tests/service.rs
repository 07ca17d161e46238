use url_shortener::encryption::EncryptionService;
use url_shortener::handlers::{
    redirect_error_message, shorten_error_message, status_code, ShortenResponse,
};
use url_shortener::repository::{Entry, RepositoryError, SledUrlRepository};
use url_shortener::service::{validate_alias, UrlService, UrlServiceError};

const BASE: &str = "http://127.0.0.1:8080";

fn fresh_service() -> UrlService {
    let db = sled::Config::new().temporary(true).open().unwrap();
    let repo = SledUrlRepository::new(db);
    let (enc, _) = EncryptionService::new(None).unwrap();
    UrlService::new(repo, BASE.to_string(), enc)
}

fn stored_count(db: &sled::Db) -> usize {
    db.iter().count()
}

fn service_with_db() -> (UrlService, sled::Db) {
    let db = sled::Config::new().temporary(true).open().unwrap();
    let repo = SledUrlRepository::new(db.clone());
    let (enc, _) = EncryptionService::new(None).unwrap();
    (UrlService::new(repo, BASE.to_string(), enc), db)
}

#[test]
fn same_url_twice_gives_same_code() {
    let (svc, db) = service_with_db();
    let a = svc.shorten_url("https://example.com/a".to_string(), None).unwrap();
    let b = svc.shorten_url("https://example.com/a".to_string(), None).unwrap();
    assert_eq!(a.short_code, b.short_code);
    assert_eq!(stored_count(&db), 1);
    assert_eq!(svc.get_url(&a.short_code).unwrap(), "https://example.com/a");
}

#[test]
fn generated_code_has_six_safe_characters() {
    let svc = fresh_service();
    let a = svc.shorten_url("https://example.com/g".to_string(), None).unwrap();
    assert_eq!(a.short_code.chars().count(), 6);
    assert!(a.short_code.chars().all(|c| c.is_ascii_alphanumeric() || c == '-' || c == '_'));
    assert_eq!(a.full_short_url, format!("{}/{}", BASE, a.short_code));
}

#[test]
fn url_is_normalized() {
    let svc = fresh_service();
    let a = svc.shorten_url("HTTPS://Example.COM".to_string(), None).unwrap();
    assert_eq!(a.original_url, "https://example.com/");
    let b = svc.shorten_url("https://example.com/".to_string(), None).unwrap();
    assert_eq!(a.short_code, b.short_code);
    assert_eq!(svc.get_url(&a.short_code).unwrap(), "https://example.com/");
}

#[test]
fn invalid_url_is_refused() {
    let svc = fresh_service();
    match svc.shorten_url("not a url".to_string(), None) {
        Err(UrlServiceError::InvalidUrl(u)) => assert_eq!(u, "not a url"),
        other => panic!("unexpected {:?}", other),
    }
    assert!(matches!(
        svc.shorten_url("/relative/path".to_string(), Some("abc".to_string())),
        Err(UrlServiceError::InvalidUrl(_))
    ));
}

#[test]
fn alias_twice_is_idempotent() {
    let (svc, db) = service_with_db();
    let a = svc.shorten_url("https://example.com/p".to_string(), Some("mine".to_string())).unwrap();
    let b = svc.shorten_url("https://example.com/p".to_string(), Some("mine".to_string())).unwrap();
    assert_eq!(a.short_code, "mine");
    assert_eq!(a.short_code, b.short_code);
    assert_eq!(a.original_url, b.original_url);
    assert_eq!(a.full_short_url, b.full_short_url);
    assert_eq!(a.full_short_url, "http://127.0.0.1:8080/mine");
    assert_eq!(stored_count(&db), 1);
}

#[test]
fn alias_conflict_leaves_store_unchanged() {
    let (svc, db) = service_with_db();
    svc.shorten_url("https://example.com/x".to_string(), Some("taken".to_string())).unwrap();
    let before: Vec<_> = db.iter().map(|r| r.unwrap()).collect();
    match svc.shorten_url("https://example.com/y".to_string(), Some("taken".to_string())) {
        Err(UrlServiceError::AliasExists(a)) => assert_eq!(a, "taken"),
        other => panic!("unexpected {:?}", other),
    }
    let after: Vec<_> = db.iter().map(|r| r.unwrap()).collect();
    assert_eq!(before, after);
    assert_eq!(svc.get_url("taken").unwrap(), "https://example.com/x");
}

#[test]
fn alias_shapes() {
    assert!(matches!(validate_alias("ab"), Err(UrlServiceError::InvalidAlias(_))));
    assert!(matches!(validate_alias(&"a".repeat(33)), Err(UrlServiceError::InvalidAlias(_))));
    assert!(matches!(validate_alias("me@home"), Err(UrlServiceError::InvalidAlias(_))));
    assert!(validate_alias("abc").is_ok());
    assert!(validate_alias(&"z".repeat(32)).is_ok());
    assert!(validate_alias("my-link_2").is_ok());
    assert!(validate_alias("héllo").is_ok());
    assert!(matches!(validate_alias("a b c"), Err(UrlServiceError::InvalidAlias(_))));
}

#[test]
fn bad_alias_is_refused_by_shorten() {
    let (svc, db) = service_with_db();
    assert!(matches!(
        svc.shorten_url("https://example.com/q".to_string(), Some("ab".to_string())),
        Err(UrlServiceError::InvalidAlias(_))
    ));
    assert!(matches!(
        svc.shorten_url("https://example.com/q".to_string(), Some("x@y".to_string())),
        Err(UrlServiceError::InvalidAlias(_))
    ));
    assert_eq!(stored_count(&db), 0);
}

#[test]
fn unknown_code_is_not_found() {
    let svc = fresh_service();
    match svc.get_url("nope") {
        Err(UrlServiceError::NotFound(c)) => assert_eq!(c, "nope"),
        other => panic!("unexpected {:?}", other),
    }
}

#[test]
fn scenario_repeat_and_resolve() {
    let svc = fresh_service();
    let c1 = svc.shorten_url("https://example.com/a".to_string(), None).unwrap().short_code;
    let again = svc.shorten_url("https://example.com/a".to_string(), None).unwrap().short_code;
    assert_eq!(c1, again);
    assert_eq!(svc.get_url(&c1).unwrap(), "https://example.com/a");
}

#[test]
fn scenario_alias_then_conflict() {
    let svc = fresh_service();
    let r = svc.shorten_url("https://example.com/b".to_string(), Some("my-link".to_string())).unwrap();
    assert_eq!(r.short_code, "my-link");
    assert_eq!(r.original_url, "https://example.com/b");
    assert_eq!(svc.get_url("my-link").unwrap(), "https://example.com/b");
    assert!(matches!(
        svc.shorten_url("https://example.com/c".to_string(), Some("my-link".to_string())),
        Err(UrlServiceError::AliasExists(_))
    ));
}

#[test]
fn stored_text_that_is_not_base64_is_a_storage_error() {
    let svc = fresh_service();
    assert!(matches!(
        svc.resolve_stored("k", Some("%%%".to_string())),
        Err(UrlServiceError::StorageError(_))
    ));
    assert!(matches!(
        svc.resolve_stored("k", Some("AAAA".to_string())),
        Err(UrlServiceError::EncryptionError(_))
    ));
    assert!(matches!(svc.resolve_stored("k", None), Err(UrlServiceError::NotFound(_))));
}

#[test]
fn duplicate_search_skips_unreadable_entries() {
    let svc = fresh_service();
    let text = svc.stored_text("https://example.com/").unwrap();
    let items = vec![
        Entry { key: b"abc".to_vec(), value: b"garbage".to_vec() },
        Entry { key: b"def".to_vec(), value: text.clone().into_bytes() },
        Entry { key: b"ghi".to_vec(), value: text.into_bytes() },
    ];
    assert_eq!(svc.match_scanned(&items, &"https://example.com/".to_string()), Some("def".to_string()));
    assert_eq!(svc.match_scanned(&items[..1].iter().map(|e| Entry { key: e.key.clone(), value: e.value.clone() }).collect(), &"https://example.com/".to_string()), None);
}

#[test]
fn code_lookup_outcomes() {
    assert_eq!(UrlService::code_lookup_outcome("abcdef".to_string(), Ok(None)).unwrap(), Some("abcdef".to_string()));
    assert_eq!(UrlService::code_lookup_outcome("abcdef".to_string(), Ok(Some("x".to_string()))).unwrap(), None);
    assert!(matches!(
        UrlService::code_lookup_outcome("abcdef".to_string(), Err(RepositoryError::Storage("io".to_string()))),
        Err(UrlServiceError::StorageError(_))
    ));
}

#[test]
fn errors_convert_into_service_errors() {
    let e: UrlServiceError = RepositoryError::Storage("io".to_string()).into();
    assert!(matches!(e, UrlServiceError::StorageError(_)));
    let e: UrlServiceError = url_shortener::encryption::EncryptionError::Decryption("x".to_string()).into();
    assert!(matches!(e, UrlServiceError::EncryptionError(_)));
}

#[test]
fn duplicate_search_finds_stored_url() {
    let svc = fresh_service();
    let made = svc.shorten_url("https://example.com/d".to_string(), Some("dup".to_string())).unwrap();
    let found = svc.find_existing_url("https://example.com/d").unwrap();
    assert_eq!(found, Some(made.short_code));
    assert_eq!(svc.find_existing_url("https://example.com/e").unwrap(), None);
}

#[test]
fn error_statuses_and_messages() {
    let e = UrlServiceError::AliasExists("a1b".to_string());
    assert_eq!(status_code(&e), 409);
    assert_eq!(shorten_error_message(&e), "Alias 'a1b' is already taken");
    let e = UrlServiceError::InvalidAlias("too short".to_string());
    assert_eq!(status_code(&e), 400);
    assert_eq!(shorten_error_message(&e), "Invalid alias: too short");
    let e = UrlServiceError::InvalidUrl("x".to_string());
    assert_eq!(status_code(&e), 400);
    assert_eq!(shorten_error_message(&e), "Invalid URL format");
    let e = UrlServiceError::NotFound("x".to_string());
    assert_eq!(status_code(&e), 404);
    assert_eq!(redirect_error_message(&e), "URL not found");
    let e = UrlServiceError::StorageError(RepositoryError::Storage("disk".to_string()));
    assert_eq!(status_code(&e), 500);
    assert_eq!(shorten_error_message(&e), "Failed to shorten URL");
    assert_eq!(redirect_error_message(&e), "Failed to retrieve URL");
}

#[test]
fn response_carries_the_short_url() {
    let svc = fresh_service();
    let s = svc.shorten_url("https://example.com/r".to_string(), Some("resp".to_string())).unwrap();
    let r = ShortenResponse::from_shortened(s);
    assert_eq!(r.short_code, "resp");
    assert_eq!(r.original_url, "https://example.com/r");
    assert_eq!(r.short_url, "http://127.0.0.1:8080/resp");
}

#[test]
fn alias_outcome_decides_on_the_stored_value() {
    let svc = fresh_service();
    let text = svc.stored_text("https://example.com/s").unwrap();
    assert!(matches!(
        svc.alias_outcome("abc".to_string(), "https://example.com/s".to_string(), None),
        Ok(None)
    ));
    match svc.alias_outcome("abc".to_string(), "https://example.com/s".to_string(), Some(text.clone())) {
        Ok(Some(s)) => {
            assert_eq!(s.short_code, "abc");
            assert_eq!(s.original_url, "https://example.com/s");
            assert_eq!(s.full_short_url, "http://127.0.0.1:8080/abc");
        }
        other => panic!("unexpected {:?}", other),
    }
    match svc.alias_outcome("abc".to_string(), "https://example.com/t".to_string(), Some(text)) {
        Err(UrlServiceError::AliasExists(a)) => assert_eq!(a, "abc"),
        other => panic!("unexpected {:?}", other),
    }
    assert!(matches!(
        svc.alias_outcome("abc".to_string(), "https://example.com/t".to_string(), Some("@@".to_string())),
        Err(UrlServiceError::StorageError(_))
    ));
}

#[test]
fn stored_text_resolves_to_the_url() {
    let svc = fresh_service();
    let text = svc.stored_text("https://example.com/z").unwrap();
    assert_ne!(text, "https://example.com/z");
    assert_eq!(svc.resolve_stored("k", Some(text)).unwrap(), "https://example.com/z");
}

#[test]
fn fresh_code_is_free_and_well_formed() {
    let svc = fresh_service();
    let code = svc.fresh_code().unwrap();
    assert_eq!(code.chars().count(), 6);
    assert!(code.chars().all(|c| c.is_ascii_alphanumeric() || c == '-' || c == '_'));
    assert!(matches!(svc.get_url(&code), Err(UrlServiceError::NotFound(_))));
}
