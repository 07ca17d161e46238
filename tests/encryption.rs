use url_shortener::encryption::{EncryptionError, EncryptionService, NONCE_LEN};

fn fresh_service() -> EncryptionService {
    let (svc, key_text) = EncryptionService::new(None).unwrap();
    assert!(key_text.is_some());
    svc
}

#[test]
fn round_trip_returns_the_text() {
    let svc = fresh_service();
    for text in ["https://example.com/a", "", "https://example.com/ä?q=1"] {
        let blob = svc.encrypt(text).unwrap();
        assert_eq!(svc.decrypt(&blob).unwrap(), text);
    }
}

#[test]
fn encryption_uses_a_fresh_nonce_each_time() {
    let svc = fresh_service();
    let a = svc.encrypt("https://example.com/a").unwrap();
    let b = svc.encrypt("https://example.com/a").unwrap();
    assert_ne!(a, b);
    assert_eq!(a.len(), NONCE_LEN + "https://example.com/a".len() + 16);
}

#[test]
fn encrypt_with_nonce_prepends_the_nonce() {
    let svc = fresh_service();
    let nonce = vec![7u8; NONCE_LEN];
    let blob = svc.encrypt_with_nonce(&nonce, "abc").unwrap();
    assert_eq!(&blob[..NONCE_LEN], &nonce[..]);
    assert_ne!(&blob[NONCE_LEN..NONCE_LEN + 3], b"abc");
    assert_eq!(svc.decrypt(&blob).unwrap(), "abc");
}

#[test]
fn flipping_any_bit_fails_decryption() {
    let svc = fresh_service();
    let blob = svc.encrypt("https://example.com/a").unwrap();
    for i in 0..blob.len() {
        for bit in 0..8 {
            let mut t = blob.clone();
            t[i] ^= 1 << bit;
            assert!(matches!(svc.decrypt(&t), Err(EncryptionError::Decryption(_))));
        }
    }
}

#[test]
fn short_blob_fails_decryption() {
    let svc = fresh_service();
    assert!(matches!(svc.decrypt(&[1, 2, 3]), Err(EncryptionError::Decryption(_))));
    assert!(matches!(svc.decrypt(&[]), Err(EncryptionError::Decryption(_))));
}

#[test]
fn other_key_fails_decryption() {
    let a = fresh_service();
    let b = fresh_service();
    let blob = a.encrypt("https://example.com/a").unwrap();
    assert!(matches!(b.decrypt(&blob), Err(EncryptionError::Decryption(_))));
}

#[test]
fn stored_key_is_reloaded() {
    let (a, key_text) = EncryptionService::new(None).unwrap();
    let key_text = key_text.unwrap();
    assert_eq!(key_text.len(), 44);
    let (b, again) = EncryptionService::new(Some(&key_text)).unwrap();
    assert!(again.is_none());
    let blob = a.encrypt("https://example.com/x").unwrap();
    assert_eq!(b.decrypt(&blob).unwrap(), "https://example.com/x");
    let back = b.encrypt("https://example.com/y").unwrap();
    assert_eq!(a.decrypt(&back).unwrap(), "https://example.com/y");
}

#[test]
fn wrong_length_key_is_refused() {
    // 16 bytes of zeros.
    let r = EncryptionService::new(Some("AAAAAAAAAAAAAAAAAAAAAA=="));
    assert!(matches!(r, Err(EncryptionError::KeyStorage(_))));
}

#[test]
fn undecodable_key_is_refused() {
    let r = EncryptionService::new(Some("not base64 at all!"));
    assert!(matches!(r, Err(EncryptionError::KeyStorage(_))));
}

#[test]
fn blob_shorter_than_nonce_and_tag_fails() {
    let svc = fresh_service();
    let blob = vec![0u8; NONCE_LEN + 15];
    assert!(matches!(svc.decrypt(&blob), Err(EncryptionError::Decryption(_))));
}

#[test]
fn encrypt_with_nonce_has_nonce_text_and_tag_length() {
    let svc = fresh_service();
    let nonce = vec![1u8; NONCE_LEN];
    let blob = svc.encrypt_with_nonce(&nonce, "").unwrap();
    assert_eq!(blob.len(), NONCE_LEN + 16);
    assert_eq!(svc.decrypt(&blob).unwrap(), "");
}
