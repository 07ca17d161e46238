//! Authenticated symmetric encryption (AES-256-GCM) of URLs under one key.
//!
//! A ciphertext is laid out as `nonce ‖ sealed`, where the nonce is fresh
//! random bytes for each call and `sealed` holds the encrypted text followed
//! by its authentication tag.
use vstd::prelude::*;
use vstd::utf8::*;
use crate::codec::{base64_decode, base64_encode, base64_from, base64_of};
use crate::text::utf8_text;

verus! {

/// Bytes of key material: a 256-bit key.
pub const KEY_LEN: usize = 32;

/// Bytes of nonce prepended to each ciphertext: 96 bits.
pub const NONCE_LEN: usize = 12;

/// Bytes of authentication tag appended to each sealed text: 128 bits.
pub const TAG_LEN: usize = 16;

/// The longest text that AES-GCM seals: 2^36 - 32 bytes.
pub const MAX_SEAL_INPUT_LEN: u64 = 68719476704;

#[verifier::external_type_specification]
#[verifier::external_body]
pub struct ExSystemRandom(ring::rand::SystemRandom);

pub assume_specification[ ring::rand::SystemRandom::new ]() -> ring::rand::SystemRandom;

/// What AES-256-GCM sealing, with no associated data, makes of `plaintext`
/// under `key` and `nonce`: the ciphertext followed by the tag.
pub uninterp spec fn sealed(key: Seq<u8>, nonce: Seq<u8>, plaintext: Seq<u8>) -> Seq<u8>;

/// What AES-256-GCM opening, with no associated data, recovers from
/// `ciphertext` under `key` and `nonce`; `None` when it does not authenticate.
pub uninterp spec fn opened(key: Seq<u8>, nonce: Seq<u8>, ciphertext: Seq<u8>) -> Option<Seq<u8>>;

/// Relies on `SecureRandom::fill` of ring's `SystemRandom`: on success the
/// buffer of `len` bytes has been filled from the operating system.
#[verifier::external_body]
fn random_bytes(rng: &ring::rand::SystemRandom, len: usize) -> (r: Option<Vec<u8>>)
    ensures
        r is Some ==> r->0@.len() == len,
{
    let mut buf = vec![0u8; len];
    ring::rand::SecureRandom::fill(rng, &mut buf).ok()?;
    Some(buf)
}

/// Relies on ring's `LessSafeKey::seal_in_place_append_tag` with
/// `AES_256_GCM` and empty associated data; the key and nonce objects are
/// built from the raw bytes. It fails only on a text longer than AES-GCM
/// allows, appends a tag of `TAG_LEN` bytes, and what it seals opens under
/// the same key and nonce to the plaintext.
#[verifier::external_body]
fn seal(key: &[u8], nonce: &[u8], plaintext: &[u8]) -> (r: Option<Vec<u8>>)
    requires
        key@.len() == KEY_LEN,
        nonce@.len() == NONCE_LEN,
    ensures
        r is Some <==> plaintext@.len() <= MAX_SEAL_INPUT_LEN,
        r is Some ==> r->0@ == sealed(key@, nonce@, plaintext@),
        r is Some ==> r->0@.len() == plaintext@.len() + TAG_LEN,
        r is Some ==> opened(key@, nonce@, r->0@) == Some(plaintext@),
{
    let key = ring::aead::LessSafeKey::new(ring::aead::UnboundKey::new(&ring::aead::AES_256_GCM, key).ok()?);
    let nonce = ring::aead::Nonce::try_assume_unique_for_key(nonce).ok()?;
    let mut in_out = plaintext.to_vec();
    key.seal_in_place_append_tag(nonce, ring::aead::Aad::empty(), &mut in_out).ok()?;
    Some(in_out)
}

/// Relies on ring's `LessSafeKey::open_in_place` with `AES_256_GCM` and empty
/// associated data: it fails on input shorter than a tag and unless the tag
/// authenticates, and what was sealed under the same key and nonce, from a
/// text within AES-GCM's length limit, opens to that text.
#[verifier::external_body]
fn open(key: &[u8], nonce: &[u8], ciphertext: &[u8]) -> (r: Option<Vec<u8>>)
    requires
        key@.len() == KEY_LEN,
        nonce@.len() == NONCE_LEN,
    ensures
        r is Some <==> opened(key@, nonce@, ciphertext@) is Some,
        r is Some ==> r->0@ == opened(key@, nonce@, ciphertext@)->0,
        ciphertext@.len() < TAG_LEN ==> r is None,
        forall|p: Seq<u8>| p.len() <= MAX_SEAL_INPUT_LEN && ciphertext@ == sealed(key@, nonce@, p) ==> (r is Some
            && r->0@ == p),
{
    let key = ring::aead::LessSafeKey::new(ring::aead::UnboundKey::new(&ring::aead::AES_256_GCM, key).ok()?);
    let nonce = ring::aead::Nonce::try_assume_unique_for_key(nonce).ok()?;
    let mut in_out = ciphertext.to_vec();
    let plaintext = key.open_in_place(nonce, ring::aead::Aad::empty(), &mut in_out).ok()?;
    Some(plaintext.to_vec())
}

#[derive(Debug)]
pub enum EncryptionError {
    KeyGeneration(String),
    KeyStorage(String),
    Encryption(String),
    Decryption(String),
}

/// The text that `decrypt` yields for `blob` under `key`, if any: the
/// nonce is the first `NONCE_LEN` bytes, and the rest must authenticate and
/// open to valid UTF-8.
pub open spec fn decrypted(key: Seq<u8>, blob: Seq<u8>) -> Option<Seq<char>> {
    if blob.len() < NONCE_LEN {
        None
    } else {
        match opened(key, blob.take(NONCE_LEN as int), blob.skip(NONCE_LEN as int)) {
            Some(p) => if valid_utf8(p) {
                Some(decode_utf8(p))
            } else {
                None
            },
            None => None,
        }
    }
}

/// Whether `blob` is what encrypting `text` under `key` can produce; texts
/// beyond AES-GCM's length limit have no encryption.
pub open spec fn is_encryption_of(key: Seq<u8>, blob: Seq<u8>, text: Seq<char>) -> bool {
    encode_utf8(text).len() <= MAX_SEAL_INPUT_LEN && exists|nonce: Seq<u8>|
        nonce.len() == NONCE_LEN && blob == nonce + sealed(key, nonce, encode_utf8(text))
}

/// Holds the key for the life of the service; it is never handed out.
pub struct EncryptionService {
    key: Vec<u8>,
    rng: ring::rand::SystemRandom,
}

impl EncryptionService {
    /// The key material.
    pub closed spec fn key(&self) -> Seq<u8> {
        self.key@
    }

    pub closed spec fn wf(&self) -> bool {
        self.key@.len() == KEY_LEN
    }

    /// Builds the service from the stored key text, or, where none is
    /// stored, from fresh random key material. In the second case the
    /// printable form of the new key comes back beside the service, for the
    /// caller to persist before it encrypts anything.
    pub fn new(stored_key: Option<&str>) -> (r: Result<(EncryptionService, Option<String>), EncryptionError>)
        ensures
            r is Ok ==> (r->Ok_0).0.wf(),
            r is Ok ==> (r->Ok_0).0.key().len() == KEY_LEN,
            stored_key is Some ==> (r is Ok <==> (base64_from(stored_key->0@) is Some
                && base64_from(stored_key->0@)->0.len() == KEY_LEN)),
            stored_key is Some && r is Ok ==> (r->Ok_0).1 is None
                && (r->Ok_0).0.key() == base64_from(stored_key->0@)->0,
            stored_key is Some && r is Err ==> r->Err_0 is KeyStorage,
            forall|k: Seq<u8>| stored_key is Some && stored_key->0@ == base64_of(k) && k.len() == KEY_LEN
                ==> r is Ok && (r->Ok_0).0.key() == k,
            stored_key is None && r is Ok ==> (r->Ok_0).1 is Some
                && (r->Ok_0).1->0@ == base64_of((r->Ok_0).0.key()),
            stored_key is None && r is Err ==> r->Err_0 is KeyGeneration,
    {
        let rng = ring::rand::SystemRandom::new();
        let (key, fresh) = Self::load_or_generate_key(&rng, stored_key)?;
        Ok((EncryptionService { key, rng }, fresh))
    }

    fn load_or_generate_key(rng: &ring::rand::SystemRandom, stored_key: Option<&str>) -> (r: Result<(Vec<u8>, Option<String>), EncryptionError>)
        ensures
            r is Ok ==> (r->Ok_0).0@.len() == KEY_LEN,
            stored_key is Some ==> (r is Ok <==> (base64_from(stored_key->0@) is Some
                && base64_from(stored_key->0@)->0.len() == KEY_LEN)),
            stored_key is Some && r is Ok ==> (r->Ok_0).1 is None
                && (r->Ok_0).0@ == base64_from(stored_key->0@)->0,
            stored_key is Some && r is Err ==> r->Err_0 is KeyStorage,
            forall|k: Seq<u8>| stored_key is Some && stored_key->0@ == base64_of(k) && k.len() == KEY_LEN
                ==> r is Ok && (r->Ok_0).0@ == k,
            stored_key is None && r is Ok ==> (r->Ok_0).1 is Some && (r->Ok_0).1->0@ == base64_of((r->Ok_0).0@),
            stored_key is None && r is Err ==> r->Err_0 is KeyGeneration,
    {
        match stored_key {
            Some(text) => {
                let key = match base64_decode(text) {
                    Some(k) => k,
                    None => {
                        return Err(EncryptionError::KeyStorage("Failed to decode key".to_owned()));
                    },
                };
                if key.len() != KEY_LEN {
                    return Err(EncryptionError::KeyStorage("Invalid key length".to_owned()));
                }
                Ok((key, None))
            },
            None => {
                let key = match random_bytes(rng, KEY_LEN) {
                    Some(k) => k,
                    None => {
                        return Err(
                            EncryptionError::KeyGeneration(
                                "Failed to generate encryption key".to_owned(),
                            ),
                        );
                    },
                };
                let encoded = base64_encode(key.as_slice());
                Ok((key, Some(encoded)))
            },
        }
    }

    /// Encrypts `data` under a fresh random nonce.
    pub fn encrypt(&self, data: &str) -> (r: Result<Vec<u8>, EncryptionError>)
        requires
            self.wf(),
        ensures
            r is Ok ==> is_encryption_of(self.key(), r->Ok_0@, data@),
            r is Ok ==> decrypted(self.key(), r->Ok_0@) == Some(data@),
            r is Ok ==> r->Ok_0@.len() == NONCE_LEN + encode_utf8(data@).len() + TAG_LEN,
            r is Err ==> r->Err_0 is Encryption,
    {
        let nonce = match random_bytes(&self.rng, NONCE_LEN) {
            Some(n) => n,
            None => {
                return Err(EncryptionError::Encryption("Failed to generate nonce".to_owned()));
            },
        };
        self.encrypt_with_nonce(&nonce, data)
    }

    /// Encrypts `data` under the given nonce: the result is the nonce
    /// followed by the sealed text.
    pub fn encrypt_with_nonce(&self, nonce: &Vec<u8>, data: &str) -> (r: Result<Vec<u8>, EncryptionError>)
        requires
            self.wf(),
            nonce@.len() == NONCE_LEN,
        ensures
            encode_utf8(data@).len() <= MAX_SEAL_INPUT_LEN ==> r is Ok,
            r is Ok ==> r->Ok_0@ == nonce@ + sealed(self.key(), nonce@, encode_utf8(data@)),
            r is Ok ==> r->Ok_0@.len() == NONCE_LEN + encode_utf8(data@).len() + TAG_LEN,
            r is Ok ==> is_encryption_of(self.key(), r->Ok_0@, data@),
            r is Ok ==> decrypted(self.key(), r->Ok_0@) == Some(data@),
            r is Err ==> r->Err_0 is Encryption,
    {
        let bytes = data.as_bytes();
        let mut sealed_text = match seal(self.key.as_slice(), nonce.as_slice(), bytes) {
            Some(s) => s,
            None => {
                return Err(EncryptionError::Encryption("Failed to encrypt data".to_owned()));
            },
        };
        let ghost sealed_view = sealed_text@;
        let mut result = nonce.clone();
        result.append(&mut sealed_text);
        proof {
            assert(result@.take(NONCE_LEN as int) == nonce@);
            assert(result@.skip(NONCE_LEN as int) == sealed_view);
            broadcast use encode_utf8_valid_utf8, encode_utf8_decode_utf8;
        }
        Ok(result)
    }

    /// Decrypts a blob made by `encrypt` under the same key. It fails when
    /// the blob is shorter than a nonce, does not authenticate, or does not
    /// open to valid UTF-8; whatever `encrypt` produced from a text opens to
    /// that same text.
    pub fn decrypt(&self, encrypted_data: &[u8]) -> (r: Result<String, EncryptionError>)
        requires
            self.wf(),
        ensures
            r is Ok <==> decrypted(self.key(), encrypted_data@) is Some,
            r is Ok ==> r->Ok_0@ == decrypted(self.key(), encrypted_data@)->0,
            r is Err ==> r->Err_0 is Decryption,
            encrypted_data@.len() < NONCE_LEN + TAG_LEN ==> r is Err,
            forall|text: Seq<char>| is_encryption_of(self.key(), encrypted_data@, text) ==> (r is Ok
                && r->Ok_0@ == text),
    {
        if encrypted_data.len() < NONCE_LEN {
            return Err(EncryptionError::Decryption("Invalid encrypted data".to_owned()));
        }
        let mut nonce: Vec<u8> = Vec::new();
        let mut ciphertext: Vec<u8> = Vec::new();
        let mut i: usize = 0;
        while i < encrypted_data.len()
            invariant
                i <= encrypted_data@.len(),
                i <= NONCE_LEN ==> nonce@ == encrypted_data@.take(i as int) && ciphertext@.len() == 0,
                i > NONCE_LEN ==> nonce@ == encrypted_data@.take(NONCE_LEN as int)
                    && ciphertext@ == encrypted_data@.subrange(NONCE_LEN as int, i as int),
            decreases encrypted_data@.len() - i,
        {
            if i < NONCE_LEN {
                nonce.push(encrypted_data[i]);
            } else {
                ciphertext.push(encrypted_data[i]);
            }
            proof {
                assert(encrypted_data@.take(i + 1) == encrypted_data@.take(i as int).push(encrypted_data@[i as int]));
                if i >= NONCE_LEN {
                    assert(encrypted_data@.subrange(NONCE_LEN as int, i + 1)
                        == encrypted_data@.subrange(NONCE_LEN as int, i as int).push(encrypted_data@[i as int]));
                }
            }
            i += 1;
        }
        assert(ciphertext@ == encrypted_data@.skip(NONCE_LEN as int));
        let opened_text = open(self.key.as_slice(), nonce.as_slice(), ciphertext.as_slice());
        proof {
            assert forall|text: Seq<char>| is_encryption_of(self.key(), encrypted_data@, text) implies
                opened_text is Some && opened_text->0@ == encode_utf8(text) by {
                let n = choose|n: Seq<u8>| n.len() == NONCE_LEN && encrypted_data@ == n + sealed(self.key(), n, encode_utf8(text));
                assert(encrypted_data@.take(NONCE_LEN as int) == n);
                assert(encrypted_data@.skip(NONCE_LEN as int) == sealed(self.key(), n, encode_utf8(text)));
            }
        }
        let plaintext = match opened_text {
            Some(p) => p,
            None => {
                return Err(EncryptionError::Decryption("Failed to decrypt data".to_owned()));
            },
        };
        let r = match utf8_text(plaintext) {
            Some(s) => Ok(s),
            None => Err(EncryptionError::Decryption("Invalid UTF-8 in decrypted data".to_owned())),
        };
        proof {
            broadcast use encode_utf8_valid_utf8, encode_utf8_decode_utf8;
        }
        r
    }
}

} // verus!
