//! The URL mapping service: validation, custom aliases, reuse of an existing
//! code for a URL already stored, minting of new codes, and resolution.
use vstd::prelude::*;
use vstd::string::*;
use vstd::utf8::*;
use crate::codec::{base64_decode, base64_encode, base64_from, base64_of};
use crate::encryption::{decrypted, is_encryption_of, EncryptionError, EncryptionService};
use crate::model::{alias_step, AliasStep};
use crate::repository::{Entry, RepositoryError, SledUrlRepository};
use crate::text::{alphanumeric, ascii_alphanumeric, is_alphanumeric, utf8_text};

verus! {

/// Shortest accepted custom alias, in characters.
pub const MIN_ALIAS_LEN: usize = 3;

/// Longest accepted custom alias, in characters.
pub const MAX_ALIAS_LEN: usize = 32;

/// Characters in a generated code.
pub const GENERATED_CODE_LEN: usize = 6;

/// How many generated codes are tried before giving up on finding a free one.
pub const MAX_CODE_ATTEMPTS: usize = 8;

/// The canonical serialisation of `s` as parsed by the `url` crate, or
/// `None` when `s` is not an absolute, well-formed URL.
pub uninterp spec fn normalized_url(s: Seq<char>) -> Option<Seq<char>>;

/// Relies on `url::Url::parse` and the parsed URL's serialisation.
#[verifier::external_body]
pub(crate) fn parse_url(s: &str) -> (r: Option<String>)
    ensures
        r is Some <==> normalized_url(s@) is Some,
        r is Some ==> r->0@ == normalized_url(s@)->0,
{
    url::Url::parse(s).ok().map(|u| u.to_string())
}

/// A character of nanoid's URL-safe alphabet.
pub open spec fn code_char(c: char) -> bool {
    ascii_alphanumeric(c) || c == '-' || c == '_'
}

/// Relies on `nanoid::format` with the default random source and the
/// `SAFE` alphabet (ASCII letters, digits, `-` and `_`): it returns exactly
/// the requested number of characters, each drawn from that alphabet.
#[verifier::external_body]
fn random_code() -> (r: String)
    ensures
        r@.len() == GENERATED_CODE_LEN,
        forall|i: int| 0 <= i < r@.len() ==> code_char(#[trigger] r@[i]),
{
    nanoid::format(nanoid::rngs::default, &nanoid::alphabet::SAFE, GENERATED_CODE_LEN)
}

/// A character allowed in a custom alias.
pub open spec fn alias_char(c: char) -> bool {
    alphanumeric(c) || c == '-' || c == '_'
}

/// The shape a custom alias must have.
pub open spec fn valid_alias(a: Seq<char>) -> bool {
    MIN_ALIAS_LEN <= a.len() <= MAX_ALIAS_LEN && forall|i: int| 0 <= i < a.len() ==> alias_char(#[trigger] a[i])
}

/// The public short URL of `code` under `base`.
pub open spec fn short_url_of(base: Seq<char>, code: Seq<char>) -> Seq<char> {
    base + seq!['/'] + code
}

/// The URL that a stored text stands for under `key`: the text is the
/// base64 form of a ciphertext.
pub open spec fn stored_url(key: Seq<u8>, text: Seq<char>) -> Option<Seq<char>> {
    match base64_from(text) {
        Some(blob) => decrypted(key, blob),
        None => None,
    }
}

/// The URL that a scanned entry stands for under `key`.
pub open spec fn entry_url(key: Seq<u8>, e: Entry) -> Option<Seq<char>> {
    if valid_utf8(e.value@) {
        stored_url(key, decode_utf8(e.value@))
    } else {
        None
    }
}

/// Whether `code` has the shape of a generated code.
pub open spec fn generated_code(code: Seq<char>) -> bool {
    code.len() == GENERATED_CODE_LEN && forall|i: int| 0 <= i < code.len() ==> code_char(#[trigger] code[i])
}

/// Whether a scanned entry has a code that is text and stands for `url`.
pub open spec fn entry_matches(key: Seq<u8>, e: Entry, url: Seq<char>) -> bool {
    valid_utf8(e.key@) && entry_url(key, e) == Some(url)
}

/// Whether no scanned entry before `n` stands for `url`.
pub open spec fn no_match_before(key: Seq<u8>, items: Seq<Entry>, url: Seq<char>, n: int) -> bool {
    forall|j: int| 0 <= j < n ==> !entry_matches(key, #[trigger] items[j], url)
}

#[derive(Debug)]
pub enum UrlServiceError {
    InvalidUrl(String),
    NotFound(String),
    StorageError(RepositoryError),
    InvalidAlias(String),
    AliasExists(String),
    EncryptionError(EncryptionError),
}

impl From<RepositoryError> for UrlServiceError {
    fn from(error: RepositoryError) -> UrlServiceError {
        UrlServiceError::StorageError(error)
    }
}

impl vstd::std_specs::convert::FromSpecImpl<RepositoryError> for UrlServiceError {
    open spec fn obeys_from_spec() -> bool {
        true
    }

    open spec fn from_spec(v: RepositoryError) -> UrlServiceError {
        UrlServiceError::StorageError(v)
    }
}

impl From<EncryptionError> for UrlServiceError {
    fn from(error: EncryptionError) -> UrlServiceError {
        UrlServiceError::EncryptionError(error)
    }
}

impl vstd::std_specs::convert::FromSpecImpl<EncryptionError> for UrlServiceError {
    open spec fn obeys_from_spec() -> bool {
        true
    }

    open spec fn from_spec(v: EncryptionError) -> UrlServiceError {
        UrlServiceError::EncryptionError(v)
    }
}

/// The answer to a successful shortening request.
#[derive(Debug, Clone)]
pub struct ShortenedUrl {
    pub short_code: String,
    pub original_url: String,
    pub full_short_url: String,
}

/// Checks the shape of a custom alias: 3 to 32 characters, each
/// alphanumeric, `-` or `_`.
pub fn validate_alias(alias: &str) -> (r: Result<(), UrlServiceError>)
    ensures
        r is Ok <==> valid_alias(alias@),
        r is Err ==> r->Err_0 is InvalidAlias,
{
    let n = alias.unicode_len();
    if n < MIN_ALIAS_LEN {
        return Err(UrlServiceError::InvalidAlias("Alias must be at least 3 characters long".to_owned()));
    }
    if n > MAX_ALIAS_LEN {
        return Err(UrlServiceError::InvalidAlias("Alias must not exceed 32 characters".to_owned()));
    }
    let mut i: usize = 0;
    while i < n
        invariant
            n == alias@.len(),
            i <= n,
            forall|j: int| 0 <= j < i ==> alias_char(#[trigger] alias@[j]),
        decreases n - i,
    {
        let c = alias.get_char(i);
        if !(is_alphanumeric(c) || c == '-' || c == '_') {
            return Err(
                UrlServiceError::InvalidAlias(
                    "Alias can only contain alphanumeric characters, hyphens, and underscores".to_owned(),
                ),
            );
        }
        i += 1;
    }
    Ok(())
}

pub struct UrlService {
    repository: SledUrlRepository,
    base_url: String,
    encryption: EncryptionService,
}

impl UrlService {
    pub closed spec fn wf(&self) -> bool {
        self.encryption.wf()
    }

    /// The encryption key in use.
    pub closed spec fn key(&self) -> Seq<u8> {
        self.encryption.key()
    }

    /// The base that short URLs are built on.
    pub closed spec fn base_url(&self) -> Seq<char> {
        self.base_url@
    }

    /// A service over `repository` whose short URLs are `base_url/code`.
    pub fn new(repository: SledUrlRepository, base_url: String, encryption: EncryptionService) -> (r: UrlService)
        requires
            encryption.wf(),
        ensures
            r.wf(),
            r.key() == encryption.key(),
            r.base_url() == base_url@,
    {
        UrlService { repository, base_url, encryption }
    }

    /// The answer that reports `code` for `url`.
    fn shortened(&self, code: String, url: String) -> (r: ShortenedUrl)
        ensures
            r.short_code@ == code@,
            r.original_url@ == url@,
            r.full_short_url@ == short_url_of(self.base_url(), code@),
    {
        let mut full = self.base_url.clone();
        full.append("/");
        full.append(code.as_str());
        proof {
            reveal_strlit("/");
        }
        ShortenedUrl { short_code: code, original_url: url, full_short_url: full }
    }

    /// Turns what the store holds under `code` into the URL it stands for:
    /// nothing stored is `NotFound`; text that is not base64 is a storage
    /// error; a ciphertext that does not decrypt is an encryption error.
    pub fn resolve_stored(&self, code: &str, stored: Option<String>) -> (r: Result<String, UrlServiceError>)
        requires
            self.wf(),
        ensures
            stored is None ==> r is Err && r->Err_0 is NotFound && r->Err_0->NotFound_0@ == code@,
            stored is Some ==> (r is Ok <==> stored_url(self.key(), stored->0@) is Some),
            r is Ok ==> stored is Some && r->Ok_0@ == stored_url(self.key(), stored->0@)->0,
            stored is Some && base64_from(stored->0@) is None ==> r is Err && r->Err_0 is StorageError,
            stored is Some && base64_from(stored->0@) is Some && r is Err ==> r->Err_0 is EncryptionError,
    {
        match stored {
            None => Err(UrlServiceError::NotFound(code.to_owned())),
            Some(text) => {
                let blob = match base64_decode(text.as_str()) {
                    Some(b) => b,
                    None => {
                        return Err(
                            UrlServiceError::StorageError(
                                RepositoryError::Storage("Invalid base64 data".to_owned()),
                            ),
                        );
                    },
                };
                match self.encryption.decrypt(blob.as_slice()) {
                    Ok(url) => Ok(url),
                    Err(e) => Err(UrlServiceError::EncryptionError(e)),
                }
            },
        }
    }

    /// The URL that `short_code` resolves to.
    pub fn get_url(&self, short_code: &str) -> (r: Result<String, UrlServiceError>)
        requires
            self.wf(),
        ensures
            r is Err ==> (r->Err_0 is NotFound && r->Err_0->NotFound_0@ == short_code@)
                || r->Err_0 is StorageError || r->Err_0 is EncryptionError,
    {
        match self.repository.get(short_code) {
            Ok(stored) => self.resolve_stored(short_code, stored),
            Err(e) => Err(UrlServiceError::StorageError(e)),
        }
    }

    /// Looks through scanned entries, in order, for the first one that
    /// stands for `url`, and returns its code. Entries that do not decode or
    /// decrypt are no match.
    pub fn match_scanned(&self, items: &Vec<Entry>, url: &String) -> (r: Option<String>)
        requires
            self.wf(),
        ensures
            r matches Some(code) ==> exists|i: int|
                0 <= i < items@.len() && no_match_before(self.key(), items@, url@, i)
                    && entry_matches(self.key(), #[trigger] items@[i], url@)
                    && code@ == decode_utf8(items@[i].key@),
            r is None ==> no_match_before(self.key(), items@, url@, items@.len() as int),
    {
        let mut i: usize = 0;
        while i < items.len()
            invariant
                i <= items@.len(),
                self.wf(),
                no_match_before(self.key(), items@, url@, i as int),
            decreases items@.len() - i,
        {
            let entry = &items[i];
            let code = utf8_text(entry.key.clone());
            let text = utf8_text(entry.value.clone());
            if let Some(code) = code {
                if let Some(text) = text {
                    if let Ok(found) = self.resolve_stored(code.as_str(), Some(text)) {
                        if found == *url {
                            return Some(code);
                        }
                    }
                }
            }
            i += 1;
        }
        None
    }

    /// The code of the first stored mapping whose URL is `url`, if any; a
    /// failed read of the store is a storage error.
    pub fn find_existing_url(&self, url: &str) -> (r: Result<Option<String>, UrlServiceError>)
        requires
            self.wf(),
        ensures
            r is Err ==> r->Err_0 is StorageError,
    {
        let items = match self.repository.scan_prefix("") {
            Ok(items) => items,
            Err(e) => {
                return Err(UrlServiceError::StorageError(e));
            },
        };
        let target = url.to_owned();
        Ok(self.match_scanned(&items, &target))
    }

    /// The text stored for `url`: the base64 form of an encryption of it,
    /// which therefore resolves back to `url`.
    pub fn stored_text(&self, url: &str) -> (r: Result<String, UrlServiceError>)
        requires
            self.wf(),
        ensures
            r is Ok ==> exists|b: Seq<u8>| r->Ok_0@ == base64_of(b) && is_encryption_of(self.key(), b, url@),
            r is Ok ==> stored_url(self.key(), r->Ok_0@) == Some(url@),
            r is Err ==> r->Err_0 is EncryptionError,
    {
        let blob = match self.encryption.encrypt(url) {
            Ok(b) => b,
            Err(e) => {
                return Err(UrlServiceError::EncryptionError(e));
            },
        };
        Ok(base64_encode(blob.as_slice()))
    }

    /// Encrypts `url`, stores `stored_text(url)` under `code`, and reports
    /// the new mapping.
    fn mint(&self, code: String, url: String) -> (r: Result<ShortenedUrl, UrlServiceError>)
        requires
            self.wf(),
        ensures
            r is Ok ==> r->Ok_0.short_code@ == code@ && r->Ok_0.original_url@ == url@
                && r->Ok_0.full_short_url@ == short_url_of(self.base_url(), code@),
            r is Err ==> r->Err_0 is EncryptionError || r->Err_0 is StorageError,
    {
        let text = self.stored_text(url.as_str())?;
        match self.repository.store(code.as_str(), text.as_str()) {
            Ok(()) => Ok(self.shortened(code, url)),
            Err(e) => Err(UrlServiceError::StorageError(e)),
        }
    }

    /// Decides a request for the valid alias `alias` and the normalized URL
    /// `normalized`, given what the store holds under the alias. `Ok(None)`
    /// means the alias is free and is to be written; `Ok(Some(..))` reports
    /// the alias, already bound to the same URL, with no write; an alias
    /// bound to another URL is refused with `AliasExists`. A stored value
    /// that cannot be read gives the error `resolve_stored` gives.
    pub fn alias_outcome(&self, alias: String, normalized: String, stored: Option<String>) -> (r: Result<Option<ShortenedUrl>, UrlServiceError>)
        requires
            self.wf(),
        ensures
            stored is None ==> r matches Ok(None),
            stored is Some && stored_url(self.key(), stored->0@) is Some ==> match alias_step(
                normalized@,
                stored_url(self.key(), stored->0@),
            ) {
                AliasStep::Mint => false,
                AliasStep::Report => r matches Ok(Some(s)) && s.short_code@ == alias@
                    && s.original_url@ == normalized@
                    && s.full_short_url@ == short_url_of(self.base_url(), alias@),
                AliasStep::Conflict => r is Err && r->Err_0 is AliasExists && r->Err_0->AliasExists_0@ == alias@,
            },
            stored is Some && base64_from(stored->0@) is None ==> r is Err && r->Err_0 is StorageError,
            stored is Some && base64_from(stored->0@) is Some && stored_url(self.key(), stored->0@) is None
                ==> r is Err && r->Err_0 is EncryptionError,
    {
        if stored.is_none() {
            return Ok(None);
        }
        let existing = self.resolve_stored(alias.as_str(), stored)?;
        if existing == normalized {
            Ok(Some(self.shortened(alias, normalized)))
        } else {
            Err(UrlServiceError::AliasExists(alias))
        }
    }

    /// What the store's answer for a drawn `code` means: a free code is
    /// taken, a code in use asks for another draw, and a failed read is a
    /// storage error.
    pub fn code_lookup_outcome(code: String, found: Result<Option<String>, RepositoryError>) -> (r: Result<Option<String>, UrlServiceError>)
        ensures
            found matches Ok(None) ==> r matches Ok(Some(c)) && c@ == code@,
            found matches Ok(Some(_)) ==> r matches Ok(None),
            found is Err ==> r is Err && r->Err_0 is StorageError,
    {
        match found {
            Ok(None) => Ok(Some(code)),
            Ok(Some(_)) => Ok(None),
            Err(e) => Err(UrlServiceError::StorageError(e)),
        }
    }

    /// A generated code that the store does not hold yet. Codes are drawn
    /// until a free one turns up, at most `MAX_CODE_ATTEMPTS` times; when
    /// none is free, or the store cannot be read, the result is a storage
    /// error.
    pub fn fresh_code(&self) -> (r: Result<String, UrlServiceError>)
        ensures
            r is Ok ==> generated_code(r->Ok_0@),
            r is Err ==> r->Err_0 is StorageError,
    {
        let mut attempts: usize = 0;
        while attempts < MAX_CODE_ATTEMPTS
            decreases MAX_CODE_ATTEMPTS - attempts,
        {
            let code = random_code();
            let found = self.repository.get(code.as_str());
            if let Some(free) = Self::code_lookup_outcome(code, found)? {
                return Ok(free);
            }
            attempts += 1;
        }
        Err(UrlServiceError::StorageError(RepositoryError::Storage("No free short code found".to_owned())))
    }

    /// Shortens `url`, under `custom_alias` when one is given.
    ///
    /// The URL must parse; its normalized form is what is stored and
    /// compared. An alias must have a valid shape. An alias already bound
    /// to the same URL is reported again without a write; one bound to
    /// another URL is refused with `AliasExists`; a free one is written.
    /// Without an alias, a URL already stored is reported under its existing
    /// code, and otherwise a fresh six-character code is minted.
    pub fn shorten_url(&self, url: String, custom_alias: Option<String>) -> (r: Result<ShortenedUrl, UrlServiceError>)
        requires
            self.wf(),
        ensures
            normalized_url(url@) is None ==> r is Err && r->Err_0 is InvalidUrl && r->Err_0->InvalidUrl_0@ == url@,
            r is Err && r->Err_0 is InvalidUrl ==> normalized_url(url@) is None,
            normalized_url(url@) is Some && custom_alias is Some && !valid_alias(custom_alias->0@) ==> r is Err
                && r->Err_0 is InvalidAlias,
            r is Err && r->Err_0 is InvalidAlias ==> custom_alias is Some && !valid_alias(custom_alias->0@),
            r is Err && r->Err_0 is AliasExists ==> custom_alias is Some && valid_alias(custom_alias->0@)
                && r->Err_0->AliasExists_0@ == custom_alias->0@,
            !(r is Err && r->Err_0 is NotFound),
            r is Ok ==> normalized_url(url@) is Some && r->Ok_0.original_url@ == normalized_url(url@)->0
                && r->Ok_0.full_short_url@ == short_url_of(self.base_url(), r->Ok_0.short_code@),
            r is Ok && custom_alias is Some ==> r->Ok_0.short_code@ == custom_alias->0@,
    {
        let normalized = match parse_url(url.as_str()) {
            Some(n) => n,
            None => {
                return Err(UrlServiceError::InvalidUrl(url));
            },
        };
        match custom_alias {
            Some(alias) => {
                validate_alias(alias.as_str())?;
                let stored = match self.repository.get(alias.as_str()) {
                    Ok(s) => s,
                    Err(e) => {
                        return Err(UrlServiceError::StorageError(e));
                    },
                };
                match self.alias_outcome(alias.clone(), normalized.clone(), stored)? {
                    Some(reported) => Ok(reported),
                    None => self.mint(alias, normalized),
                }
            },
            None => {
                match self.find_existing_url(normalized.as_str()) {
                    Ok(Some(code)) => {
                        return Ok(self.shortened(code, normalized));
                    },
                    Ok(None) => {},
                    Err(e) => {
                        return Err(e);
                    },
                }
                let code = self.fresh_code()?;
                self.mint(code, normalized)
            },
        }
    }
}

} // verus!
