//! What the HTTP layer needs from the core: the request and response
//! bodies, and how each error is reported to a client.
use vstd::prelude::*;
use vstd::string::*;
use crate::service::{ShortenedUrl, UrlServiceError};

verus! {

/// A shortening request: the URL and, optionally, a custom alias.
#[derive(Debug, Clone)]
pub struct ShortenRequest {
    pub url: String,
    pub custom_alias: Option<String>,
}

/// The reply to a successful shortening request.
#[derive(Debug, Clone)]
pub struct ShortenResponse {
    pub short_code: String,
    pub original_url: String,
    pub short_url: String,
}

impl ShortenResponse {
    pub fn from_shortened(s: ShortenedUrl) -> (r: ShortenResponse)
        ensures
            r.short_code@ == s.short_code@,
            r.original_url@ == s.original_url@,
            r.short_url@ == s.full_short_url@,
    {
        ShortenResponse { short_code: s.short_code, original_url: s.original_url, short_url: s.full_short_url }
    }
}

/// The HTTP status for an error: client errors for bad input, conflict for
/// a taken alias, not-found for an unknown code, internal error otherwise.
pub open spec fn status_of(e: UrlServiceError) -> u16 {
    match e {
        UrlServiceError::InvalidUrl(_) => 400,
        UrlServiceError::InvalidAlias(_) => 400,
        UrlServiceError::AliasExists(_) => 409,
        UrlServiceError::NotFound(_) => 404,
        UrlServiceError::StorageError(_) => 500,
        UrlServiceError::EncryptionError(_) => 500,
    }
}

pub fn status_code(e: &UrlServiceError) -> (r: u16)
    ensures
        r == status_of(*e),
{
    match e {
        UrlServiceError::InvalidUrl(_) => 400,
        UrlServiceError::InvalidAlias(_) => 400,
        UrlServiceError::AliasExists(_) => 409,
        UrlServiceError::NotFound(_) => 404,
        UrlServiceError::StorageError(_) => 500,
        UrlServiceError::EncryptionError(_) => 500,
    }
}

/// The message a client sees when shortening fails; internal causes are
/// not disclosed.
pub fn shorten_error_message(e: &UrlServiceError) -> (r: String)
    ensures
        e is InvalidUrl ==> r@ == "Invalid URL format"@,
        e is InvalidAlias ==> r@ == "Invalid alias: "@ + e->InvalidAlias_0@,
        e is AliasExists ==> r@ == "Alias '"@ + e->AliasExists_0@ + "' is already taken"@,
        e is EncryptionError ==> r@ == "Failed to secure URL data"@,
        (e is NotFound || e is StorageError) ==> r@ == "Failed to shorten URL"@,
{
    match e {
        UrlServiceError::InvalidUrl(_) => "Invalid URL format".to_owned(),
        UrlServiceError::InvalidAlias(msg) => {
            let mut r = "Invalid alias: ".to_owned();
            r.append(msg.as_str());
            r
        },
        UrlServiceError::AliasExists(alias) => {
            let mut r = "Alias '".to_owned();
            r.append(alias.as_str());
            r.append("' is already taken");
            r
        },
        UrlServiceError::EncryptionError(_) => "Failed to secure URL data".to_owned(),
        _ => "Failed to shorten URL".to_owned(),
    }
}

/// The message a client sees when resolving a code fails.
pub fn redirect_error_message(e: &UrlServiceError) -> (r: String)
    ensures
        e is NotFound ==> r@ == "URL not found"@,
        e is EncryptionError ==> r@ == "Failed to process URL data"@,
        !(e is NotFound || e is EncryptionError) ==> r@ == "Failed to retrieve URL"@,
{
    match e {
        UrlServiceError::NotFound(_) => "URL not found".to_owned(),
        UrlServiceError::EncryptionError(_) => "Failed to process URL data".to_owned(),
        _ => "Failed to retrieve URL".to_owned(),
    }
}

} // verus!
