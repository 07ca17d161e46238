//! The early check on shortening requests: a body whose `url` does not
//! parse is turned away before it reaches the service.
use vstd::prelude::*;
use crate::service::{normalized_url, parse_url};

verus! {

/// The route of shortening requests.
pub const SHORTEN_PATH: &'static str = "/api/v1/shorten";

/// The request check, as it is set up.
pub struct UrlValidator;

impl UrlValidator {
    pub fn new() -> (r: UrlValidator) {
        UrlValidator
    }
}

/// The request check wrapped round the next service.
pub struct UrlValidatorMiddleware<S> {
    service: S,
}

impl<S> UrlValidatorMiddleware<S> {
    pub fn new(service: S) -> (r: UrlValidatorMiddleware<S>)
        ensures
            r.inner() == service,
    {
        UrlValidatorMiddleware { service }
    }

    pub closed spec fn inner(&self) -> S {
        self.service
    }

    /// The service that requests go on to.
    pub fn service(&self) -> (r: &S)
        ensures
            *r == self.inner(),
    {
        &self.service
    }
}

/// Whether a request's body is to be examined: a `POST` to the shortening route.
pub fn inspects(path: &str, is_post: bool) -> (r: bool)
    ensures
        r == (path@ == SHORTEN_PATH@ && is_post),
{
    is_post && path.to_owned() == SHORTEN_PATH.to_owned()
}

/// Whether a request is turned away: a `POST` to the shortening route whose
/// body carries a `url` that does not parse.
pub fn rejects(path: &str, is_post: bool, url: Option<&str>) -> (r: bool)
    ensures
        r == (path@ == SHORTEN_PATH@ && is_post && url is Some && normalized_url(url->0@) is None),
{
    if !inspects(path, is_post) {
        return false;
    }
    match url {
        Some(u) => parse_url(u).is_none(),
        None => false,
    }
}

} // verus!
