//! Printable text encoding of binary data (standard base64 with padding).
use vstd::prelude::*;

verus! {

/// The standard, padded base64 text of `bytes`.
pub uninterp spec fn base64_of(bytes: Seq<u8>) -> Seq<char>;

/// What strict standard base64 decoding makes of `text`, if it is valid.
pub uninterp spec fn base64_from(text: Seq<char>) -> Option<Seq<u8>>;

/// Relies on `base64::engine::general_purpose::STANDARD.encode`: its
/// output decodes back to the input.
#[verifier::external_body]
pub(crate) fn base64_encode(bytes: &[u8]) -> (r: String)
    ensures
        r@ == base64_of(bytes@),
        base64_from(r@) == Some(bytes@),
{
    base64::Engine::encode(&base64::engine::general_purpose::STANDARD, bytes)
}

/// Relies on `base64::engine::general_purpose::STANDARD.decode`: it gives back
/// the bytes whose encoding the text is.
#[verifier::external_body]
pub(crate) fn base64_decode(text: &str) -> (r: Option<Vec<u8>>)
    ensures
        r is Some <==> base64_from(text@) is Some,
        r is Some ==> r->0@ == base64_from(text@)->0,
        forall|b: Seq<u8>| text@ == base64_of(b) ==> (r is Some && r->0@ == b),
{
    base64::Engine::decode(&base64::engine::general_purpose::STANDARD, text).ok()
}

} // verus!
