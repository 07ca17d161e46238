//! A design model of the shortening rules over an abstract store: a map from
//! short code to the normalized URL that its stored text stands for.
//!
//! The real store is a sled database shared through `&self`, whose contents
//! no contract describes; `UrlService::shorten_url` is not proved against
//! this model. What connects the two is `alias_step`, which
//! `UrlService::alias_outcome` decides exactly, and `valid_alias`, which
//! `validate_alias` decides exactly. The lemmas below are laws of the model.
use vstd::prelude::*;
use crate::service::{normalized_url, valid_alias, alias_char, MIN_ALIAS_LEN, MAX_ALIAS_LEN};
use crate::text::ascii_alphanumeric;

verus! {

/// The outcome of a shortening request over the abstract store.
pub enum Reply {
    Code(Seq<char>),
    InvalidUrl,
    InvalidAlias,
    AliasExists,
}

/// What a valid alias request does, given the URL the alias is bound to, if any.
pub enum AliasStep {
    /// The alias is free: write it.
    Mint,
    /// The alias is bound to the same URL: report it, write nothing.
    Report,
    /// The alias is bound to another URL: refuse.
    Conflict,
}

/// The step for a request of normalized URL `url` on an alias bound to `bound`.
pub open spec fn alias_step(url: Seq<char>, bound: Option<Seq<char>>) -> AliasStep {
    match bound {
        None => AliasStep::Mint,
        Some(b) => if b == url {
            AliasStep::Report
        } else {
            AliasStep::Conflict
        },
    }
}

/// The codes that map to `url` in `m`.
pub open spec fn codes_for(m: Map<Seq<char>, Seq<char>>, url: Seq<char>) -> Set<Seq<char>> {
    m.dom().filter(|c: Seq<char>| m[c] == url)
}

/// The code that the duplicate search picks for `url` in `m`, if any code
/// maps to it.
pub open spec fn existing_code(m: Map<Seq<char>, Seq<char>>, url: Seq<char>) -> Option<Seq<char>> {
    if exists|c: Seq<char>| m.contains_key(c) && m[c] == url {
        Some(choose|c: Seq<char>| m.contains_key(c) && m[c] == url)
    } else {
        None
    }
}

/// A shortening request over the abstract store `m`: the reply and the
/// store afterwards. `fresh` is the code that would be generated.
pub open spec fn shorten_in(
    m: Map<Seq<char>, Seq<char>>,
    url: Seq<char>,
    alias: Option<Seq<char>>,
    fresh: Seq<char>,
) -> (Reply, Map<Seq<char>, Seq<char>>) {
    match normalized_url(url) {
        None => (Reply::InvalidUrl, m),
        Some(u) => match alias {
            Some(a) => if !valid_alias(a) {
                (Reply::InvalidAlias, m)
            } else {
                match alias_step(u, m.get(a)) {
                    AliasStep::Mint => (Reply::Code(a), m.insert(a, u)),
                    AliasStep::Report => (Reply::Code(a), m),
                    AliasStep::Conflict => (Reply::AliasExists, m),
                }
            },
            None => match existing_code(m, u) {
                Some(c) => (Reply::Code(c), m),
                None => (Reply::Code(fresh), m.insert(fresh, u)),
            },
        },
    }
}

/// Shortening the same URL twice without an alias gives the same code both
/// times and writes nothing the second time; where the URL was not stored
/// before, exactly one code maps to it afterwards.
pub proof fn lemma_shorten_twice_same_code(
    m: Map<Seq<char>, Seq<char>>,
    url: Seq<char>,
    fresh1: Seq<char>,
    fresh2: Seq<char>,
)
    ensures
        ({
            let (r1, m1) = shorten_in(m, url, None, fresh1);
            &&& r1 is Code ==> shorten_in(m1, url, None, fresh2) == (r1, m1)
            &&& (normalized_url(url) is Some && existing_code(m, normalized_url(url)->0) is None) ==> codes_for(
                m1,
                normalized_url(url)->0,
            ) == set![fresh1]
            &&& (normalized_url(url) is Some && existing_code(m, normalized_url(url)->0) is Some) ==> m1 == m
        }),
{
    if let Some(u) = normalized_url(url) {
        if existing_code(m, u) is None {
            let m1 = m.insert(fresh1, u);
            assert(m1.contains_key(fresh1) && m1[fresh1] == u);
            assert forall|c: Seq<char>| m1.contains_key(c) && m1[c] == u implies c == fresh1 by {
                if c != fresh1 {
                    assert(m.contains_key(c) && m[c] == u);
                }
            }
            assert(codes_for(m1, u) =~= set![fresh1]);
        }
    }
}

/// Requesting the same URL under the same alias twice gives the same reply
/// both times, and the second request writes nothing.
pub proof fn lemma_alias_twice(
    m: Map<Seq<char>, Seq<char>>,
    url: Seq<char>,
    alias: Seq<char>,
    fresh1: Seq<char>,
    fresh2: Seq<char>,
)
    ensures
        ({
            let (r1, m1) = shorten_in(m, url, Some(alias), fresh1);
            r1 is Code ==> shorten_in(m1, url, Some(alias), fresh2) == (r1, m1)
        }),
{
}

/// An alias bound to one URL, requested with a URL that normalizes to
/// something else, is refused with `AliasExists` and the store is unchanged.
pub proof fn lemma_alias_conflict(
    m: Map<Seq<char>, Seq<char>>,
    alias: Seq<char>,
    other_url: Seq<char>,
    fresh: Seq<char>,
)
    requires
        valid_alias(alias),
        m.contains_key(alias),
        normalized_url(other_url) is Some,
        normalized_url(other_url)->0 != m[alias],
    ensures
        shorten_in(m, other_url, Some(alias), fresh) == (Reply::AliasExists, m),
{
}

/// Aliases of 2 or 33 characters, or holding `@`, are refused; any alias
/// of 3 to 32 ASCII letters, digits, `-` and `_` is accepted.
pub proof fn lemma_alias_shapes(alias: Seq<char>)
    ensures
        alias.len() == 2 ==> !valid_alias(alias),
        alias.len() == 33 ==> !valid_alias(alias),
        alias.contains('@') ==> !valid_alias(alias),
        (MIN_ALIAS_LEN <= alias.len() <= MAX_ALIAS_LEN && forall|i: int|
            0 <= i < alias.len() ==> (ascii_alphanumeric(#[trigger] alias[i]) || alias[i] == '-' || alias[i] == '_'))
            ==> valid_alias(alias),
{
    if alias.contains('@') {
        let i = choose|i: int| 0 <= i < alias.len() && alias[i] == '@';
        assert(!alias_char(alias[i]));
    }
}

} // verus!
