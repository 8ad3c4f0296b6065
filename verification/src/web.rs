//! URLs, held as text and resolved by the `url` crate.

use vstd::prelude::*;
use crate::error::Error;

verus! {

/// `url::ParseError`, the reason for which a text is no URL; it is only
/// passed on.
#[verifier::external_type_specification]
#[verifier::external_body]
pub struct ExParseError(url::ParseError);

/// The text of the absolute URL that `url::Url::parse` reads from `text`,
/// or nothing where it reports an error.
pub uninterp spec fn url_parsed(text: Seq<char>) -> Option<Seq<char>>;

/// The text of the URL that `url::Url::join` makes of `reference` against
/// the URL read from `base`, or nothing where either step reports an error.
pub uninterp spec fn url_joined(base: Seq<char>, reference: Seq<char>) -> Option<Seq<char>>;

/// `url::Url::parse` on `text`; the URL is handed back as its text.
#[verifier::external_body]
fn parse_url(text: &str) -> (r: Result<String, url::ParseError>)
    ensures
        match r {
            Ok(u) => url_parsed(text@) == Some(u@),
            Err(_) => url_parsed(text@) is None,
        },
{
    url::Url::parse(text).map(String::from)
}

/// `url::Url::join` of `reference` on the URL that `url::Url::parse` reads
/// from `base`; the URL is handed back as its text.
#[verifier::external_body]
fn join_url(base: &str, reference: &str) -> (r: Result<String, url::ParseError>)
    ensures
        match r {
            Ok(u) => url_joined(base@, reference@) == Some(u@),
            Err(_) => url_joined(base@, reference@) is None,
        },
{
    url::Url::parse(base)?.join(reference).map(String::from)
}

/// The URL reached from `base` by resolving each of `parts` in turn
/// against what came before.
pub open spec fn url_chain(base: Seq<char>, parts: Seq<Seq<char>>) -> Option<Seq<char>>
    decreases parts.len(),
{
    if parts.len() == 0 {
        Some(base)
    } else {
        match url_chain(base, parts.drop_last()) {
            Some(u) => url_joined(u, parts.last()),
            None => None,
        }
    }
}

/// The views of a list of strings.
pub open spec fn texts(parts: Seq<String>) -> Seq<Seq<char>> {
    Seq::new(parts.len(), |i: int| parts[i]@)
}

/// Reads `text` as an absolute URL and hands back its normal form.
pub fn absolute(text: &str) -> (r: Result<String, Error>)
    ensures
        match r {
            Ok(u) => url_parsed(text@) == Some(u@),
            Err(e) => e == Error::BackendError && url_parsed(text@) is None,
        },
{
    match parse_url(text) {
        Ok(u) => Ok(u),
        Err(_) => Err(Error::BackendError),
    }
}

/// Resolves `reference` against `base`.
pub fn join(base: &str, reference: &str) -> (r: Result<String, Error>)
    ensures
        match r {
            Ok(u) => url_joined(base@, reference@) == Some(u@),
            Err(e) => e == Error::BackendError && url_joined(base@, reference@) is None,
        },
{
    match join_url(base, reference) {
        Ok(u) => Ok(u),
        Err(_) => Err(Error::BackendError),
    }
}

/// Resolves each of `parts` in turn, starting from `base`.  Each step
/// reads the text that the step before has written.
pub fn resolve(base: &str, parts: &Vec<String>) -> (r: Result<String, Error>)
    ensures
        match r {
            Ok(u) => url_chain(base@, texts(parts@)) == Some(u@),
            Err(e) => e == Error::BackendError && url_chain(base@, texts(parts@)) is None,
        },
{
    let mut current = base.to_owned();
    let mut i: usize = 0;
    assert(texts(parts@).take(0) =~= Seq::<Seq<char>>::empty());
    while i < parts.len()
        invariant
            i <= parts@.len(),
            url_chain(base@, texts(parts@).take(i as int)) == Some(current@),
        decreases parts@.len() - i,
    {
        let ghost all = texts(parts@);
        let ghost upto = all.take(i + 1);
        assert(upto.drop_last() =~= all.take(i as int));
        assert(upto.last() == parts@[i as int]@);
        match join(current.as_str(), parts[i].as_str()) {
            Ok(u) => {
                current = u;
            },
            Err(e) => {
                proof {
                    lemma_chain_stays_none(base@, all, i + 1);
                }
                return Err(e);
            },
        }
        i = i + 1;
    }
    assert(texts(parts@).take(parts@.len() as int) =~= texts(parts@));
    Ok(current)
}

/// Once a step fails, every longer chain fails.
pub proof fn lemma_chain_stays_none(base: Seq<char>, parts: Seq<Seq<char>>, n: int)
    requires
        0 <= n <= parts.len(),
        url_chain(base, parts.take(n)) is None,
    ensures
        url_chain(base, parts) is None,
    decreases parts.len() - n,
{
    if n == parts.len() {
        assert(parts.take(n) =~= parts);
    } else {
        let next = parts.take(n + 1);
        assert(next.drop_last() =~= parts.take(n));
        lemma_chain_stays_none(base, parts, n + 1);
    }
}

} // verus!
