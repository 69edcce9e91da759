//! URLs, as the `url` crate reads them.

use vstd::prelude::*;
use crate::text::opt_view;

verus! {

/// `url::Url`, a parsed URL. Nothing of its inside is known here.
#[verifier::external_type_specification]
#[verifier::external_body]
pub struct ExUrl(url::Url);

/// What `Url::parse` makes of a text: the query and the host of the URL that
/// the text spells, nothing where it spells no absolute URL.
pub uninterp spec fn url_parts(text: Seq<char>) -> Option<
    (Seq<(Seq<char>, Seq<char>)>, Option<Seq<char>>),
>;

/// The pairs of names and values in the query string of a URL, decoded, in
/// order, as `Url::query_pairs` yields them.
pub uninterp spec fn query_of(url: url::Url) -> Seq<(Seq<char>, Seq<char>)>;

/// The host of a URL as a text, as `Url::host_str` gives it: nothing where
/// the URL has no host.
pub uninterp spec fn host_of(url: url::Url) -> Option<Seq<char>>;

/// The names and values of a list of pairs of texts.
pub open spec fn pairs_view(pairs: Seq<(String, String)>) -> Seq<(Seq<char>, Seq<char>)> {
    Seq::new(pairs.len(), |i: int| (pairs[i].0@, pairs[i].1@))
}

/// `Url::parse`: the absolute URL that the text spells, nothing where it
/// spells none.
#[verifier::external_body]
pub(crate) fn parse_url(text: &str) -> (url: Option<url::Url>)
    ensures
        match url {
            Some(u) => url_parts(text@) == Some((query_of(u), host_of(u))),
            None => url_parts(text@) is None,
        },
{
    url::Url::parse(text).ok()
}

/// `Url::query_pairs`: every pair that the iterator yields, as owned texts.
#[verifier::external_body]
pub(crate) fn query_pairs(url: &url::Url) -> (pairs: Vec<(String, String)>)
    ensures
        pairs_view(pairs@) == query_of(*url),
{
    url.query_pairs().map(|(k, v)| (k.into_owned(), v.into_owned())).collect()
}

/// `Url::host_str`, as an owned text.
#[verifier::external_body]
pub(crate) fn host_text(url: &url::Url) -> (host: Option<String>)
    ensures
        opt_view(host) == host_of(*url),
{
    url.host_str().map(|h| h.to_string())
}

/// The query of the URL that a text spells: nothing where it spells none.
pub open spec fn url_query_pairs(text: Seq<char>) -> Option<Seq<(Seq<char>, Seq<char>)>> {
    match url_parts(text) {
        Some(parts) => Some(parts.0),
        None => None,
    }
}

/// The host of the URL that a text spells: nothing where it spells none or
/// the URL has no host.
pub open spec fn url_host(text: Seq<char>) -> Option<Seq<char>> {
    match url_parts(text) {
        Some(parts) => parts.1,
        None => None,
    }
}

} // verus!
