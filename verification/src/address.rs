//! The addresses that are asked for a word: a fixed address of the site with
//! the word added to its query.
//!
//! Parsing an address and encoding a query pair belong to the `url` crate,
//! which `reqwest` hands on. The result is named here and not spelled out.

use vstd::prelude::*;
use vstd::string::*;
use crate::sentences::text_of;

verus! {

/// The address that `Url::parse` reads from a text, with one name and value
/// added to its query by `Url::query_pairs_mut` and `Serializer::append_pair`,
/// as text; `None` where the text is refused as an address.
pub uninterp spec fn address_with_pair(base: Seq<char>, name: Seq<char>, value: Seq<char>) -> Option<
    Seq<char>,
>;

/// `Url::parse`, then `Url::query_pairs_mut` with `Serializer::append_pair`,
/// then the address as a string: the text named by [`address_with_pair`].
/// The pair is put behind the query that the address has, encoded as a form
/// field. An address with a fragment is left out: putting the fragment back
/// stops the program where the address has outgrown four gigabytes.
#[verifier::external_body]
pub(crate) fn with_query_pair(base: &str, name: &str, value: &str) -> (r: Option<String>)
    requires
        !base@.contains('#'),
    ensures
        text_of(r) == address_with_pair(base@, name@, value@),
{
    let mut url = reqwest::Url::parse(base).ok()?;
    url.query_pairs_mut().append_pair(name, value);
    Some(url.into())
}

/// The address of the result page of a word.
pub open spec fn result_address(word: Seq<char>) -> Option<Seq<char>> {
    address_with_pair("https://dict.youdao.com/result?lang=en"@, "word"@, word)
}

/// The address of the suggestions for the start of a word.
pub open spec fn suggest_address(q: Seq<char>) -> Option<Seq<char>> {
    address_with_pair(
        "https://dict.youdao.com/suggest?num=5&ver=3.0&doctype=json&cache=false&le=en"@,
        "q"@,
        q,
    )
}

/// The address of the result page of a word.
pub fn result_url(word: &str) -> (r: Option<String>)
    ensures
        text_of(r) == result_address(word@),
{
    let base = "https://dict.youdao.com/result?lang=en";
    proof {
        reveal_strlit("https://dict.youdao.com/result?lang=en");
    }
    with_query_pair(base, "word", word)
}

/// The address of the suggestions for the start of a word.
pub fn suggest_url(q: &str) -> (r: Option<String>)
    ensures
        text_of(r) == suggest_address(q@),
{
    let base = "https://dict.youdao.com/suggest?num=5&ver=3.0&doctype=json&cache=false&le=en";
    proof {
        reveal_strlit(
            "https://dict.youdao.com/suggest?num=5&ver=3.0&doctype=json&cache=false&le=en",
        );
    }
    with_query_pair(base, "q", q)
}

} // verus!
