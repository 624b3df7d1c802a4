//! The URL arithmetic that the client needs, done by the `url` crate.
//!
//! A URL is held as its serialization (what `Url::as_str` gives), which
//! determines it.
use vstd::prelude::*;

verus! {

/// The outcome of `url::Url::parse` on `input`: the serialization of the parsed
/// URL, or the text (`Display`) of the `url::ParseError`.
pub uninterp spec fn url_parse_result(input: Seq<char>) -> Result<Seq<char>, Seq<char>>;

/// The outcome of `url::Url::join(&base_url, input)`, where `base_url` is the URL
/// that `url::Url::parse` reads from `base`: the serialization of the joined URL,
/// or the text of the `url::ParseError` (of reading `base`, or of the join).
pub uninterp spec fn url_join_result(base: Seq<char>, input: Seq<char>) -> Result<Seq<char>, Seq<char>>;

/// The text view of a result whose both sides are strings.
pub open spec fn text_result(r: Result<String, String>) -> Result<Seq<char>, Seq<char>> {
    match r {
        Ok(s) => Ok(s@),
        Err(e) => Err(e@),
    }
}

/// Calls `url::Url::parse(input)`. Claims only that the result (as text) is the
/// named outcome `url_parse_result(input)`: a deterministic function of `input`.
#[verifier::external_body]
pub(crate) fn parse_url(input: &str) -> (res: Result<String, String>)
    ensures
        text_result(res) == url_parse_result(input@),
{
    match url::Url::parse(input) {
        Ok(u) => Ok(u.into()),
        Err(e) => Err(e.to_string()),
    }
}

/// Reads `base` with `url::Url::parse` and calls `url::Url::join` on it with
/// `input`. Claims only that the result (as text) is the named outcome
/// `url_join_result(base, input)`: a deterministic function of its arguments.
#[verifier::external_body]
pub(crate) fn join_url(base: &str, input: &str) -> (res: Result<String, String>)
    ensures
        text_result(res) == url_join_result(base@, input@),
{
    let joined = match url::Url::parse(base) {
        Ok(b) => b.join(input),
        Err(e) => Err(e),
    };
    match joined {
        Ok(u) => Ok(u.into()),
        Err(e) => Err(e.to_string()),
    }
}

} // verus!
