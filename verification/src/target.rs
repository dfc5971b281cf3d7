//! Validation of the requested target URL, delegated to a WHATWG URL parser.

use vstd::prelude::*;

verus! {

/// What parsing a candidate URL yields: the parsed URL's canonical
/// serialization, or else the parser's error message. Both depend on the
/// input string alone.
pub uninterp spec fn url_parse(s: Seq<char>) -> Result<Seq<char>, Seq<char>>;

/// Relies on `url::Url::parse`: whether a string parses, the canonical
/// serialization `Url::as_str` then gives back, and the parse error's message
/// text are each a function of the input string alone; `url_parse` names
/// that outcome.
#[verifier::external_body]
pub(crate) fn parse_target_url(s: &str) -> (r: Result<String, String>)
    ensures
        r matches Ok(u) ==> url_parse(s@) matches Ok(n) && u@ == n,
        r matches Err(e) ==> url_parse(s@) matches Err(m) && e@ == m,
{
    match url::Url::parse(s) {
        Ok(u) => Ok(String::from(u.as_str())),
        Err(e) => Err(e.to_string()),
    }
}

} // verus!
