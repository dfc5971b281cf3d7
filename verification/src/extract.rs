//! The readability extraction step: the fetched page's HTML goes in, the
//! serialized bytes of its main-content subtree and the two optional titles
//! come out. The heuristic itself lives in an outside crate and is consumed
//! as a black box.

use readable_readability::Readability;
use vstd::prelude::*;
use vstd::utf8::decode_utf8;
use vstd::utf8::valid_utf8;

verus! {

/// What the readability extractor keeps of a fetched page: the serialized
/// bytes of the extracted content tree, or the serializer's error message;
/// beside them the page title and the article title, either of which the page
/// may lack.
pub struct Extraction {
    pub content: Result<Vec<u8>, String>,
    pub page_title: Option<String>,
    pub article_title: Option<String>,
}

/// The serialized bytes of the content subtree that the readability
/// heuristic keeps of `html`, with links resolved against `base`; a function
/// of the two strings alone.
pub uninterp spec fn readable_content(html: Seq<char>, base: Seq<char>) -> Seq<u8>;

/// The page title and the article title that the readability heuristic reads
/// out of `html` with base `base`; a function of the two strings alone.
pub uninterp spec fn readable_titles(html: Seq<char>, base: Seq<char>) -> (
    Option<Seq<char>>,
    Option<Seq<char>>,
);

/// Relies on `readable_readability::Readability::parse` and on kuchiki's
/// `NodeRef::serialize`: both compute from the HTML text and the base URL
/// alone, and `readable_content` and `readable_titles` name their results.
/// Serialization can fail only through its writer's own errors, and writing
/// into a byte vector never fails, so the content is always delivered.
#[verifier::external_body]
pub(crate) fn extract_readable(html: &str, base: &str) -> (r: Extraction)
    ensures
        r.content is Ok,
        r.content matches Ok(b) ==> b@ == readable_content(html@, base@),
        r.page_title.deep_view() == readable_titles(html@, base@).0,
        r.article_title.deep_view() == readable_titles(html@, base@).1,
{
    let (root, meta) = Readability::new().base_url(url::Url::parse(base).ok()).parse(html);
    let mut bytes: Vec<u8> = Vec::new();
    let content = match root.serialize(&mut bytes) {
        Ok(()) => Ok(bytes),
        Err(e) => Err(e.to_string()),
    };
    Extraction { content, page_title: meta.page_title, article_title: meta.article_title }
}

/// The message text of the UTF-8 error that the given (invalid) bytes raise;
/// a function of the bytes alone.
pub uninterp spec fn utf8_error_message(bytes: Seq<u8>) -> Seq<char>;

/// Relies on `String::from_utf8`: it succeeds exactly on valid UTF-8 and then
/// decodes it — vstd's `valid_utf8` and `decode_utf8` state that same coding —
/// and its error's message text is a function of the bytes alone, which
/// `utf8_error_message` names.
#[verifier::external_body]
pub(crate) fn utf8_text(bytes: Vec<u8>) -> (r: Result<String, String>)
    ensures
        r is Ok <==> valid_utf8(bytes@),
        r matches Ok(s) ==> s@ == decode_utf8(bytes@),
        r matches Err(e) ==> e@ == utf8_error_message(bytes@),
{
    match String::from_utf8(bytes) {
        Ok(s) => Ok(s),
        Err(e) => Err(e.to_string()),
    }
}

} // verus!
