//! The template renderer: one fixed HTML template, five placeholder tokens,
//! and literal substitution of the five fields into it. No escaping is
//! applied to the substituted values; a value holding a later placeholder
//! token is substituted again, exactly as plain sequential replacement does.

use crate::agent::opt_str_view;
use crate::text::replace_all;
use crate::text::replace_all_str;
use vstd::prelude::*;

verus! {

pub const TEMPLATE: &'static str = "<!DOCTYPE html>\n<html lang=\"en\">\n<head>\n<meta charset=\"utf-8\" />\n<meta name=\"viewport\" content=\"width=device-width, initial-scale=1\" />\n<title>{{page_title}}</title>\n{{canonical}}\n<style>body{font-family:serif;max-width:40em;margin:2em auto;padding:0 1em;}h1{font-size:1.6em;}p.retrieved{color:#555;font-style:italic;}</style>\n</head>\n<body>\n<main>\n<h1>{{article_title}}</h1>\n<p class=\"retrieved\">{{header}}</p>\n<div class=\"content\">{{content}}</div>\n</main>\n</body>\n</html>\n";

pub const TOKEN_PAGE_TITLE: &'static str = "{{page_title}}";

pub const TOKEN_ARTICLE_TITLE: &'static str = "{{article_title}}";

pub const TOKEN_HEADER: &'static str = "{{header}}";

pub const TOKEN_CONTENT: &'static str = "{{content}}";

pub const TOKEN_CANONICAL: &'static str = "{{canonical}}";

/// What the canonical placeholder is replaced with: a canonical-link tag for
/// the given URL, or nothing at all.
pub open spec fn canonical_text(canonical: Option<Seq<char>>) -> Seq<char> {
    match canonical {
        Some(u) => "<link rel=\"canonical\" href=\""@ + u + "\" />"@,
        None => Seq::<char>::empty(),
    }
}

/// The whole rendered document: the five tokens replaced one after another —
/// page title, article title, header, content, canonical — in the fixed
/// template.
pub open spec fn rendered(
    page_title: Seq<char>,
    article_title: Seq<char>,
    header: Seq<char>,
    content: Seq<char>,
    canonical: Option<Seq<char>>,
) -> Seq<char> {
    replace_all(
        replace_all(
            replace_all(
                replace_all(
                    replace_all(TEMPLATE@, TOKEN_PAGE_TITLE@, page_title),
                    TOKEN_ARTICLE_TITLE@,
                    article_title,
                ),
                TOKEN_HEADER@,
                header,
            ),
            TOKEN_CONTENT@,
            content,
        ),
        TOKEN_CANONICAL@,
        canonical_text(canonical),
    )
}

/// Substitutes the five fields into the fixed template, exactly as `rendered`
/// states.
pub fn render(
    page_title: &str,
    article_title: &str,
    header: &str,
    content: &str,
    canonical: Option<&str>,
) -> (r: String)
    ensures
        r@ == rendered(page_title@, article_title@, header@, content@, opt_str_view(canonical)),
{
    proof {
        reveal_strlit("{{page_title}}");
        reveal_strlit("{{article_title}}");
        reveal_strlit("{{header}}");
        reveal_strlit("{{content}}");
        reveal_strlit("{{canonical}}");
    }
    let s1 = replace_all_str(TEMPLATE, TOKEN_PAGE_TITLE, page_title);
    let s2 = replace_all_str(s1.as_str(), TOKEN_ARTICLE_TITLE, article_title);
    let s3 = replace_all_str(s2.as_str(), TOKEN_HEADER, header);
    let s4 = replace_all_str(s3.as_str(), TOKEN_CONTENT, content);
    let canon: String = match canonical {
        Some(u) => {
            let mut c = String::from_str("<link rel=\"canonical\" href=\"");
            c.append(u);
            c.append("\" />");
            c
        },
        None => String::new(),
    };
    replace_all_str(s4.as_str(), TOKEN_CANONICAL, canon.as_str())
}

/// Rendering is a pure function of its five fields: two renderings of one
/// (page title, article title, header, content, canonical) tuple are
/// character-for-character identical.
pub proof fn lemma_render_deterministic(
    page_title: Seq<char>,
    article_title: Seq<char>,
    header: Seq<char>,
    content: Seq<char>,
    canonical: Option<Seq<char>>,
    r1: Seq<char>,
    r2: Seq<char>,
)
    requires
        r1 == rendered(page_title, article_title, header, content, canonical),
        r2 == rendered(page_title, article_title, header, content, canonical),
    ensures
        r1 == r2,
{
}

pub const LANDING_HEADER: &'static str = "A simple web service to extract the main content from an article<br /> and format it for <i>reading</i>. Source code <a href=\"https://github.com/mre/readable\">here</a>.";

pub const LANDING_CONTENT: &'static str = "<p>Append the address of an article to this page's own address and the service fetches it, strips the navigation and the boilerplate, and hands back just the readable part.</p>";

/// The landing page served for the empty path.
pub open spec fn landing_page() -> Seq<char> {
    rendered("Readable."@, "Readable"@, LANDING_HEADER@, LANDING_CONTENT@, None)
}

/// Renders the landing page.
pub fn index() -> (r: String)
    ensures
        r@ == landing_page(),
{
    render("Readable.", "Readable", LANDING_HEADER, LANDING_CONTENT, None)
}

} // verus!
