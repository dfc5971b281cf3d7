//! The request handler, split around the one outbound fetch: `plan_request`
//! turns a request path into either an immediate response or a fetch order,
//! and `readable_finish` turns the fetch's outcome into the final response.
//! The caller in between performs the network call and nothing else.

use crate::agent::agent_for;
use crate::agent::forwarded_agent;
use crate::agent::opt_str_view;
use crate::clock::format_time;
use crate::clock::formatted_time;
use crate::clock::local_now;
use crate::clock::Clock;
use crate::extract::extract_readable;
use crate::extract::readable_content;
use crate::extract::readable_titles;
use crate::extract::utf8_error_message;
use crate::extract::utf8_text;
use crate::extract::Extraction;
use crate::render::index;
use crate::render::landing_page;
use crate::render::render;
use crate::render::rendered;
use crate::target::parse_target_url;
use crate::target::url_parse;
use crate::text::str_eq;
use vstd::prelude::*;
use vstd::utf8::decode_utf8;
use vstd::utf8::valid_utf8;

verus! {

/// Where the router sends a request path: one of the two fixed static asset
/// routes, or the catch-all readable handler.
pub enum Route {
    CrimsonFont,
    JetBrainsMonoFont,
    Readable,
}

/// The route a request path selects: the two fixed static paths match
/// exactly, and everything else falls through to the readable handler.
pub open spec fn route_of(path: Seq<char>) -> Route {
    if path == "/static/Crimson.woff2"@ {
        Route::CrimsonFont
    } else if path == "/static/JetBrainsMono.woff2"@ {
        Route::JetBrainsMonoFont
    } else {
        Route::Readable
    }
}

/// Picks the route for a request path, exactly as `route_of` states.
pub fn route_request(path: &str) -> (r: Route)
    ensures
        r == route_of(path@),
{
    if str_eq(path, "/static/Crimson.woff2") {
        Route::CrimsonFont
    } else if str_eq(path, "/static/JetBrainsMono.woff2") {
        Route::JetBrainsMonoFont
    } else {
        Route::Readable
    }
}

/// One HTTP response: a status code and a rendered HTML body.
pub struct HttpResponse {
    pub status: u16,
    pub body: String,
}

/// What the fallback route decides from the request path alone: answer at
/// once, or fetch this URL with this User-Agent and come back with the
/// outcome.
pub enum RequestPlan {
    Respond(HttpResponse),
    Fetch { url: String, agent: String },
}

/// The outcome of the one outbound GET: the body read as text, a transport
/// failure, or a failure while reading the body.
pub enum FetchOutcome {
    Body(String),
    TransportError(String),
    BodyReadError(String),
}

/// The request path with exactly one leading separator removed.
pub open spec fn strip_leading_slash(p: Seq<char>) -> Seq<char> {
    if p.len() > 0 && p[0] == '/' {
        p.skip(1)
    } else {
        p
    }
}

/// The header line of a success page: a clickable rendering of the resolved
/// URL and the retrieval timestamp.
pub open spec fn header_line(url: Seq<char>, time: Seq<char>) -> Seq<char> {
    "A readable version of <a class=\"shortened\" href="@ + url + ">"@ + url
        + "</a><br />retrieved on "@ + time
}

/// A missing title falls back to the fixed default.
pub open spec fn title_or_default(t: Option<Seq<char>>) -> Seq<char> {
    match t {
        Some(s) => s,
        None => "Readable"@,
    }
}

/// The body of a success page.
pub open spec fn success_body(
    url: Seq<char>,
    page_title: Option<Seq<char>>,
    article_title: Option<Seq<char>>,
    content: Seq<char>,
    time: Seq<char>,
) -> Seq<char> {
    rendered(
        title_or_default(page_title),
        title_or_default(article_title),
        header_line(url, time),
        content,
        Some(url),
    )
}

/// The body of the page rejecting a path that is no valid URL; `msg` is the
/// URL parser's own message.
pub open spec fn invalid_url_body(msg: Seq<char>) -> Seq<char> {
    rendered(
        "Invalid URL"@,
        "Invalid URL"@,
        "Check if the path represents a valid URL"@,
        msg,
        None,
    )
}

/// The body of the page reporting a transport failure of the outbound GET.
pub open spec fn fetch_error_body(msg: Seq<char>) -> Seq<char> {
    rendered(
        "Yikes!"@,
        "Yikes!"@,
        "Couldn't render article. (It is an article, right?)"@,
        "Can't fetch URL: "@ + msg,
        None,
    )
}

/// The body of the page reporting that the response body could not be read
/// as text.
pub open spec fn body_read_error_body(msg: Seq<char>) -> Seq<char> {
    rendered(
        "Yikes!"@,
        "Yikes!"@,
        "Couldn't render article. (It is an article, right?)"@,
        "Can't fetch response body text: "@ + msg,
        None,
    )
}

/// The body of the page reporting that the content tree would not serialize.
pub open spec fn serialize_error_body(msg: Seq<char>) -> Seq<char> {
    rendered(
        "Ouch"@,
        "Ouch"@,
        "Couldn't extract content form the article.(It is an article, right?)"@,
        "Can't serialize content: "@ + msg,
        None,
    )
}

/// The body of the page reporting that the serialized content was not valid
/// text.
pub open spec fn encoding_error_body(msg: Seq<char>) -> Seq<char> {
    rendered(
        "Humm..."@,
        "Humm..."@,
        "Invalid UTF-8 in article content"@,
        "Can't serialize content: "@ + msg,
        None,
    )
}

fn strip_slash<'a>(path: &'a str) -> (r: &'a str)
    ensures
        r@ == strip_leading_slash(path@),
{
    let len = path.unicode_len();
    if len > 0 && path.get_char(0) == '/' {
        let r = path.substring_char(1, len);
        proof {
            assert(path@.subrange(1, len as int) =~= path@.skip(1));
        }
        r
    } else {
        path
    }
}

/// Decides a request from its path and its optional User-Agent header: the
/// empty path gets the landing page at once; a path that is no valid URL
/// gets the rejection page at once; a valid URL becomes a fetch order
/// carrying the URL's canonical form and the outbound User-Agent.
pub fn plan_request(path: &str, user_agent: Option<&str>) -> (r: RequestPlan)
    ensures
        strip_leading_slash(path@).len() == 0 ==> (r matches RequestPlan::Respond(resp)
            && resp.status == 200 && resp.body@ == landing_page()),
        strip_leading_slash(path@).len() > 0 ==> (url_parse(strip_leading_slash(path@)) matches Err(
            m,
        ) ==> (r matches RequestPlan::Respond(resp) && resp.status == 400 && resp.body@
            == invalid_url_body(m))),
        strip_leading_slash(path@).len() > 0 ==> (url_parse(strip_leading_slash(path@)) matches Ok(
            u,
        ) ==> (r matches RequestPlan::Fetch { url, agent } && url@ == u && agent@ == agent_for(
            opt_str_view(user_agent),
        ))),
{
    let rest = strip_slash(path);
    if rest.unicode_len() == 0 {
        RequestPlan::Respond(HttpResponse { status: 200, body: index() })
    } else {
        match parse_target_url(rest) {
            Ok(u) => RequestPlan::Fetch { url: u, agent: forwarded_agent(user_agent) },
            Err(e) => RequestPlan::Respond(
                HttpResponse {
                    status: 400,
                    body: render(
                        "Invalid URL",
                        "Invalid URL",
                        "Check if the path represents a valid URL",
                        e.as_str(),
                        None,
                    ),
                },
            ),
        }
    }
}

fn concat_msg(prefix: &str, msg: &str) -> (r: String)
    ensures
        r@ == prefix@ + msg@,
{
    let mut d = String::from_str(prefix);
    d.append(msg);
    d
}

fn error_response(title: &str, explain: &str, detail: &str) -> (r: HttpResponse)
    ensures
        r.status == 400,
        r.body@ == rendered(title@, title@, explain@, detail@, None),
{
    HttpResponse { status: 400, body: render(title, title, explain, detail, None) }
}

/// Builds the success page for a fetched and extracted article, exactly as
/// `success_body` states, for the given clock reading.
pub fn build_success_page(
    url: &str,
    page_title: &Option<String>,
    article_title: &Option<String>,
    content: &str,
    now: &Clock,
) -> (r: HttpResponse)
    requires
        now.wf(),
    ensures
        r.status == 200,
        r.body@ == success_body(
            url@,
            page_title.deep_view(),
            article_title.deep_view(),
            content@,
            formatted_time(*now),
        ),
{
    let time = format_time(now);
    let mut header = String::from_str("A readable version of <a class=\"shortened\" href=");
    header.append(url);
    header.append(">");
    header.append(url);
    header.append("</a><br />retrieved on ");
    header.append(time.as_str());
    let pt: &str = match page_title {
        Some(s) => s.as_str(),
        None => "Readable",
    };
    let at: &str = match article_title {
        Some(s) => s.as_str(),
        None => "Readable",
    };
    let body = render(pt, at, header.as_str(), content, Some(url));
    proof {
        assert(header@ =~= header_line(url@, formatted_time(*now)));
        assert(pt@ == title_or_default(page_title.deep_view()));
        assert(at@ == title_or_default(article_title.deep_view()));
    }
    HttpResponse { status: 200, body }
}

/// Turns one extraction outcome into the response: the success page when the
/// content serialized and decoded, otherwise the matching rendered error
/// page with status 400.
pub fn page_from_extraction(url: &str, extraction: Extraction, now: &Clock) -> (r: HttpResponse)
    requires
        now.wf(),
    ensures
        extraction.content matches Ok(b) ==> (valid_utf8(b@) ==> (r.status == 200 && r.body@
            == success_body(
            url@,
            extraction.page_title.deep_view(),
            extraction.article_title.deep_view(),
            decode_utf8(b@),
            formatted_time(*now),
        ))),
        extraction.content matches Ok(b) ==> (!valid_utf8(b@) ==> (r.status == 400 && r.body@
            == encoding_error_body(utf8_error_message(b@)))),
        extraction.content matches Err(e) ==> (r.status == 400 && r.body@ == serialize_error_body(
            e@,
        )),
{
    let Extraction { content, page_title, article_title } = extraction;
    match content {
        Ok(bytes) => {
            match utf8_text(bytes) {
                Ok(text) => build_success_page(url, &page_title, &article_title, text.as_str(), now),
                Err(e) => {
                    let detail = concat_msg("Can't serialize content: ", e.as_str());
                    error_response("Humm...", "Invalid UTF-8 in article content", detail.as_str())
                },
            }
        },
        Err(e) => {
            let detail = concat_msg("Can't serialize content: ", e.as_str());
            error_response(
                "Ouch",
                "Couldn't extract content form the article.(It is an article, right?)",
                detail.as_str(),
            )
        },
    }
}

/// Everything `readable_finish` promises of its response, for one clock
/// reading: each failure arm yields its exact rendered error page with
/// status 400; a fetched body whose extracted content is valid text yields
/// the exact success page over the named extraction results with status 200,
/// and one whose content is not yields the exact encoding-error page with
/// status 400.
pub open spec fn finish_contract(
    url: Seq<char>,
    outcome: FetchOutcome,
    now: Clock,
    r: HttpResponse,
) -> bool {
    match outcome {
        FetchOutcome::TransportError(e) => r.status == 400 && r.body@ == fetch_error_body(e@),
        FetchOutcome::BodyReadError(e) => r.status == 400 && r.body@ == body_read_error_body(e@),
        FetchOutcome::Body(h) => {
            let content = readable_content(h@, url);
            let titles = readable_titles(h@, url);
            &&& (valid_utf8(content) ==> r.status == 200 && r.body@ == success_body(
                url,
                titles.0,
                titles.1,
                decode_utf8(content),
                formatted_time(now),
            ))
            &&& (!valid_utf8(content) ==> r.status == 400 && r.body@ == encoding_error_body(
                utf8_error_message(content),
            ))
        },
    }
}

/// Turns the outcome of the one outbound GET into the final response, for
/// the given clock reading.
pub fn readable_finish(url: &str, outcome: FetchOutcome, now: &Clock) -> (r: HttpResponse)
    requires
        now.wf(),
    ensures
        finish_contract(url@, outcome, *now, r),
{
    match outcome {
        FetchOutcome::Body(html) => {
            let extraction = extract_readable(html.as_str(), url);
            page_from_extraction(url, extraction, now)
        },
        FetchOutcome::TransportError(e) => {
            let detail = concat_msg("Can't fetch URL: ", e.as_str());
            error_response(
                "Yikes!",
                "Couldn't render article. (It is an article, right?)",
                detail.as_str(),
            )
        },
        FetchOutcome::BodyReadError(e) => {
            let detail = concat_msg("Can't fetch response body text: ", e.as_str());
            error_response(
                "Yikes!",
                "Couldn't render article. (It is an article, right?)",
                detail.as_str(),
            )
        },
    }
}

/// Turns the outcome of the one outbound GET into the final response, read
/// against the clock of the moment: what `finish_contract` states holds for
/// some well-formed clock reading.
pub fn readable_response(url: &str, outcome: FetchOutcome) -> (r: HttpResponse)
    ensures
        exists|c: Clock| #[trigger] c.wf() && finish_contract(url@, outcome, c, r),
{
    let now = local_now();
    let r = readable_finish(url, outcome, &now);
    proof {
        assert(now.wf() && finish_contract(url@, outcome, now, r));
    }
    r
}

} // verus!
