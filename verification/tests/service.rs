use readable::agent::forwarded_agent;
use readable::agent::DEFAULT_USER_AGENT;
use readable::clock::format_time;
use readable::clock::get_time;
use readable::clock::Clock;
use readable::handler::plan_request;
use readable::handler::readable_finish;
use readable::handler::readable_response;
use readable::handler::route_request;
use readable::handler::Route;
use readable::handler::FetchOutcome;
use readable::handler::RequestPlan;
use readable::render::index;
use readable::render::render;
use readable::render::LANDING_CONTENT;
use readable::render::LANDING_HEADER;
use readable::render::TEMPLATE;

fn fixed_clock() -> Clock {
    // 2017-12-01 was a Friday; weekday counts from Monday as 0.
    Clock { year: 2017, month: 12, day: 1, weekday: 4, hour: 12, minute: 0, second: 0 }
}

fn count_occurrences(haystack: &str, needle: &str) -> usize {
    haystack.matches(needle).count()
}

#[test]
fn empty_path_serves_landing_page() {
    match plan_request("/", None) {
        RequestPlan::Respond(resp) => {
            assert_eq!(resp.status, 200);
            assert_eq!(resp.body, index());
        }
        RequestPlan::Fetch { .. } => panic!("empty path must not fetch"),
    }
}

#[test]
fn empty_path_ignores_headers() {
    let bare = match plan_request("/", None) {
        RequestPlan::Respond(resp) => resp,
        RequestPlan::Fetch { .. } => panic!("empty path must not fetch"),
    };
    let with_agent = match plan_request("/", Some("MyBot/1.0")) {
        RequestPlan::Respond(resp) => resp,
        RequestPlan::Fetch { .. } => panic!("empty path must not fetch"),
    };
    assert_eq!(bare.status, 200);
    assert_eq!(with_agent.status, 200);
    assert_eq!(bare.body, with_agent.body);
}

#[test]
fn invalid_url_is_rejected_with_parser_message() {
    match plan_request("/notaurl", None) {
        RequestPlan::Respond(resp) => {
            assert_eq!(resp.status, 400);
            assert!(resp.body.contains("Invalid URL"));
            // the URL parser's own message text is carried into the page
            assert!(resp.body.contains("relative URL without a base"));
        }
        RequestPlan::Fetch { .. } => panic!("invalid URL must not fetch"),
    }
}

#[test]
fn valid_url_becomes_fetch_order() {
    match plan_request("/https://example.com/a", None) {
        RequestPlan::Fetch { url, agent } => {
            assert_eq!(url, "https://example.com/a");
            assert_eq!(agent, DEFAULT_USER_AGENT);
        }
        RequestPlan::Respond(_) => panic!("valid URL must fetch"),
    }
}

#[test]
fn url_is_normalized_before_fetching() {
    match plan_request("/HTTPS://Example.COM/a?x=1", None) {
        RequestPlan::Fetch { url, .. } => {
            assert_eq!(url, "https://example.com/a?x=1");
        }
        RequestPlan::Respond(_) => panic!("valid URL must fetch"),
    }
}

#[test]
fn transport_failure_yields_fetch_error_page() {
    let resp = readable_finish(
        "https://example.com/a",
        FetchOutcome::TransportError(String::from("connection refused")),
        &fixed_clock(),
    );
    assert_eq!(resp.status, 400);
    assert!(resp.body.contains("Yikes!"));
    assert!(resp.body.contains("Can't fetch URL: connection refused"));
}

#[test]
fn body_read_failure_yields_fetch_error_page() {
    let resp = readable_finish(
        "https://example.com/a",
        FetchOutcome::BodyReadError(String::from("stream cut short")),
        &fixed_clock(),
    );
    assert_eq!(resp.status, 400);
    assert!(resp.body.contains("Can't fetch response body text: stream cut short"));
}

fn article_html() -> String {
    let mut page = String::from("<html><head><title>Example Title</title></head><body>");
    page.push_str("<nav class=\"nav menu\"><ul><li><a href=\"/x\">sidebar navigation chrome</a></li></ul></nav>");
    page.push_str("<article><h1>Example Title</h1>");
    for _ in 0..8 {
        page.push_str(
            "<p>The quick brown fox, tired of fences, decided to file a complaint with the \
             municipal authorities, who, after lengthy deliberation, agreed that hedges, \
             ditches and low stone walls were a more neighbourly choice.</p>",
        );
    }
    page.push_str("</article></body></html>");
    page
}

#[test]
fn success_page_carries_title_timestamp_url_and_article_only() {
    let url = "https://example.com/a";
    let resp = readable_finish(url, FetchOutcome::Body(article_html()), &fixed_clock());
    assert_eq!(resp.status, 200);
    // the page title placeholder received the extracted title
    assert!(resp.body.contains("<title>Example Title</title>"));
    // the header line carries the URL and the exact timestamp format
    assert!(resp.body.contains(url));
    assert!(resp.body.contains("retrieved on Friday, December  1, 2017, 12:00:00"));
    // the article's text survives, the navigation chrome does not
    assert!(resp.body.contains("The quick brown fox"));
    assert!(!resp.body.contains("sidebar navigation chrome"));
}

#[test]
fn response_against_the_real_clock() {
    let url = "https://example.com/a";
    let resp = readable_response(url, FetchOutcome::Body(article_html()));
    assert_eq!(resp.status, 200);
    assert!(resp.body.contains(url));
    assert!(resp.body.contains("retrieved on "));
}

#[test]
fn render_is_pure_and_deterministic() {
    let a = render("t", "a", "h", "c", Some("https://example.com/a"));
    let b = render("t", "a", "h", "c", Some("https://example.com/a"));
    assert_eq!(a.as_bytes(), b.as_bytes());
}

#[test]
fn render_matches_plain_substitution() {
    let expected = TEMPLATE
        .replace("{{page_title}}", "My page")
        .replace("{{article_title}}", "My article")
        .replace("{{header}}", "the header line")
        .replace("{{content}}", "<p>content</p>")
        .replace(
            "{{canonical}}",
            "<link rel=\"canonical\" href=\"https://example.com/a\" />",
        );
    let got = render(
        "My page",
        "My article",
        "the header line",
        "<p>content</p>",
        Some("https://example.com/a"),
    );
    assert_eq!(got, expected);
}

#[test]
fn render_without_canonical_blanks_the_placeholder() {
    let got = render("t", "a", "h", "c", None);
    assert!(!got.contains("{{canonical}}"));
    assert!(!got.contains("<link rel=\"canonical\""));
}

#[test]
fn user_agent_is_forwarded_when_valid() {
    match plan_request("/https://example.com/a", Some("MyBot/1.0")) {
        RequestPlan::Fetch { agent, .. } => assert_eq!(agent, "MyBot/1.0"),
        RequestPlan::Respond(_) => panic!("valid URL must fetch"),
    }
    assert_eq!(forwarded_agent(Some("MyBot/1.0")), "MyBot/1.0");
}

#[test]
fn user_agent_falls_back_to_default() {
    assert_eq!(forwarded_agent(None), DEFAULT_USER_AGENT);
    assert!(DEFAULT_USER_AGENT.contains("Readable"));
    // a control character makes the caller's value invalid as a header value
    assert_eq!(forwarded_agent(Some("Bad\nAgent")), DEFAULT_USER_AGENT);
    // horizontal tab is the one control character a header value may hold
    assert_eq!(forwarded_agent(Some("A\tB")), "A\tB");
}

#[test]
fn canonical_link_once_on_success_none_on_error() {
    let url = "https://example.com/a";
    let success = readable_finish(url, FetchOutcome::Body(article_html()), &fixed_clock());
    assert_eq!(success.status, 200);
    assert_eq!(
        count_occurrences(
            &success.body,
            "<link rel=\"canonical\" href=\"https://example.com/a\" />",
        ),
        1
    );
    let failure = readable_finish(
        url,
        FetchOutcome::TransportError(String::from("no route to host")),
        &fixed_clock(),
    );
    assert_eq!(count_occurrences(&failure.body, "<link rel=\"canonical\""), 0);
}

#[test]
fn timestamp_format_for_fixed_clock() {
    let formatted = format_time(&fixed_clock());
    assert_eq!(formatted, "Friday, December  1, 2017, 12:00:00");
}

#[test]
fn timestamp_padding_and_small_year() {
    let c = Clock { year: 33, month: 7, day: 9, weekday: 0, hour: 1, minute: 2, second: 3 };
    assert_eq!(format_time(&c), "Monday, July  9, 0033, 01:02:03");
}

#[test]
fn current_time_has_the_fixed_shape() {
    let now = get_time();
    let weekdays = [
        "Monday", "Tuesday", "Wednesday", "Thursday", "Friday", "Saturday", "Sunday",
    ];
    assert!(weekdays.iter().any(|w| now.starts_with(w)));
    // the line ends with the zero-padded clock "HH:MM:SS"
    let tail = now.as_bytes()[now.len() - 8..].to_vec();
    assert!(tail[0].is_ascii_digit() && tail[1].is_ascii_digit());
    assert_eq!(tail[2], b':');
    assert!(tail[3].is_ascii_digit() && tail[4].is_ascii_digit());
    assert_eq!(tail[5], b':');
    assert!(tail[6].is_ascii_digit() && tail[7].is_ascii_digit());
}

#[test]
fn landing_page_is_rendered_through_the_template() {
    let page = index();
    assert_eq!(
        page,
        render("Readable.", "Readable", LANDING_HEADER, LANDING_CONTENT, None)
    );
    assert!(page.contains("<title>Readable.</title>"));
    assert!(page.contains("Source code"));
}

#[test]
fn static_paths_route_to_assets_everything_else_falls_through() {
    assert!(matches!(
        route_request("/static/Crimson.woff2"),
        Route::CrimsonFont
    ));
    assert!(matches!(
        route_request("/static/JetBrainsMono.woff2"),
        Route::JetBrainsMonoFont
    ));
    assert!(matches!(route_request("/"), Route::Readable));
    assert!(matches!(
        route_request("/https://example.com/a"),
        Route::Readable
    ));
    assert!(matches!(
        route_request("/static/Crimson.woff2.bak"),
        Route::Readable
    ));
}
