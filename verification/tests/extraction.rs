use agpt_we::extract::{build_search_url, extract_line, extract_results};

fn anchor_line(payload: &str, title_span: &str) -> String {
    let mut s = String::from("<a class=\"result__a\" href=\"//duckduckgo.com/l/?uddg=");
    s.push_str(payload);
    s.push('"');
    s.push_str(title_span);
    s
}

#[test]
fn decodes_redirect_payload() {
    // Redirect parameter value `https%3A%2F%2Fexample.com%2Fpage` must decode
    // to `https://example.com/page`.
    let line = anchor_line("https%3A%2F%2Fexample.com%2Fpage", ">Example Title</a>");
    let hit = extract_line(&line).expect("line qualifies");
    assert_eq!(hit.url, "https://example.com/page");
    assert_eq!(hit.title, "Example Title");
    assert!(hit.content.is_none());
}

#[test]
fn decoded_url_has_no_residual_escape() {
    let line = anchor_line("a%20b%2Fc%3Dd", ">T</a>");
    let hit = extract_line(&line).expect("line qualifies");
    assert_eq!(hit.url, "a b/c=d");
    assert!(!hit.url.contains('%'));
}

#[test]
fn title_falls_back_to_url_without_span() {
    let line = anchor_line("https%3A%2F%2Fa.io%2F", "");
    let hit = extract_line(&line).expect("line qualifies");
    assert_eq!(hit.url, "https://a.io/");
    assert_eq!(hit.title, "https://a.io/");
}

#[test]
fn title_falls_back_when_span_never_closes() {
    let line = anchor_line("https%3A%2F%2Fa.io%2F", ">No closing tag");
    let hit = extract_line(&line).expect("line qualifies");
    assert_eq!(hit.title, "https://a.io/");
}

#[test]
fn cap_is_five_results() {
    let mut markup = String::new();
    for i in 0..7 {
        markup.push_str(&anchor_line(&format!("https%3A%2F%2Fsite{}.io", i), ">t</a>"));
        markup.push('\n');
    }
    let results = extract_results(&markup);
    assert_eq!(results.len(), 5);
    assert_eq!(results[0].url, "https://site0.io");
    assert_eq!(results[4].url, "https://site4.io");
}

#[test]
fn results_keep_scan_order() {
    let markup = format!(
        "{}\n{}\n{}\n",
        anchor_line("A", ">first</a>"),
        anchor_line("B", ">second</a>"),
        anchor_line("C", ">third</a>"),
    );
    let results = extract_results(&markup);
    assert_eq!(results.len(), 3);
    assert_eq!(results[0].title, "first");
    assert_eq!(results[1].title, "second");
    assert_eq!(results[2].title, "third");
}

#[test]
fn non_qualifying_markup_yields_nothing() {
    assert_eq!(extract_results("").len(), 0);
    assert_eq!(extract_results("<html><body>nothing here</body></html>").len(), 0);
    // The anchor class alone, without the redirect parameter, does not qualify.
    assert_eq!(extract_results("<a class=\"result__a\" href=\"x\">t</a>").len(), 0);
    // The redirect parameter alone, without the anchor class, does not qualify.
    assert_eq!(extract_results("<a href=\"?uddg=abc\">t</a>").len(), 0);
}

#[test]
fn line_without_closing_quote_is_skipped() {
    let results = extract_results("result__a uddg=abc with no quote");
    assert_eq!(results.len(), 0);
}

#[test]
fn undecodable_payload_is_skipped_silently() {
    // `%FF` names a byte that is not valid UTF-8 on its own: decoding fails and
    // the line is skipped, without failing the extraction.
    let markup = format!(
        "{}\n{}\n",
        anchor_line("%FF", ">bad</a>"),
        anchor_line("ok", ">good</a>"),
    );
    let results = extract_results(&markup);
    assert_eq!(results.len(), 1);
    assert_eq!(results[0].title, "good");
    assert_eq!(results[0].url, "ok");
}

#[test]
fn search_url_encodes_query() {
    let url = build_search_url("rust tutorial");
    assert_eq!(url, "https://duckduckgo.com/html/?q=rust%20tutorial");
    let url2 = build_search_url("a&b=c");
    assert_eq!(url2, "https://duckduckgo.com/html/?q=a%26b%3Dc");
}

#[test]
fn carriage_returns_do_not_break_line_scanning() {
    let markup = format!(
        "{}\r\n{}\r\n",
        anchor_line("first", ">one</a>"),
        anchor_line("second", ">two</a>"),
    );
    let results = extract_results(&markup);
    assert_eq!(results.len(), 2);
    assert_eq!(results[0].url, "first");
    assert_eq!(results[1].url, "second");
}

#[test]
fn title_is_the_first_span_after_the_payload() {
    let line = anchor_line("u", "><b>bold</b> more</a>");
    let hit = extract_line(&line).expect("line qualifies");
    // The first `>` opens an empty span closed by the `<` of the inner tag.
    assert_eq!(hit.title, "");
    assert_eq!(hit.url, "u");
}
