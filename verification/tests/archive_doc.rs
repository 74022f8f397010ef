use agpt_we::archive::render_markdown;
use agpt_we::model::SearchResult;

fn hit(title: &str, url: &str, content: Option<&str>) -> SearchResult {
    SearchResult {
        title: title.to_string(),
        url: url.to_string(),
        content: content.map(|c| c.to_string()),
    }
}

#[test]
fn document_with_three_hits_and_one_failure() {
    // Three hits; the middle fetch failed and carries the failure placeholder.
    let results = vec![
        hit("A", "http://a", Some("<html>a</html>")),
        hit("B", "http://b", Some("Failed to fetch content: boom")),
        hit("C", "http://c", Some("<html>c</html>")),
    ];
    let md = render_markdown("rust tutorial", &results);
    let expected = "# Query: rust tutorial\n\n## Results\n\
                    - [A](http://a)\n- [B](http://b)\n- [C](http://c)\n\
                    \n---\n\n## Page Content\n\
                    \n### A\n<html>a</html>\n\
                    \n### B\nFailed to fetch content: boom\n\
                    \n### C\n<html>c</html>\n";
    assert_eq!(md, expected);
    assert_eq!(md.matches("- [").count(), 3);
    assert_eq!(md.matches("\n### ").count(), 3);
}

#[test]
fn document_with_no_hits_still_has_all_sections() {
    let results: Vec<SearchResult> = Vec::new();
    let md = render_markdown("empty query", &results);
    assert_eq!(
        md,
        "# Query: empty query\n\n## Results\n\n---\n\n## Page Content\n"
    );
}

#[test]
fn unfetched_content_renders_the_fixed_marker() {
    let results = vec![hit("A", "http://a", None)];
    let md = render_markdown("q", &results);
    assert!(md.contains("\n### A\nNo content fetched.\n"));
}

#[test]
fn rendering_twice_is_byte_identical() {
    let results = vec![
        hit("A", "http://a", Some("<p>x</p>")),
        hit("B", "http://b", None),
    ];
    let first = render_markdown("same query", &results);
    let second = render_markdown("same query", &results);
    assert_eq!(first.into_bytes(), second.into_bytes());
}
