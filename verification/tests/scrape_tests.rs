use planbot::scrape::{
    absolute_link, aggregate, links_from, page_block, read_body_text, read_result_links,
    search_url, text_from, write_content_block, write_failure_note, FetchOutcome, FAN_OUT,
    TIMEOUT_SECS,
};

fn page(body: &str) -> FetchOutcome {
    FetchOutcome::Page(format!("<html><head><title>t</title></head><body>{}</body></html>", body))
}

fn results_page(links: &[&str]) -> String {
    let mut html = String::from("<html><body><div class=\"results\">");
    for link in links {
        html.push_str(&format!(
            "<div class=\"result\"><a class=\"result__a\" href=\"{0}\">title</a><a class=\"result__url\" href=\"{0}\">shown</a></div>",
            link
        ));
    }
    html.push_str("</div></body></html>");
    html
}

#[test]
fn the_query_is_embedded_in_the_address() {
    assert_eq!(search_url("rust verus"), "https://html.duckduckgo.com/html/?q=rust verus");
    assert_eq!(search_url(""), "https://html.duckduckgo.com/html/?q=");
    assert_eq!(TIMEOUT_SECS, 10);
}

#[test]
fn protocol_relative_links_become_https() {
    assert_eq!(absolute_link("//example.com/a"), "https://example.com/a");
    assert_eq!(absolute_link("https://example.com/a"), "https://example.com/a");
    assert_eq!(absolute_link("/relative"), "/relative");
    assert_eq!(absolute_link(""), "");
}

#[test]
fn result_links_in_page_order() {
    let html = results_page(&["//a.example/1", "https://b.example/2", "http://c.example/3"]);
    assert_eq!(
        read_result_links(&html),
        vec!["https://a.example/1", "https://b.example/2", "http://c.example/3"]
    );
}

#[test]
fn at_most_five_links_are_read() {
    let html = results_page(&["//1", "//2", "//3", "//4", "//5", "//6", "//7"]);
    assert_eq!(FAN_OUT, 5);
    assert_eq!(
        read_result_links(&html),
        vec!["https://1", "https://2", "https://3", "https://4", "https://5"]
    );
}

#[test]
fn result_elements_without_href_are_passed_over() {
    let html = "<html><body><span class=\"result__url\">no link</span><a class=\"result__url\" href=\"//x\">x</a><a class=\"other\" href=\"//y\">y</a></body></html>";
    assert_eq!(read_result_links(html), vec!["https://x"]);
}

#[test]
fn a_page_without_results_has_no_links() {
    assert_eq!(read_result_links(""), Vec::<String>::new());
    assert_eq!(read_result_links("<html><body><p>No results.</p></body></html>"), Vec::<String>::new());
}

#[test]
fn links_from_optional_values() {
    let values = vec![
        None,
        Some("//a".to_string()),
        None,
        Some("b".to_string()),
        Some("//c".to_string()),
        Some("d".to_string()),
        Some("e".to_string()),
        Some("f".to_string()),
    ];
    assert_eq!(links_from(&values), vec!["https://a", "b", "https://c", "d", "e"]);
    assert_eq!(links_from(&vec![None, None]), Vec::<String>::new());
    assert_eq!(links_from(&vec![]), Vec::<String>::new());
}

#[test]
fn body_text_joins_text_nodes_with_spaces() {
    let html = "<html><head><title>skip</title></head><body><h1>Title</h1><p>one <b>two</b></p></body></html>";
    assert_eq!(read_body_text(html), Some("Title one  two".to_string()));
    assert_eq!(read_body_text(""), Some("".to_string()));
}

#[test]
fn text_from_the_first_group() {
    let groups = vec![vec!["a".to_string(), "b".to_string()], vec!["c".to_string()]];
    assert_eq!(text_from(&groups), Some("a b".to_string()));
    assert_eq!(text_from(&vec![vec![]]), Some("".to_string()));
    assert_eq!(text_from(&vec![]), None);
}

#[test]
fn blocks_and_notes() {
    assert_eq!(write_content_block("u", "t"), "URL: u\nContent: t\n\n");
    assert_eq!(write_failure_note("u", "timed out"), "Failed to fetch u: timed out\n");
    assert_eq!(page_block("u", &page("hello")), "URL: u\nContent: hello\n\n");
    assert_eq!(page_block("u", &FetchOutcome::Unreadable), "");
    assert_eq!(
        page_block("u", &FetchOutcome::Failed("HTTP 500".to_string())),
        "Failed to fetch u: HTTP 500\n"
    );
}

#[test]
fn no_pages_give_the_sentinel() {
    assert_eq!(aggregate(&vec![]), "No content found");
}

#[test]
fn a_search_without_results_gives_the_sentinel() {
    for html in ["", "<html><body>nothing for your query</body></html>"] {
        let links = read_result_links(html);
        let pages: Vec<(String, FetchOutcome)> =
            links.into_iter().map(|l| (l, FetchOutcome::Unreadable)).collect();
        assert_eq!(aggregate(&pages), "No content found");
    }
}

#[test]
fn pages_that_contribute_nothing_give_the_sentinel() {
    let pages = vec![
        ("a".to_string(), FetchOutcome::Unreadable),
        ("b".to_string(), FetchOutcome::Unreadable),
    ];
    assert_eq!(aggregate(&pages), "No content found");
}

#[test]
fn two_failures_of_five_leave_three_contents() {
    let pages = vec![
        ("https://1".to_string(), page("alpha")),
        ("https://2".to_string(), FetchOutcome::Failed("HTTP 500".to_string())),
        ("https://3".to_string(), page("beta")),
        ("https://4".to_string(), FetchOutcome::Failed("HTTP 500".to_string())),
        ("https://5".to_string(), page("gamma")),
    ];
    let text = aggregate(&pages);
    assert_eq!(
        text,
        "URL: https://1\nContent: alpha\n\nFailed to fetch https://2: HTTP 500\nURL: https://3\nContent: beta\n\nFailed to fetch https://4: HTTP 500\nURL: https://5\nContent: gamma\n\n"
    );
    assert!(!text.is_empty());
    for content in ["alpha", "beta", "gamma"] {
        assert!(text.contains(content));
    }
}

#[test]
fn only_failures_are_still_reported() {
    let pages = vec![("https://1".to_string(), FetchOutcome::Failed("refused".to_string()))];
    assert_eq!(aggregate(&pages), "Failed to fetch https://1: refused\n");
}
