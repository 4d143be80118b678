//! The scrape engine: from a results page to the candidate pages, and from
//! what fetching those gave to the aggregate text of a search.

use vstd::prelude::*;
use crate::text::{concatenate, join, joined_with, starts_with_text, texts};

verus! {

/// The address of the results page is this, followed by the query.
pub const SEARCH_ENDPOINT: &'static str = "https://html.duckduckgo.com/html/?q=";

/// The identity that requests declare.
pub const USER_AGENT: &'static str =
    "Mozilla/5.0 (Windows NT 10.0; Win64; x64) AppleWebKit/537.36 (KHTML, like Gecko) Chrome/91.0.4472.124 Safari/537.36";

/// Seconds allowed for one request.
pub const TIMEOUT_SECS: u64 = 10;

/// How many result pages one search reads at most.
pub const FAN_OUT: usize = 5;

/// For the HTML document `html`: of each element that the CSS selector
/// `selector` selects, in the order in which the document yields them, the
/// value of its attribute `attribute`, if it has one. `None` where
/// `selector` is no selector.
pub uninterp spec fn selected_attributes(
    html: Seq<char>,
    selector: Seq<char>,
    attribute: Seq<char>,
) -> Option<Seq<Option<Seq<char>>>>;

/// For the HTML document `html`: of each element that the CSS selector
/// `selector` selects, the text nodes below it, in document order. `None`
/// where `selector` is no selector.
pub uninterp spec fn selected_texts(html: Seq<char>, selector: Seq<char>) -> Option<
    Seq<Seq<Seq<char>>>,
>;

/// The characters of each string of `values` that is there.
pub open spec fn optional_texts(values: Seq<Option<String>>) -> Seq<Option<Seq<char>>> {
    Seq::new(
        values.len(),
        |i: int|
            match values[i] {
                Some(s) => Some(s@),
                None => None,
            },
    )
}

/// The characters of each string of each group.
pub open spec fn grouped_texts(groups: Seq<Vec<String>>) -> Seq<Seq<Seq<char>>> {
    Seq::new(groups.len(), |i: int| texts(groups[i]@))
}

/// `scraper::Selector::parse`, `scraper::Html::parse_document`,
/// `scraper::Html::select` and `scraper::node::Element::attr`: parses the
/// selector and the document, and gives for each selected element, in the
/// order of `select`, the value of the attribute where the element has it.
/// The result is `None` where the selector does not parse.
#[verifier::external_body]
fn select_attributes(html: &str, selector: &str, attribute: &str) -> (r: Option<
    Vec<Option<String>>,
>)
    ensures
        match r {
            Some(values) => selected_attributes(html@, selector@, attribute@) == Some(
                optional_texts(values@),
            ),
            None => selected_attributes(html@, selector@, attribute@) is None,
        },
{
    let selector = scraper::Selector::parse(selector).ok()?;
    let document = scraper::Html::parse_document(html);
    Some(
        document.select(&selector).map(|e| e.value().attr(attribute).map(|v| v.to_string()))
            .collect(),
    )
}

/// `scraper::Selector::parse`, `scraper::Html::parse_document`,
/// `scraper::Html::select` and `scraper::ElementRef::text`: parses the
/// selector and the document, and gives for each selected element, in the
/// order of `select`, its text nodes in the order of `text`. The result is
/// `None` where the selector does not parse.
#[verifier::external_body]
fn select_texts(html: &str, selector: &str) -> (r: Option<Vec<Vec<String>>>)
    ensures
        match r {
            Some(groups) => selected_texts(html@, selector@) == Some(grouped_texts(groups@)),
            None => selected_texts(html@, selector@) is None,
        },
{
    let selector = scraper::Selector::parse(selector).ok()?;
    let document = scraper::Html::parse_document(html);
    Some(document.select(&selector).map(|e| e.text().map(|t| t.to_string()).collect()).collect())
}

/// The address of the results page for `query`.
pub open spec fn search_address(query: Seq<char>) -> Seq<char> {
    SEARCH_ENDPOINT@ + query
}

/// The address of the results page for `query`.
pub fn search_url(query: &str) -> (r: String)
    ensures
        r@ == search_address(query@),
{
    concatenate(SEARCH_ENDPOINT, query)
}

/// A link as it is fetched: one that leaves the protocol open, `//host/path`,
/// is read as HTTPS.
pub open spec fn absolute(link: Seq<char>) -> Seq<char> {
    if "//"@.is_prefix_of(link) {
        "https:"@ + link
    } else {
        link
    }
}

/// The links among `values`, each made absolute, in order.
pub open spec fn candidates(values: Seq<Option<Seq<char>>>) -> Seq<Seq<char>>
    decreases values.len(),
{
    if values.len() == 0 {
        Seq::empty()
    } else {
        match values.last() {
            Some(link) => candidates(values.drop_last()).push(absolute(link)),
            None => candidates(values.drop_last()),
        }
    }
}

/// The first `FAN_OUT` of `links`, or all of them if they are fewer.
pub open spec fn leading(links: Seq<Seq<char>>) -> Seq<Seq<char>> {
    if links.len() <= FAN_OUT {
        links
    } else {
        links.take(FAN_OUT as int)
    }
}

/// The pages that a search reads, given what the selection of the result
/// links of a results page gave.
pub open spec fn links_of(found: Option<Seq<Option<Seq<char>>>>) -> Seq<Seq<char>> {
    match found {
        Some(values) => leading(candidates(values)),
        None => Seq::empty(),
    }
}

/// The pages that a search reads, for the results page `html`.
pub open spec fn result_links(html: Seq<char>) -> Seq<Seq<char>> {
    links_of(selected_attributes(html, ".result__url"@, "href"@))
}

/// Makes a link absolute.
pub fn absolute_link(link: &str) -> (r: String)
    ensures
        r@ == absolute(link@),
{
    if starts_with_text(link, "//") {
        concatenate("https:", link)
    } else {
        link.to_owned()
    }
}

/// The pages that a search reads, from the `href` values of the result
/// links of a results page: those that are there, made absolute, and of
/// these the first `FAN_OUT`.
pub fn links_from(values: &Vec<Option<String>>) -> (r: Vec<String>)
    ensures
        texts(r@) == leading(candidates(optional_texts(values@))),
        r@.len() <= FAN_OUT,
{
    let ghost all = optional_texts(values@);
    let mut links: Vec<String> = Vec::new();
    let mut i: usize = 0;
    assert(all.take(0) =~= Seq::<Option<Seq<char>>>::empty());
    assert(texts(links@) =~= Seq::<Seq<char>>::empty());
    while i < values.len()
        invariant
            i <= values.len(),
            all == optional_texts(values@),
            texts(links@) == candidates(all.take(i as int)),
        decreases values.len() - i,
    {
        assert(all.take(i + 1).drop_last() =~= all.take(i as int));
        assert(all.take(i + 1).last() == all[i as int]);
        match &values[i] {
            Some(link) => {
                let ghost before = texts(links@);
                let made = absolute_link(link.as_str());
                links.push(made);
                assert(texts(links@) =~= before.push(made@));
            },
            None => {},
        }
        i += 1;
    }
    assert(all.take(values.len() as int) =~= all);
    if links.len() <= FAN_OUT {
        links
    } else {
        let mut first: Vec<String> = Vec::new();
        let mut k: usize = 0;
        while k < FAN_OUT
            invariant
                k <= FAN_OUT < links.len(),
                first@.len() == k,
                texts(first@) == texts(links@).take(k as int),
            decreases FAN_OUT - k,
        {
            let ghost before = texts(first@);
            first.push(links[k].clone());
            assert(texts(first@) =~= before.push(links@[k as int]@));
            assert(texts(links@).take(k + 1) =~= texts(links@).take(k as int).push(
                links@[k as int]@,
            ));
            k += 1;
        }
        first
    }
}

/// The pages that a search reads, for the results page `html`, in the
/// order of the page.
pub fn read_result_links(html: &str) -> (r: Vec<String>)
    ensures
        texts(r@) == result_links(html@),
        r@.len() <= FAN_OUT,
{
    match select_attributes(html, ".result__url", "href") {
        Some(values) => links_from(&values),
        None => {
            let none: Vec<String> = Vec::new();
            assert(texts(none@) =~= Seq::<Seq<char>>::empty());
            none
        },
    }
}

/// The visible text of a page, given the text nodes of the elements that
/// `body` selects: those of the first, with single spaces between them.
pub open spec fn body_text_of(found: Option<Seq<Seq<Seq<char>>>>) -> Option<Seq<char>> {
    match found {
        Some(groups) => if groups.len() == 0 {
            None
        } else {
            Some(joined_with(groups[0], " "@))
        },
        None => None,
    }
}

/// The visible text of the page `html`, where it has a body.
pub open spec fn body_text(html: Seq<char>) -> Option<Seq<char>> {
    body_text_of(selected_texts(html, "body"@))
}

/// The visible text of a page, from the text nodes of its body elements.
pub fn text_from(groups: &Vec<Vec<String>>) -> (r: Option<String>)
    ensures
        match r {
            Some(t) => body_text_of(Some(grouped_texts(groups@))) == Some(t@),
            None => body_text_of(Some(grouped_texts(groups@))) is None,
        },
{
    if groups.len() == 0 {
        None
    } else {
        Some(join(&groups[0], " "))
    }
}

/// The visible text of the page `html`, where it has a body.
pub fn read_body_text(html: &str) -> (r: Option<String>)
    ensures
        match r {
            Some(t) => body_text(html@) == Some(t@),
            None => body_text(html@) is None,
        },
{
    match select_texts(html, "body") {
        Some(groups) => text_from(&groups),
        None => None,
    }
}

/// What fetching one page gave.
#[derive(Debug, PartialEq, Eq)]
pub enum FetchOutcome {
    /// The page arrived; its HTML.
    Page(String),
    /// An answer arrived, but its body could not be read as text.
    Unreadable,
    /// The request failed; the cause.
    Failed(String),
}

/// The block of a page that was read.
pub open spec fn content_block(link: Seq<char>, text: Seq<char>) -> Seq<char> {
    "URL: "@ + link + "\nContent: "@ + text + "\n\n"@
}

/// The note of a page that could not be fetched.
pub open spec fn failure_note(link: Seq<char>, cause: Seq<char>) -> Seq<char> {
    "Failed to fetch "@ + link + ": "@ + cause + "\n"@
}

/// What one page contributes to the aggregate.
pub open spec fn block(link: Seq<char>, outcome: FetchOutcome) -> Seq<char> {
    match outcome {
        FetchOutcome::Page(html) => match body_text(html@) {
            Some(text) => content_block(link, text),
            None => Seq::empty(),
        },
        FetchOutcome::Unreadable => Seq::empty(),
        FetchOutcome::Failed(cause) => failure_note(link, cause@),
    }
}

/// The contributions of `pages`, in order.
pub open spec fn combined(pages: Seq<(String, FetchOutcome)>) -> Seq<char>
    decreases pages.len(),
{
    if pages.len() == 0 {
        Seq::empty()
    } else {
        combined(pages.drop_last()) + block(pages.last().0@, pages.last().1)
    }
}

/// The text of a search: what the pages contribute, or a fixed sentence
/// where they contribute nothing.
pub open spec fn aggregate_text(pages: Seq<(String, FetchOutcome)>) -> Seq<char> {
    if combined(pages).len() == 0 {
        "No content found"@
    } else {
        combined(pages)
    }
}

/// The block of a page that was read.
pub fn write_content_block(link: &str, text: &str) -> (r: String)
    ensures
        r@ == content_block(link@, text@),
{
    let mut out = concatenate("URL: ", link);
    out.append("\nContent: ");
    out.append(text);
    out.append("\n\n");
    out
}

/// The note of a page that could not be fetched.
pub fn write_failure_note(link: &str, cause: &str) -> (r: String)
    ensures
        r@ == failure_note(link@, cause@),
{
    let mut out = concatenate("Failed to fetch ", link);
    out.append(": ");
    out.append(cause);
    out.append("\n");
    out
}

/// What one page contributes to the aggregate.
pub fn page_block(link: &str, outcome: &FetchOutcome) -> (r: String)
    ensures
        r@ == block(link@, *outcome),
{
    match outcome {
        FetchOutcome::Page(html) => match read_body_text(html.as_str()) {
            Some(text) => write_content_block(link, text.as_str()),
            None => String::new(),
        },
        FetchOutcome::Unreadable => String::new(),
        FetchOutcome::Failed(cause) => write_failure_note(link, cause.as_str()),
    }
}

/// The text of a search, from each page that was tried and what fetching
/// it gave, in the order of the requests.
pub fn aggregate(pages: &Vec<(String, FetchOutcome)>) -> (r: String)
    ensures
        r@ == aggregate_text(pages@),
        r@.len() > 0,
{
    let mut out = String::new();
    let mut i: usize = 0;
    assert(pages@.take(0) =~= Seq::<(String, FetchOutcome)>::empty());
    while i < pages.len()
        invariant
            i <= pages.len(),
            out@ == combined(pages@.take(i as int)),
        decreases pages.len() - i,
    {
        assert(pages@.take(i + 1).drop_last() =~= pages@.take(i as int));
        let piece = page_block(pages[i].0.as_str(), &pages[i].1);
        out.append(piece.as_str());
        i += 1;
    }
    assert(pages@.take(pages.len() as int) =~= pages@);
    if out.as_str().unicode_len() == 0 {
        proof {
            lemma_sentinel();
        }
        "No content found".to_owned()
    } else {
        out
    }
}

/// The sentence that stands for an empty search is itself not empty.
proof fn lemma_sentinel()
    ensures
        "No content found"@.len() == 16,
{
    reveal_strlit("No content found");
}

/// A search never gives an empty text, and a search that read no page gives
/// the fixed sentence.
pub proof fn lemma_search_text(pages: Seq<(String, FetchOutcome)>)
    ensures
        aggregate_text(pages).len() > 0,
        pages.len() == 0 ==> aggregate_text(pages) == "No content found"@,
{
    lemma_sentinel();
}

/// A results page without result links gives the fixed sentence, whatever
/// the query was.
pub proof fn lemma_no_results(html: Seq<char>, pages: Seq<(String, FetchOutcome)>)
    requires
        result_links(html).len() == 0,
        pages.len() == result_links(html).len(),
    ensures
        aggregate_text(pages) == "No content found"@,
{
}

} // verus!
