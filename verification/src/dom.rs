use vstd::prelude::*;

verus! {

// The document-query collaborator: given raw HTML and a declarative CSS
// query, return matching elements' attribute values or inner HTML.  The
// queries below are opaque strings to this library; scraper interprets them.

/// Inner HTML of the first element of `html` that matches the CSS query
/// `query`, or `None` when nothing matches (or the query is not valid CSS).
pub uninterp spec fn first_match_inner(html: Seq<char>, query: Seq<char>) -> Option<Seq<char>>;

/// Value of attribute `attr` on the first element of `html` that matches
/// `query`; `None` when nothing matches, the first match lacks the
/// attribute, or the query is not valid CSS.
pub uninterp spec fn first_match_attr(html: Seq<char>, query: Seq<char>, attr: Seq<char>) -> Option<
    Seq<char>,
>;

/// For each element of `html` that matches `query`, in document order, the
/// value of attribute `attr` on it (`None` where that element lacks it);
/// empty when the query is not valid CSS.
pub uninterp spec fn all_match_attr(html: Seq<char>, query: Seq<char>, attr: Seq<char>) -> Seq<
    Option<Seq<char>>,
>;

/// Relies on scraper (Html::parse_document, Selector::parse, Html::select,
/// ElementRef::inner_html): parsing a document and selecting in it depend
/// on the document and the query alone.
#[verifier::external_body]
pub(crate) fn select_first_inner(html: &str, query: &str) -> (r: Option<String>)
    ensures
        r matches Some(t) ==> first_match_inner(html@, query@) == Some(t@),
        r is None ==> first_match_inner(html@, query@) is None,
{
    let sel = match scraper::Selector::parse(query) {
        Ok(s) => s,
        Err(_) => return None,
    };
    let doc = scraper::Html::parse_document(html);
    doc.select(&sel).next().map(|e| e.inner_html())
}

/// Relies on scraper (Html::parse_document, Selector::parse, Html::select,
/// ElementRef::attr): parsing a document and selecting in it depend on the
/// document and the query alone.
#[verifier::external_body]
pub(crate) fn select_first_attr(html: &str, query: &str, attr: &str) -> (r: Option<String>)
    ensures
        r matches Some(t) ==> first_match_attr(html@, query@, attr@) == Some(t@),
        r is None ==> first_match_attr(html@, query@, attr@) is None,
{
    let sel = match scraper::Selector::parse(query) {
        Ok(s) => s,
        Err(_) => return None,
    };
    let doc = scraper::Html::parse_document(html);
    doc.select(&sel).next().and_then(|e| e.attr(attr).map(|v| String::from(v)))
}

/// Relies on scraper (Html::parse_document, Selector::parse, Html::select,
/// ElementRef::attr): parsing a document and selecting in it depend on the
/// document and the query alone.
#[verifier::external_body]
pub(crate) fn select_all_attr(html: &str, query: &str, attr: &str) -> (r: Vec<Option<String>>)
    ensures
        r.deep_view() == all_match_attr(html@, query@, attr@),
{
    let sel = match scraper::Selector::parse(query) {
        Ok(s) => s,
        Err(_) => return Vec::new(),
    };
    let doc = scraper::Html::parse_document(html);
    doc.select(&sel).map(|e| e.attr(attr).map(|v| String::from(v))).collect()
}

} // verus!
