use vstd::prelude::*;
use crate::dom::{all_match_attr, first_match_attr, first_match_inner};
use crate::dom::{select_all_attr, select_first_attr, select_first_inner};
use crate::urls::{parse_url, parsed_url};

verus! {

/// Why a gallery could not be created or crawled.
#[derive(Debug, Clone, Copy, PartialEq, Eq, Structural)]
pub enum GalleryError {
    /// The source line did not parse as an absolute URL.
    InvalidUrl,
    /// The listing page carries no title element.
    TitleNotFound,
}

/// The title a listing page carries, if any.
pub open spec fn page_title(page: Seq<char>) -> Option<Seq<char>> {
    first_match_inner(page, "#gn"@)
}

/// The raw item-link hrefs a listing page carries, in document order
/// (`None` where a matched link lacks an href).
pub open spec fn page_item_hrefs(page: Seq<char>) -> Seq<Option<Seq<char>>> {
    all_match_attr(page, "#gdt a"@, "href"@)
}

/// Of a sequence of optional hrefs, those that are present and parse as
/// absolute URLs, normalized, in order.
pub open spec fn parsed_hrefs(hrefs: Seq<Option<Seq<char>>>) -> Seq<Seq<char>>
    decreases hrefs.len(),
{
    if hrefs.len() == 0 {
        Seq::empty()
    } else {
        let rest = parsed_hrefs(hrefs.drop_last());
        match hrefs.last() {
            Some(h) => match parsed_url(h) {
                Some(u) => rest.push(u),
                None => rest,
            },
            None => rest,
        }
    }
}

/// The item URLs one listing page contributes, in document order; a link
/// without an href, or whose href is malformed, is silently skipped.
pub open spec fn page_item_urls(page: Seq<char>) -> Seq<Seq<char>> {
    parsed_hrefs(page_item_hrefs(page))
}

/// The next-page href a listing page carries, if any.
pub open spec fn page_next(page: Seq<char>) -> Option<Seq<char>> {
    first_match_attr(page, "table.ptt > tbody > tr > td:last-child > a"@, "href"@)
}

/// One crawlable unit: a listing page URL, its resolved title, and the
/// ordered list of discovered item URLs.
#[derive(Debug)]
pub struct Gallery {
    /// Normalized source URL of the listing page; immutable once created.
    pub url: String,
    /// Resolved title; empty until a listing page supplies one.
    pub title: String,
    /// Discovered item URLs in page order.  Duplicates are kept as
    /// discovered; the position gives the 1-based output file name.
    pub images: Vec<String>,
}

impl Gallery {
    /// Create a gallery from one line of the input list.  Succeeds exactly
    /// when the line parses as an absolute URL.
    pub fn new(url: String) -> (r: Result<Gallery, GalleryError>)
        ensures
            parsed_url(url@) matches Some(u) ==> r matches Ok(g) && g.url@ == u && g.title@
                =~= Seq::<char>::empty() && g.images@ == Seq::<String>::empty(),
            parsed_url(url@) is None ==> r == Err::<Gallery, GalleryError>(
                GalleryError::InvalidUrl,
            ),
    {
        match parse_url(url.as_str()) {
            Some(u) => Ok(Gallery { url: u, title: String::new(), images: Vec::new() }),
            None => Err(GalleryError::InvalidUrl),
        }
    }

    /// Apply the fetched listing page to resolve the title.  Fails with
    /// `TitleNotFound` exactly when the page carries no title element; the
    /// gallery is then unchanged.
    pub fn apply_info_page(&mut self, page: &str) -> (r: Result<(), GalleryError>)
        ensures
            page_title(page@) matches Some(t) ==> r is Ok && final(self).title@ == t,
            page_title(page@) is None ==> r == Err::<(), GalleryError>(GalleryError::TitleNotFound)
                && final(self).title == old(self).title,
            final(self).url == old(self).url,
            final(self).images == old(self).images,
    {
        match select_first_inner(page, "#gn") {
            Some(t) => {
                self.title = t;
                Ok(())
            },
            None => Err(GalleryError::TitleNotFound),
        }
    }

    /// Apply one fetched listing page of the pagination crawl: append the
    /// item URLs the page contributes, in document order, and return the
    /// next-page href.  `None` — the page carries no next-page link — is
    /// the crawl's termination signal.
    pub fn apply_listing_page(&mut self, page: &str) -> (next: Option<String>)
        ensures
            final(self).images.deep_view() == old(self).images.deep_view() + page_item_urls(page@),
            next matches Some(n) ==> page_next(page@) == Some(n@),
            next is None <==> page_next(page@) is None,
            final(self).url == old(self).url,
            final(self).title == old(self).title,
    {
        let hrefs = select_all_attr(page, "#gdt a", "href");
        let mut k: usize = 0;
        proof {
            assert(hrefs.deep_view().take(0) =~= Seq::<Option<Seq<char>>>::empty());
            assert(self.images.deep_view() =~= self.images.deep_view() + parsed_hrefs(
                hrefs.deep_view().take(0),
            ));
        }
        while k < hrefs.len()
            invariant
                k <= hrefs.len(),
                hrefs.deep_view() == page_item_hrefs(page@),
                self.images.deep_view() == old(self).images.deep_view() + parsed_hrefs(
                    hrefs.deep_view().take(k as int),
                ),
                self.url == old(self).url,
                self.title == old(self).title,
            decreases hrefs.len() - k,
        {
            proof {
                assert(hrefs.deep_view().take(k as int + 1).drop_last() =~= hrefs.deep_view().take(
                    k as int,
                ));
                assert(hrefs.deep_view().take(k as int + 1).last() == hrefs@[k as int].deep_view());
            }
            let ghost prev = self.images.deep_view();
            let h = &hrefs[k];
            match h {
                Some(s) => {
                    match parse_url(s.as_str()) {
                        Some(u) => {
                            let ghost uv = u@;
                            self.images.push(u);
                            proof {
                                assert(self.images.deep_view() =~= prev.push(uv));
                            }
                        },
                        None => {},
                    }
                },
                None => {},
            }
            k = k + 1;
        }
        proof {
            assert(hrefs.deep_view().take(hrefs@.len() as int) =~= hrefs.deep_view());
        }
        select_first_attr(page, "table.ptt > tbody > tr > td:last-child > a", "href")
    }
}

/// The item lists a crawl accumulates: starting from `init`, apply `pages`
/// in order, each appending the item URLs it contributes.
pub open spec fn crawl_images(init: Seq<Seq<char>>, pages: Seq<Seq<char>>) -> Seq<Seq<char>>
    decreases pages.len(),
{
    if pages.len() == 0 {
        init
    } else {
        crawl_images(init + page_item_urls(pages.first()), pages.drop_first())
    }
}

/// The item URLs `pages` contribute, concatenated in page order.
pub open spec fn discovered_items(pages: Seq<Seq<char>>) -> Seq<Seq<char>>
    decreases pages.len(),
{
    if pages.len() == 0 {
        Seq::empty()
    } else {
        page_item_urls(pages.first()) + discovered_items(pages.drop_first())
    }
}

/// Pagination discovery: a crawl that applies K listing pages in order —
/// each step being one `apply_listing_page` — ends with exactly the item
/// URLs of all K pages, concatenated in page order, after what it started
/// with.  The crawl fetches a further page only while `apply_listing_page`
/// returns a next-page href, and that is `None` exactly when the page
/// carries no next-page link, so a crawl whose last page has none stops
/// after its K pages.
pub proof fn lemma_crawl_discovers_in_page_order(init: Seq<Seq<char>>, pages: Seq<Seq<char>>)
    ensures
        crawl_images(init, pages) == init + discovered_items(pages),
    decreases pages.len(),
{
    if pages.len() == 0 {
        assert(init + discovered_items(pages) =~= init);
    } else {
        lemma_crawl_discovers_in_page_order(init + page_item_urls(pages.first()), pages.drop_first());
        assert((init + page_item_urls(pages.first())) + discovered_items(pages.drop_first()) =~= init
            + discovered_items(pages));
    }
}

/// The normalized URLs of the input lines that parse as absolute URLs, in
/// order.
pub open spec fn parsed_lines(lines: Seq<Seq<char>>) -> Seq<Seq<char>>
    decreases lines.len(),
{
    if lines.len() == 0 {
        Seq::empty()
    } else {
        match parsed_url(lines.last()) {
            Some(u) => parsed_lines(lines.drop_last()).push(u),
            None => parsed_lines(lines.drop_last()),
        }
    }
}

/// Build one fresh gallery per input line, in order, silently dropping the
/// lines that do not parse as URLs.
pub fn galleries_from_lines(lines: &Vec<String>) -> (r: Vec<Gallery>)
    ensures
        r@.map_values(|g: Gallery| g.url@) == parsed_lines(lines.deep_view()),
        forall|i: int|
            0 <= i < r@.len() ==> r@[i].title@ == Seq::<char>::empty() && r@[i].images@
                == Seq::<String>::empty(),
{
    let mut r: Vec<Gallery> = Vec::new();
    let mut k: usize = 0;
    proof {
        assert(lines.deep_view().take(0) =~= Seq::<Seq<char>>::empty());
        assert(r@.map_values(|g: Gallery| g.url@) =~= parsed_lines(lines.deep_view().take(0)));
    }
    while k < lines.len()
        invariant
            k <= lines.len(),
            r@.map_values(|g: Gallery| g.url@) == parsed_lines(lines.deep_view().take(k as int)),
            forall|i: int|
                0 <= i < r@.len() ==> r@[i].title@ == Seq::<char>::empty() && r@[i].images@
                    == Seq::<String>::empty(),
        decreases lines.len() - k,
    {
        proof {
            assert(lines.deep_view().take(k as int + 1).drop_last() =~= lines.deep_view().take(
                k as int,
            ));
            assert(lines.deep_view().take(k as int + 1).last() == lines@[k as int]@);
        }
        let ghost prev = r@;
        let line = &lines[k];
        match Gallery::new(line.clone()) {
            Ok(g) => {
                let ghost gv = g.url@;
                r.push(g);
                proof {
                    assert(r@.map_values(|g: Gallery| g.url@) =~= prev.map_values(
                        |g: Gallery| g.url@,
                    ).push(gv));
                }
            },
            Err(_) => {},
        }
        k = k + 1;
    }
    proof {
        assert(lines.deep_view().take(lines@.len() as int) =~= lines.deep_view());
    }
    r
}

/// Whether an HTTP status code reports success; the crawl requires this of
/// every listing-page fetch before the page is applied.
pub fn http_success(status: u16) -> (b: bool)
    ensures
        b == (200 <= status < 300),
{
    200 <= status && status < 300
}

} // verus!
