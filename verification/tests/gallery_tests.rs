use gallery_fetch::gallery::{galleries_from_lines, http_success, Gallery, GalleryError};

fn listing_page_one() -> String {
    let mut s = String::new();
    s.push_str("<html><body><h1 id=\"gn\">Test Gallery</h1>");
    s.push_str("<div id=\"gdt\">");
    s.push_str("<a href=\"https://example.com/item/1\">one</a>");
    s.push_str("<a href=\"https://example.com/item/2\">two</a>");
    s.push_str("</div>");
    s.push_str("<table class=\"ptt\"><tbody><tr><td>1</td>");
    s.push_str("<td><a href=\"https://example.com/list?p=2\">&gt;</a></td>");
    s.push_str("</tr></tbody></table>");
    s.push_str("</body></html>");
    s
}

fn listing_page_last() -> String {
    let mut s = String::new();
    s.push_str("<html><body><h1 id=\"gn\">Test Gallery</h1>");
    s.push_str("<div id=\"gdt\">");
    s.push_str("<a href=\"https://example.com/item/3\">three</a>");
    s.push_str("</div>");
    s.push_str("<table class=\"ptt\"><tbody><tr><td>1</td><td>&gt;</td></tr></tbody></table>");
    s.push_str("</body></html>");
    s
}

#[test]
fn test_new_gallery() {
    let url = "https://example.com/gallery".to_string();
    let gallery = Gallery::new(url).unwrap();
    assert_eq!(gallery.url.as_str(), "https://example.com/gallery");
}

#[test]
fn new_gallery_normalizes_url() {
    let gallery = Gallery::new("https://EXAMPLE.com/gallery".to_string()).unwrap();
    assert_eq!(gallery.url, "https://example.com/gallery");
}

#[test]
fn new_gallery_rejects_malformed_url() {
    let r = Gallery::new("not a url".to_string());
    assert_eq!(r.unwrap_err(), GalleryError::InvalidUrl);
}

#[test]
fn info_page_resolves_title() {
    let mut g = Gallery::new("https://example.com/gallery".to_string()).unwrap();
    assert!(g.apply_info_page(&listing_page_one()).is_ok());
    assert_eq!(g.title, "Test Gallery");
}

#[test]
fn info_page_without_title_fails() {
    let mut g = Gallery::new("https://example.com/gallery".to_string()).unwrap();
    let r = g.apply_info_page("<html><body><p>nothing here</p></body></html>");
    assert_eq!(r.unwrap_err(), GalleryError::TitleNotFound);
    assert_eq!(g.title, "");
}

#[test]
fn crawl_discovers_items_in_page_order_and_terminates() {
    let mut g = Gallery::new("https://example.com/gallery".to_string()).unwrap();
    let next = g.apply_listing_page(&listing_page_one());
    assert_eq!(next.as_deref(), Some("https://example.com/list?p=2"));
    let next = g.apply_listing_page(&listing_page_last());
    assert!(next.is_none());
    assert_eq!(
        g.images,
        vec![
            "https://example.com/item/1".to_string(),
            "https://example.com/item/2".to_string(),
            "https://example.com/item/3".to_string(),
        ]
    );
}

#[test]
fn malformed_item_link_is_skipped() {
    let mut g = Gallery::new("https://example.com/gallery".to_string()).unwrap();
    let page = "<div id=\"gdt\">\
        <a href=\"https://example.com/item/1\">ok</a>\
        <a href=\"not a url\">bad</a>\
        <a>no href</a>\
        <a href=\"https://example.com/item/2\">ok</a>\
        </div>";
    let next = g.apply_listing_page(page);
    assert!(next.is_none());
    assert_eq!(
        g.images,
        vec![
            "https://example.com/item/1".to_string(),
            "https://example.com/item/2".to_string(),
        ]
    );
}

#[test]
fn input_lines_that_do_not_parse_are_dropped() {
    let lines = vec![
        "https://example.com/a".to_string(),
        "not a url".to_string(),
        "".to_string(),
        "https://example.com/b".to_string(),
    ];
    let gs = galleries_from_lines(&lines);
    assert_eq!(gs.len(), 2);
    assert_eq!(gs[0].url, "https://example.com/a");
    assert_eq!(gs[1].url, "https://example.com/b");
    assert_eq!(gs[0].title, "");
    assert!(gs[0].images.is_empty());
}

#[test]
fn http_success_is_the_2xx_range() {
    assert!(http_success(200));
    assert!(http_success(299));
    assert!(!http_success(300));
    assert!(!http_success(404));
    assert!(!http_success(199));
}
