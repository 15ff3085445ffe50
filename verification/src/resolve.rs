use vstd::prelude::*;
use crate::dom::{first_match_attr, select_first_attr};

verus! {

/// The preview-image source a fetched item page carries, if any.
pub open spec fn page_preview(page: Seq<char>) -> Option<Seq<char>> {
    first_match_attr(page, "div#i3 a img"@, "src"@)
}

/// The original-resolution link a fetched item page carries, if any.
pub open spec fn page_origin(page: Seq<char>) -> Option<Seq<char>> {
    first_match_attr(page, "div#i6 div:last-child a"@, "href"@)
}

/// What resolving one fetched item page yields.
pub enum Resolution {
    /// The asset URL is final; no further request is needed before the
    /// download step.
    Direct { url: String },
    /// Original mode found an original-resolution link: probe it with
    /// redirects suppressed and resolve the response through
    /// `finish_probe`.
    Probe { origin: String },
    /// The page offers no asset; the item fails with nothing downloaded.
    NoAsset,
}

/// Spec-level mirror of `Resolution`.
pub enum ResolutionModel {
    Direct { url: Seq<char> },
    Probe { origin: Seq<char> },
    NoAsset,
}

impl Resolution {
    pub open spec fn model(&self) -> ResolutionModel {
        match self {
            Resolution::Direct { url } => ResolutionModel::Direct { url: url@ },
            Resolution::Probe { origin } => ResolutionModel::Probe { origin: origin@ },
            Resolution::NoAsset => ResolutionModel::NoAsset,
        }
    }
}

/// The preview source of the page, or no asset when it carries none.
pub open spec fn preview_resolution(page: Seq<char>) -> ResolutionModel {
    match page_preview(page) {
        Some(s) => ResolutionModel::Direct { url: s },
        None => ResolutionModel::NoAsset,
    }
}

/// What an item page resolves to: in original mode an offered
/// original-resolution link wins and is probed; otherwise — in preview
/// mode, or when original mode finds no such link — the preview source;
/// failing both, no asset.
pub open spec fn resolve_model(page: Seq<char>, original: bool) -> ResolutionModel {
    if original {
        match page_origin(page) {
            Some(h) => ResolutionModel::Probe { origin: h },
            None => preview_resolution(page),
        }
    } else {
        preview_resolution(page)
    }
}

/// Resolve one fetched item page: preview mode reads the preview-image
/// source with no further request; original mode prefers the
/// original-resolution link and otherwise falls back to the preview
/// source.  Failure of both paths is not an error of the page fetch but
/// `NoAsset`.
pub fn resolve_from_page(page: &str, original: bool) -> (r: Resolution)
    ensures
        r.model() == resolve_model(page@, original),
{
    if original {
        match select_first_attr(page, "div#i6 div:last-child a", "href") {
            Some(h) => {
                return Resolution::Probe { origin: h };
            },
            None => {},
        }
    }
    match select_first_attr(page, "div#i3 a img", "src") {
        Some(s) => Resolution::Direct { url: s },
        None => Resolution::NoAsset,
    }
}

/// Whether an HTTP status code is a redirection.
pub open spec fn is_redirect(status: u16) -> bool {
    300 <= status < 400
}

/// The final URL after the original-mode probe: a redirection status with
/// a Location header resolves to that header's value; any other response
/// leaves the probed link itself as the asset URL.
pub open spec fn probe_url(status: u16, location: Option<Seq<char>>, origin: Seq<char>) -> Seq<
    char,
> {
    if is_redirect(status) {
        match location {
            Some(l) => l,
            None => origin,
        }
    } else {
        origin
    }
}

/// Resolve the probe response for an original-resolution link `origin`.
/// `location` is the response's Location header, where present and
/// readable as text.
pub fn finish_probe(status: u16, location: Option<String>, origin: String) -> (r: String)
    ensures
        r@ == probe_url(status, location.deep_view(), origin@),
{
    if 300 <= status && status < 400 {
        match location {
            Some(l) => l,
            None => origin,
        }
    } else {
        origin
    }
}

/// Original-mode fallback: an item page without an original-resolution
/// link resolves exactly as preview mode does — no probe, hence no request
/// beyond the page fetch itself — and resolves successfully whenever the
/// page carries a preview source.
pub proof fn lemma_original_mode_fallback(page: Seq<char>)
    requires
        (page_origin(page) is None),
    ensures
        resolve_model(page, true) == resolve_model(page, false),
        !(resolve_model(page, true) matches ResolutionModel::Probe { .. }),
        page_preview(page) matches Some(s) ==> resolve_model(page, true) == (
        ResolutionModel::Direct { url: s }),
{
}

} // verus!
