//! The trusted boundary to the HTML-parsing and URL-resolution crates.
//!
//! Each function here hands a plain string to an outside crate and returns
//! plain values.  What comes back is far too involved to state directly (it
//! is the outcome of full HTML parsing or of URL resolution), but it depends
//! on the arguments alone, so each result is given an uninterpreted name that
//! the verified callers' contracts are written against.  A selector string
//! that does not parse as CSS yields the empty outcome rather than an error:
//! selectors are configuration handed in by the caller.

use scraper::Selector;
use vstd::prelude::*;

verus! {

/// Inner HTML of the first element of `page` matching `sel`.
pub uninterp spec fn first_inner_html_of(page: Seq<char>, sel: Seq<char>) -> Option<Seq<char>>;

/// Value of attribute `attr` on the first element of `page` matching `sel`.
pub uninterp spec fn first_attr_of(page: Seq<char>, sel: Seq<char>, attr: Seq<char>) -> Option<
    Seq<char>,
>;

/// Inner HTML of every `item_sel` descendant of the first `widget_sel`
/// element, in document order; nothing when no widget matches.
pub uninterp spec fn widget_items_of(
    page: Seq<char>,
    widget_sel: Seq<char>,
    item_sel: Seq<char>,
) -> Option<Seq<Seq<char>>>;

/// For every `row_sel` element of `page`, in document order: the inner HTML
/// of its first `value_sel` descendant, the first text node of its first
/// `link_sel` descendant, and attribute `attr` of that same descendant.
pub uninterp spec fn row_fields_of(
    page: Seq<char>,
    row_sel: Seq<char>,
    value_sel: Seq<char>,
    link_sel: Seq<char>,
    attr: Seq<char>,
) -> Seq<(Option<Seq<char>>, Option<Seq<char>>, Option<Seq<char>>)>;

/// The absolute URL that `link` denotes relative to `base`.
pub uninterp spec fn joined_url_of(base: Seq<char>, link: Seq<char>) -> Option<Seq<char>>;

/// Relies on scraper's `Html::parse_document`, `Html::select` and
/// `ElementRef::inner_html`: first match of the selector, if any.
#[verifier::external_body]
pub(crate) fn first_inner_html(page: &str, sel: &str) -> (r: Option<String>)
    ensures
        r.deep_view() == first_inner_html_of(page@, sel@),
{
    let sel = scraper::Selector::parse(sel).ok()?;
    let doc = scraper::Html::parse_document(page);
    let found = doc.select(&sel).next()?;
    Some(found.inner_html())
}

/// Relies on scraper's `Html::parse_document`, `Html::select` and
/// `ElementRef::attr`: the attribute of the selector's first match.
#[verifier::external_body]
pub(crate) fn first_attr(page: &str, sel: &str, attr: &str) -> (r: Option<String>)
    ensures
        r.deep_view() == first_attr_of(page@, sel@, attr@),
{
    let sel = scraper::Selector::parse(sel).ok()?;
    let doc = scraper::Html::parse_document(page);
    let found = doc.select(&sel).next()?;
    Some(found.attr(attr)?.to_string())
}

/// Relies on scraper's `Html::parse_document`, selection and
/// `ElementRef::inner_html`: the widget's items, or nothing if no widget.
#[verifier::external_body]
pub(crate) fn widget_items(page: &str, widget_sel: &str, item_sel: &str) -> (r: Option<
    Vec<String>,
>)
    ensures
        r.deep_view() == widget_items_of(page@, widget_sel@, item_sel@),
{
    let wsel = scraper::Selector::parse(widget_sel).ok()?;
    let isel = scraper::Selector::parse(item_sel).ok()?;
    let doc = scraper::Html::parse_document(page);
    let widget = doc.select(&wsel).next()?;
    Some(widget.select(&isel).map(|e| e.inner_html()).collect())
}

/// Relies on scraper's `Html::parse_document`, selection,
/// `ElementRef::inner_html`, `ElementRef::text` and `ElementRef::attr`: the
/// three row fields described at `row_fields_of`.
#[verifier::external_body]
pub(crate) fn row_fields(page: &str, row_sel: &str, value_sel: &str, link_sel: &str, attr: &str) -> (r:
    Vec<(Option<String>, Option<String>, Option<String>)>)
    ensures
        r.deep_view() == row_fields_of(page@, row_sel@, value_sel@, link_sel@, attr@),
{
    let (rsel, vsel, lsel) = match (
        Selector::parse(row_sel),
        Selector::parse(value_sel),
        Selector::parse(link_sel),
    ) {
        (Ok(r), Ok(v), Ok(l)) => (r, v, l),
        _ => return Vec::new(),
    };
    scraper::Html::parse_document(page).select(&rsel).map(|row| (
        row.select(&vsel).next().map(|e| e.inner_html()),
        row.select(&lsel).next().and_then(|e| e.text().next()).map(|t| t.to_string()),
        row.select(&lsel).next().and_then(|e| e.attr(attr)).map(|v| v.to_string()),
    )).collect()
}

/// Relies on `url::Url::parse` and `Url::join`: the resolved URL, or nothing
/// when either the base or the link does not parse.
#[verifier::external_body]
pub(crate) fn join_url(base: &str, link: &str) -> (r: Option<String>)
    ensures
        r.deep_view() == joined_url_of(base@, link@),
{
    let base = url::Url::parse(base).ok()?;
    let joined = base.join(link).ok()?;
    Some(joined.as_str().to_string())
}

} // verus!
