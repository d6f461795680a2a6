//! Scraping the paginated catalog: page-count discovery from the pager
//! widget, per-row extraction of position, title and link, and assembly of
//! the complete, strictly position-ordered catalog.

use vstd::prelude::*;
use crate::markup;
use crate::text::{dec_spec, format_u64, parse_u64, parse_u64_spec, trim, trim_spec};

verus! {

/// One row of the user's catalog: the user-assigned position (the sort key),
/// the trimmed title, and the absolute detail-page URL.
#[derive(Debug, PartialEq, Eq)]
pub struct CatalogEntry {
    pub position: u64,
    pub title: String,
    pub url: String,
}

/// Spec-level image of a `CatalogEntry`.
pub struct CatalogEntryV {
    pub position: u64,
    pub title: Seq<char>,
    pub url: Seq<char>,
}

impl View for CatalogEntry {
    type V = CatalogEntryV;

    open spec fn view(&self) -> CatalogEntryV {
        CatalogEntryV { position: self.position, title: self.title@, url: self.url@ }
    }
}

impl DeepView for CatalogEntry {
    type V = CatalogEntryV;

    open spec fn deep_view(&self) -> CatalogEntryV {
        self.view()
    }
}

impl Clone for CatalogEntry {
    fn clone(&self) -> (r: Self)
        ensures
            r == *self,
    {
        CatalogEntry {
            position: self.position,
            title: self.title.clone(),
            url: self.url.clone(),
        }
    }
}

/// A catalog item stripped of its sort key: what the detail pipeline and the
/// UI consume.
#[derive(Debug, PartialEq, Eq)]
pub struct BookInfo {
    pub title: String,
    pub url: String,
}

/// Spec-level image of a `BookInfo`.
pub struct BookInfoV {
    pub title: Seq<char>,
    pub url: Seq<char>,
}

impl View for BookInfo {
    type V = BookInfoV;

    open spec fn view(&self) -> BookInfoV {
        BookInfoV { title: self.title@, url: self.url@ }
    }
}

impl DeepView for BookInfo {
    type V = BookInfoV;

    open spec fn deep_view(&self) -> BookInfoV {
        self.view()
    }
}

impl Clone for BookInfo {
    fn clone(&self) -> (r: Self)
        ensures
            r == *self,
    {
        BookInfo { title: self.title.clone(), url: self.url.clone() }
    }
}

/// Why a whole scrape was abandoned.
#[derive(Clone, Copy, Debug, PartialEq, Eq, Structural)]
pub enum CatalogError {
    /// The pager widget's page-count label did not parse as a number.
    PageCountParse,
    /// The pager announced more pages than were fetched.
    PageUnavailable,
    /// Two rows claimed the same position; silently dropping one could hide
    /// data loss, so the scrape is refused.
    DuplicatePosition,
}

impl CatalogError {
    /// What `message` returns for each failure.
    pub open spec fn message_spec(self) -> Seq<char> {
        match self {
            CatalogError::PageCountParse => "failed to parse the page count"@,
            CatalogError::PageUnavailable => "a catalog page was not fetched"@,
            CatalogError::DuplicatePosition => "two catalog rows share a position"@,
        }
    }

    /// A short description, for the application shell to display.
    pub fn message(&self) -> (r: String)
        ensures
            r@ == self.message_spec(),
    {
        match self {
            CatalogError::PageCountParse => "failed to parse the page count".to_owned(),
            CatalogError::PageUnavailable => "a catalog page was not fetched".to_owned(),
            CatalogError::DuplicatePosition => "two catalog rows share a position".to_owned(),
        }
    }
}

/// Why one catalog row was skipped.
#[derive(Clone, Copy, Debug, PartialEq, Eq, Structural)]
pub enum RowError {
    MissingPosition,
    InvalidPosition,
    MissingTitle,
    MissingLink,
    UnresolvableLink,
}

// ---------------------------------------------------------------------------
// Site queries
// ---------------------------------------------------------------------------

/// Base URL that row links resolve against.
pub open spec fn base_url_spec() -> Seq<char> {
    "https://goodreads.com"@
}

/// The pager labels of a catalog page: the inner HTML of each link in the
/// page-navigation widget, or nothing when the widget is absent.
pub open spec fn pager_labels_of(page: Seq<char>) -> Option<Seq<Seq<char>>> {
    markup::widget_items_of(page, "#rightCol #reviewPagination"@, "a"@)
}

/// The raw fields of each catalog row of a page: position text, title text,
/// link target.
pub open spec fn catalog_rows_of(page: Seq<char>) -> Seq<
    (Option<Seq<char>>, Option<Seq<char>>, Option<Seq<char>>),
> {
    markup::row_fields_of(
        page,
        "#rightCol tr[class=\"bookalike review\"]"@,
        "td[class=\"field position\"] div"@,
        "td[class=\"field title\"] a"@,
        "href"@,
    )
}

/// The pager labels of a page, through the HTML-parsing capability.
pub fn pager_labels(page: &str) -> (r: Option<Vec<String>>)
    ensures
        r.deep_view() == pager_labels_of(page@),
{
    markup::widget_items(page, "#rightCol #reviewPagination", "a")
}

/// The raw row fields of a page, through the HTML-parsing capability.
pub fn catalog_rows(page: &str) -> (r: Vec<(Option<String>, Option<String>, Option<String>)>)
    ensures
        r.deep_view() == catalog_rows_of(page@),
{
    markup::row_fields(
        page,
        "#rightCol tr[class=\"bookalike review\"]",
        "td[class=\"field position\"] div",
        "td[class=\"field title\"] a",
        "href",
    )
}

/// The URL of one page of an account's reading-list shelf.
pub open spec fn bookshelf_url_spec(user_id: Seq<char>, page: nat) -> Seq<char> {
    "https://www.goodreads.com/review/list/"@ + user_id + "?shelf=to-read&page="@ + dec_spec(page)
}

/// Build the URL of one page of an account's reading-list shelf.
pub fn bookshelf_url(user_id: &str, page: u64) -> (r: String)
    ensures
        r@ == bookshelf_url_spec(user_id@, page as nat),
{
    let mut s = "https://www.goodreads.com/review/list/".to_owned();
    s.append(user_id);
    s.append("?shelf=to-read&page=");
    s.append(format_u64(page).as_str());
    s
}

// ---------------------------------------------------------------------------
// Page-count discovery
// ---------------------------------------------------------------------------

/// Page count read from the pager labels: one page when no pager widget is
/// present; otherwise the second-to-last label (the last is the "next"
/// control), trimmed and read as a number.
pub open spec fn page_count_from_labels_spec(labels: Option<Seq<Seq<char>>>) -> Result<
    u64,
    CatalogError,
> {
    match labels {
        None => Ok(1u64),
        Some(ls) => if ls.len() < 2 {
            Err(CatalogError::PageCountParse)
        } else {
            match parse_u64_spec(trim_spec(ls[ls.len() - 2])) {
                Some(v) => Ok(v),
                None => Err(CatalogError::PageCountParse),
            }
        },
    }
}

/// Page count of a fetched first page.
pub open spec fn page_count_spec(page: Seq<char>) -> Result<u64, CatalogError> {
    page_count_from_labels_spec(pager_labels_of(page))
}

/// Decide the page count from extracted pager labels.  `None` means the
/// widget was absent: a shelf with few items has no pager, so there is
/// exactly one page.
pub fn discover_page_count(labels: Option<Vec<String>>) -> (r: Result<u64, CatalogError>)
    ensures
        r == page_count_from_labels_spec(labels.deep_view()),
{
    match labels {
        None => Ok(1),
        Some(ls) => {
            if ls.len() < 2 {
                return Err(CatalogError::PageCountParse);
            }
            proof {
                assert(ls.deep_view()[ls.len() - 2] == ls[ls.len() - 2]@);
            }
            let label = trim(ls[ls.len() - 2].as_str());
            match parse_u64(label.as_str()) {
                Some(v) => Ok(v),
                None => Err(CatalogError::PageCountParse),
            }
        },
    }
}

/// Page count of a catalog page's markup.
pub fn page_count(page: &str) -> (r: Result<u64, CatalogError>)
    ensures
        r == page_count_spec(page@),
{
    discover_page_count(pager_labels(page))
}

// ---------------------------------------------------------------------------
// Row parsing
// ---------------------------------------------------------------------------

/// How one raw row is read: every field must be present, the trimmed
/// position text must be a number, and the link must resolve against the
/// base URL; the title is trimmed.
pub open spec fn parse_row_spec(
    row: (Option<Seq<char>>, Option<Seq<char>>, Option<Seq<char>>),
) -> Result<CatalogEntryV, RowError> {
    match row.0 {
        None => Err(RowError::MissingPosition),
        Some(pos_text) => match parse_u64_spec(trim_spec(pos_text)) {
            None => Err(RowError::InvalidPosition),
            Some(position) => match row.1 {
                None => Err(RowError::MissingTitle),
                Some(title_text) => match row.2 {
                    None => Err(RowError::MissingLink),
                    Some(link) => match markup::joined_url_of(base_url_spec(), link) {
                        None => Err(RowError::UnresolvableLink),
                        Some(url) => Ok(
                            CatalogEntryV { position, title: trim_spec(title_text), url },
                        ),
                    },
                },
            },
        },
    }
}

/// Spec-level image of a parsed-row result.
pub open spec fn row_result_view(r: Result<CatalogEntry, RowError>) -> Result<
    CatalogEntryV,
    RowError,
> {
    match r {
        Ok(e) => Ok(e.deep_view()),
        Err(x) => Err(x),
    }
}

/// Parse one raw row into a catalog entry.
pub fn parse_row(row: &(Option<String>, Option<String>, Option<String>)) -> (r: Result<
    CatalogEntry,
    RowError,
>)
    ensures
        row_result_view(r) == parse_row_spec(row.deep_view()),
{
    let pos_text = match &row.0 {
        None => {
            return Err(RowError::MissingPosition);
        },
        Some(t) => t,
    };
    let position = match parse_u64(trim(pos_text.as_str()).as_str()) {
        None => {
            return Err(RowError::InvalidPosition);
        },
        Some(v) => v,
    };
    let title_text = match &row.1 {
        None => {
            return Err(RowError::MissingTitle);
        },
        Some(t) => t,
    };
    let link = match &row.2 {
        None => {
            return Err(RowError::MissingLink);
        },
        Some(t) => t,
    };
    let url = match markup::join_url("https://goodreads.com", link.as_str()) {
        None => {
            return Err(RowError::UnresolvableLink);
        },
        Some(u) => u,
    };
    Ok(CatalogEntry { position, title: trim(title_text.as_str()), url })
}

/// The parsed rows of one page, valid and skipped alike.
pub open spec fn row_results_spec(page: Seq<char>) -> Seq<Result<CatalogEntryV, RowError>> {
    catalog_rows_of(page).map_values(|row| parse_row_spec(row))
}

/// Parse every catalog row of one page.  A bad row yields its error in
/// place; it does not abort the rest of the page.
pub fn scrape_page(page: &str) -> (r: Vec<Result<CatalogEntry, RowError>>)
    ensures
        r@.map_values(|x| row_result_view(x)) == row_results_spec(page@),
{
    let rows = catalog_rows(page);
    let mut out: Vec<Result<CatalogEntry, RowError>> = Vec::new();
    let ghost rows_dv = rows.deep_view();
    let mut i: usize = 0;
    while i < rows.len()
        invariant
            rows_dv == rows.deep_view(),
            rows_dv == catalog_rows_of(page@),
            0 <= i <= rows.len(),
            out@.len() == i,
            forall|j: int|
                0 <= j < i ==> row_result_view(out@[j]) == parse_row_spec(rows_dv[j]),
        decreases rows.len() - i,
    {
        proof {
            assert(rows.deep_view()[i as int] == rows@[i as int].deep_view());
        }
        let parsed = parse_row(&rows[i]);
        out.push(parsed);
        i = i + 1;
    }
    proof {
        assert(out@.map_values(|x| row_result_view(x)) =~= row_results_spec(page@));
    }
    out
}

// ---------------------------------------------------------------------------
// Collecting valid rows
// ---------------------------------------------------------------------------

/// Spec-level image of a vector of parsed-row results.
pub open spec fn row_results_view(rs: Seq<Result<CatalogEntry, RowError>>) -> Seq<
    Result<CatalogEntryV, RowError>,
> {
    rs.map_values(|x| row_result_view(x))
}

/// The valid entries among a page's parse results, in row order.
pub open spec fn valid_entries(results: Seq<Result<CatalogEntryV, RowError>>) -> Seq<CatalogEntryV>
    decreases results.len(),
{
    if results.len() == 0 {
        Seq::empty()
    } else {
        let init = valid_entries(results.drop_last());
        match results.last() {
            Ok(e) => init.push(e),
            Err(_) => init,
        }
    }
}

/// Keep the valid rows of one page's parse results, skipping failed rows.
pub fn collect_valid(results: &Vec<Result<CatalogEntry, RowError>>) -> (r: Vec<CatalogEntry>)
    ensures
        r.deep_view() == valid_entries(row_results_view(results@)),
{
    let mut out: Vec<CatalogEntry> = Vec::new();
    let mut i: usize = 0;
    while i < results.len()
        invariant
            0 <= i <= results.len(),
            out.deep_view() == valid_entries(row_results_view(results@.subrange(0, i as int))),
        decreases results.len() - i,
    {
        proof {
            let a = row_results_view(results@.subrange(0, i as int));
            let b = row_results_view(results@.subrange(0, i + 1));
            assert(b.drop_last() =~= a);
            assert(b.last() == row_result_view(results@[i as int]));
        }
        match &results[i] {
            Ok(e) => {
                let ghost pre = out.deep_view();
                out.push(e.clone());
                proof {
                    assert(out.deep_view() =~= pre.push(results@[i as int].unwrap().deep_view()));
                }
            },
            Err(_) => {},
        }
        i = i + 1;
    }
    proof {
        assert(results@.subrange(0, results@.len() as int) =~= results@);
    }
    out
}

/// All valid entries across the given pages, page order then row order.
pub open spec fn pages_valid_entries(pages: Seq<Seq<char>>) -> Seq<CatalogEntryV>
    decreases pages.len(),
{
    if pages.len() == 0 {
        Seq::empty()
    } else {
        pages_valid_entries(pages.drop_last()) + valid_entries(row_results_spec(pages.last()))
    }
}

// ---------------------------------------------------------------------------
// Ordering
// ---------------------------------------------------------------------------

/// Positions strictly ascend.
pub open spec fn sorted_strict(s: Seq<CatalogEntryV>) -> bool {
    forall|i: int, j: int| 0 <= i < j < s.len() ==> s[i].position < s[j].position
}

/// Two rows share a position.
pub open spec fn has_dup_position(s: Seq<CatalogEntryV>) -> bool {
    exists|i: int, j: int| 0 <= i < j < s.len() && s[i].position == s[j].position
}

/// Arrange the accumulated rows into strictly ascending position order.
/// Succeeds exactly when no two rows share a position; the output holds the
/// same rows, reordered.
pub fn order_catalog(items: Vec<CatalogEntry>) -> (r: Result<Vec<CatalogEntry>, CatalogError>)
    ensures
        r is Ok <==> !has_dup_position(items.deep_view()),
        r is Ok ==> r.unwrap().deep_view().to_multiset() == items.deep_view().to_multiset(),
        r is Ok ==> sorted_strict(r.unwrap().deep_view()),
        r is Err ==> r.unwrap_err() == CatalogError::DuplicatePosition,
{
    broadcast use vstd::seq_lib::group_to_multiset_ensures;

    let ghost idv = items.deep_view();
    let mut out: Vec<CatalogEntry> = Vec::new();
    let mut n: usize = 0;
    while n < items.len()
        invariant
            idv == items.deep_view(),
            0 <= n <= items.len(),
            sorted_strict(out.deep_view()),
            out.deep_view().to_multiset() == idv.subrange(0, n as int).to_multiset(),
            !has_dup_position(idv.subrange(0, n as int)),
        decreases items.len() - n,
    {
        let x = items[n].clone();
        let ghost xv = x.deep_view();
        proof {
            assert(xv == idv[n as int]);
        }
        let mut k: usize = 0;
        while k < out.len() && out[k].position < x.position
            invariant
                xv == x.deep_view(),
                0 <= k <= out.len(),
                forall|j: int| 0 <= j < k ==> out.deep_view()[j].position < xv.position,
            decreases out.len() - k,
        {
            proof {
                assert(out.deep_view()[k as int].position == out@[k as int].position);
            }
            k = k + 1;
        }
        let ghost odv = out.deep_view();
        let ghost prefix = idv.subrange(0, n as int);
        if k < out.len() && out[k].position == x.position {
            proof {
                let e = odv[k as int];
                assert(odv.contains(e));
                vstd::seq_lib::to_multiset_contains(odv, e);
                vstd::seq_lib::to_multiset_contains(prefix, e);
                assert(prefix.contains(e));
                let i = choose|i: int| 0 <= i < prefix.len() && prefix[i] == e;
                assert(idv[i] == e);
                assert(idv[i].position == idv[n as int].position);
                assert(has_dup_position(idv));
            }
            return Err(CatalogError::DuplicatePosition);
        }
        proof {
            // After the search, nothing in `out` carries x's position.
            assert forall|j: int| 0 <= j < odv.len() implies odv[j].position != xv.position by {
                if j >= k {
                    if k < odv.len() {
                        assert(odv[k as int].position > xv.position);
                        if j > k {
                            assert(odv[k as int].position < odv[j].position);
                        }
                    }
                }
            };
            // So the next prefix still has no duplicate position.
            let pre1 = idv.subrange(0, n + 1);
            assert forall|i: int, j: int|
                0 <= i < j < pre1.len() implies pre1[i].position != pre1[j].position by {
                if j < n {
                    assert(!(0 <= i < j < prefix.len() && prefix[i].position == prefix[j].position));
                } else {
                    if pre1[i].position == xv.position {
                        assert(prefix.contains(idv[i]));
                        vstd::seq_lib::to_multiset_contains(prefix, idv[i]);
                        vstd::seq_lib::to_multiset_contains(odv, idv[i]);
                        assert(odv.contains(idv[i]));
                        let k2 = choose|k2: int| 0 <= k2 < odv.len() && odv[k2] == idv[i];
                        assert(odv[k2].position != xv.position);
                        assert(false);
                    }
                }
            };
            assert(!has_dup_position(pre1));
        }
        out.insert(k, x);
        proof {
            let odv2 = out.deep_view();
            odv.insert_ensures(k as int, xv);
            assert(odv2 =~= odv.insert(k as int, xv));
            // Multiset: inserting x adds exactly one occurrence of x.
            vstd::seq_lib::to_multiset_insert(odv, k as int, xv);
            let pre1 = idv.subrange(0, n + 1);
            assert(pre1 =~= idv.subrange(0, n as int).push(xv));
            vstd::seq_lib::to_multiset_build(idv.subrange(0, n as int), xv);
            // Sortedness is preserved by inserting at the found index.
            assert forall|i: int, j: int|
                0 <= i < j < odv2.len() implies odv2[i].position < odv2[j].position by {
                odv.insert_ensures(k as int, xv);
                if i < k && j > k {
                    assert(odv2[i] == odv[i]);
                    assert(odv2[j] == odv[j - 1]);
                } else if i == k && j > k {
                    assert(odv2[j] == odv[j - 1]);
                    assert(odv[j - 1].position != xv.position);
                    if j - 1 > k {
                        assert(odv[k as int].position < odv[j - 1].position);
                    }
                } else if i < k && j == k {
                    assert(odv2[i] == odv[i]);
                }
            };
            assert(sorted_strict(odv2));
        }
        n = n + 1;
    }
    proof {
        assert(idv.subrange(0, items@.len() as int) =~= idv);
    }
    Ok(out)
}

// ---------------------------------------------------------------------------
// The whole scrape
// ---------------------------------------------------------------------------

/// Spec-level image of a whole-scrape result.
pub open spec fn catalog_result_view(r: Result<Vec<CatalogEntry>, CatalogError>) -> Result<
    Seq<CatalogEntryV>,
    CatalogError,
> {
    match r {
        Ok(v) => Ok(v.deep_view()),
        Err(e) => Err(e),
    }
}

/// Everything `scrape_pages` promises of its result, given the fetched
/// pages.  The first page fixes the page count; the announced pages must all
/// have been fetched; the valid rows of those pages come back complete and
/// strictly ordered by position, or the scrape fails on a duplicate.
pub open spec fn scrape_outcome_spec(
    pages: Seq<Seq<char>>,
    r: Result<Seq<CatalogEntryV>, CatalogError>,
) -> bool {
    match page_count_spec(pages[0]) {
        Err(e) => r == Err::<Seq<CatalogEntryV>, CatalogError>(e),
        Ok(count) => if count > pages.len() {
            r == Err::<Seq<CatalogEntryV>, CatalogError>(CatalogError::PageUnavailable)
        } else {
            let rows = pages_valid_entries(pages.subrange(0, count as int));
            match r {
                Ok(out) => !has_dup_position(rows) && out.to_multiset() == rows.to_multiset()
                    && sorted_strict(out),
                Err(e) => has_dup_position(rows) && e == CatalogError::DuplicatePosition,
            }
        },
    }
}

/// Scrape a complete catalog out of its fetched pages.  `pages[0]` must be
/// the first catalog page; it announces the page count, and pages beyond the
/// announced count are ignored.  Valid rows accumulate across pages; bad
/// rows are skipped; a failed page count, a missing page or a duplicated
/// position abandons the scrape.
pub fn scrape_pages(pages: &Vec<String>) -> (r: Result<Vec<CatalogEntry>, CatalogError>)
    requires
        pages.len() >= 1,
    ensures
        scrape_outcome_spec(pages.deep_view(), catalog_result_view(r)),
{
    let ghost pv = pages.deep_view();
    proof {
        assert(pv[0] == pages@[0]@);
    }
    let count = match page_count(pages[0].as_str()) {
        Ok(c) => c,
        Err(e) => {
            return Err(e);
        },
    };
    if count > pages.len() as u64 {
        return Err(CatalogError::PageUnavailable);
    }
    let cnt = count as usize;
    let mut all: Vec<CatalogEntry> = Vec::new();
    let mut i: usize = 0;
    while i < cnt
        invariant
            pv == pages.deep_view(),
            cnt <= pages.len(),
            0 <= i <= cnt,
            all.deep_view() == pages_valid_entries(pv.subrange(0, i as int)),
        decreases cnt - i,
    {
        proof {
            assert(pv[i as int] == pages@[i as int]@);
        }
        let results = scrape_page(pages[i].as_str());
        let mut page_entries = collect_valid(&results);
        let ghost pre = all.deep_view();
        all.append(&mut page_entries);
        proof {
            let sub1 = pv.subrange(0, i + 1);
            assert(sub1.drop_last() =~= pv.subrange(0, i as int));
            assert(sub1.last() == pv[i as int]);
            assert(all.deep_view() =~= pre + valid_entries(row_results_spec(pv[i as int])));
        }
        i = i + 1;
    }
    proof {
        assert(pv.subrange(0, cnt as int) == pv.subrange(0, count as int));
    }
    order_catalog(all)
}

/// Drop the sort keys from an ordered catalog: the items as the detail
/// pipeline and the UI consume them, order kept.
pub fn book_list(entries: &Vec<CatalogEntry>) -> (r: Vec<BookInfo>)
    ensures
        r@.len() == entries@.len(),
        forall|i: int|
            0 <= i < entries@.len() ==> #[trigger] r@[i]@ == (BookInfoV {
                title: entries@[i]@.title,
                url: entries@[i]@.url,
            }),
{
    let mut out: Vec<BookInfo> = Vec::new();
    let mut i: usize = 0;
    while i < entries.len()
        invariant
            0 <= i <= entries@.len(),
            out@.len() == i,
            forall|j: int|
                0 <= j < i ==> #[trigger] out@[j]@ == (BookInfoV {
                    title: entries@[j]@.title,
                    url: entries@[j]@.url,
                }),
        decreases entries@.len() - i,
    {
        out.push(
            BookInfo { title: entries[i].title.clone(), url: entries[i].url.clone() },
        );
        i = i + 1;
    }
    out
}

// ---------------------------------------------------------------------------
// Laws
// ---------------------------------------------------------------------------

/// Law: an ordered catalog keeps every valid row exactly once — it is as
/// long as the valid rows it was built from — and each entry's position is
/// strictly below the next one's.
pub proof fn lemma_catalog_shape(rows: Seq<CatalogEntryV>, out: Seq<CatalogEntryV>)
    requires
        out.to_multiset() == rows.to_multiset(),
        sorted_strict(out),
    ensures
        out.len() == rows.len(),
        forall|i: int| 0 <= i < out.len() - 1 ==> #[trigger] out[i].position < out[i + 1].position,
{
    vstd::seq_lib::to_multiset_len(rows);
    vstd::seq_lib::to_multiset_len(out);
}

/// Law: a strictly position-ordered arrangement of given rows is unique.
/// Two successful orderings of the same row multiset are identical, element
/// for element.
pub proof fn lemma_order_unique(a: Seq<CatalogEntryV>, b: Seq<CatalogEntryV>)
    requires
        a.to_multiset() == b.to_multiset(),
        sorted_strict(a),
        sorted_strict(b),
    ensures
        a == b,
    decreases a.len(),
{
    vstd::seq_lib::to_multiset_len(a);
    vstd::seq_lib::to_multiset_len(b);
    if a.len() == 0 {
        assert(a =~= b);
    } else {
        let x = a.last();
        let y = b.last();
        assert(a.contains(x));
        assert(b.contains(y));
        vstd::seq_lib::to_multiset_contains(a, x);
        vstd::seq_lib::to_multiset_contains(a, y);
        vstd::seq_lib::to_multiset_contains(b, x);
        vstd::seq_lib::to_multiset_contains(b, y);
        if x != y {
            assert(a.contains(y));
            let i = choose|i: int| 0 <= i < a.len() && a[i] == y;
            assert(i < a.len() - 1);
            assert(y.position < x.position);
            assert(b.contains(x));
            let j = choose|j: int| 0 <= j < b.len() && b[j] == x;
            assert(j < b.len() - 1);
            assert(x.position < y.position);
            assert(false);
        }
        assert(a =~= a.drop_last().push(x));
        assert(b =~= b.drop_last().push(x));
        vstd::seq_lib::to_multiset_build(a.drop_last(), x);
        vstd::seq_lib::to_multiset_build(b.drop_last(), x);
        assert(a.drop_last().to_multiset() =~= a.to_multiset().remove(x)) by {
            broadcast use vstd::multiset::group_multiset_axioms;

            assert(a.drop_last().push(x).to_multiset() =~= a.drop_last().to_multiset().insert(x));
        };
        assert(b.drop_last().to_multiset() =~= b.to_multiset().remove(x)) by {
            broadcast use vstd::multiset::group_multiset_axioms;

            assert(b.drop_last().push(x).to_multiset() =~= b.drop_last().to_multiset().insert(x));
        };
        assert(sorted_strict(a.drop_last()));
        assert(sorted_strict(b.drop_last()));
        lemma_order_unique(a.drop_last(), b.drop_last());
        assert(a =~= b);
    }
}

/// Law: the scrape is a function of the fetched markup alone.  Running it
/// twice over identical pages gives identical outcomes — same entries, same
/// order, or the same error.
pub proof fn lemma_scrape_idempotent(
    pages: Seq<Seq<char>>,
    r1: Result<Seq<CatalogEntryV>, CatalogError>,
    r2: Result<Seq<CatalogEntryV>, CatalogError>,
)
    requires
        pages.len() >= 1,
        scrape_outcome_spec(pages, r1),
        scrape_outcome_spec(pages, r2),
    ensures
        r1 == r2,
{
    match page_count_spec(pages[0]) {
        Err(_) => {},
        Ok(count) => {
            if count <= pages.len() {
                let rows = pages_valid_entries(pages.subrange(0, count as int));
                match (r1, r2) {
                    (Ok(o1), Ok(o2)) => {
                        lemma_order_unique(o1, o2);
                    },
                    _ => {},
                }
            }
        },
    }
}

} // verus!
