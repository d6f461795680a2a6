use godric::catalog::{
    bookshelf_url, discover_page_count, order_catalog, page_count, parse_row, scrape_page,
    scrape_pages, CatalogEntry, CatalogError, RowError,
};

fn row(position: &str, title: &str, href: &str) -> String {
    format!(
        "<tr class=\"bookalike review\">\
         <td class=\"field position\"><div>{position}</div></td>\
         <td class=\"field title\"><a href=\"{href}\">{title}</a></td>\
         </tr>"
    )
}

fn shelf_page(pager_labels: &[&str], rows: &str) -> String {
    let pager = if pager_labels.is_empty() {
        String::new()
    } else {
        let links: String = pager_labels
            .iter()
            .map(|l| format!("<a href=\"#\">{l}</a>"))
            .collect();
        format!("<div id=\"reviewPagination\">{links}</div>")
    };
    format!(
        "<html><body><div id=\"rightCol\">{pager}<table>{rows}</table></div></body></html>"
    )
}

#[test]
fn page_count_is_one_without_pager() {
    let page = shelf_page(&[], &row("1", "Only", "/book/show/1-only"));
    assert_eq!(page_count(&page), Ok(1));
}

#[test]
fn page_count_reads_second_to_last_label() {
    let page = shelf_page(
        &["\u{ab} previous", "1", "2", "3", "7", "next \u{bb}"],
        "",
    );
    assert_eq!(page_count(&page), Ok(7));
}

#[test]
fn page_count_trims_the_label() {
    let page = shelf_page(&["1", " 4 ", "next"], "");
    assert_eq!(page_count(&page), Ok(4));
}

#[test]
fn page_count_fails_on_non_numeric_label() {
    let page = shelf_page(&["1", "2", "many", "next"], "");
    assert_eq!(page_count(&page), Err(CatalogError::PageCountParse));
}

#[test]
fn discover_page_count_on_plain_labels() {
    assert_eq!(discover_page_count(None), Ok(1));
    let labels = vec!["1".to_string(), "2".to_string(), "9".to_string(), "next".to_string()];
    assert_eq!(discover_page_count(Some(labels)), Ok(9));
    assert_eq!(
        discover_page_count(Some(vec!["next".to_string()])),
        Err(CatalogError::PageCountParse)
    );
}

#[test]
fn scrape_page_extracts_rows_in_document_order() {
    let rows = [
        row("3", " Gamma ", "/book/show/3-gamma"),
        row("1", "Alpha", "/book/show/1-alpha"),
    ]
    .concat();
    let page = shelf_page(&[], &rows);
    let parsed = scrape_page(&page);
    assert_eq!(parsed.len(), 2);
    let first = parsed[0].as_ref().unwrap();
    assert_eq!(first.position, 3);
    assert_eq!(first.title, "Gamma");
    assert_eq!(first.url, "https://goodreads.com/book/show/3-gamma");
    let second = parsed[1].as_ref().unwrap();
    assert_eq!(second.position, 1);
    assert_eq!(second.title, "Alpha");
}

#[test]
fn scrape_page_reports_each_row_error() {
    let rows = [
        "<tr class=\"bookalike review\">\
         <td class=\"field title\"><a href=\"/b\">No position</a></td></tr>"
            .to_string(),
        row("one", "Bad position", "/b"),
        "<tr class=\"bookalike review\">\
         <td class=\"field position\"><div>2</div></td></tr>"
            .to_string(),
        "<tr class=\"bookalike review\">\
         <td class=\"field position\"><div>3</div></td>\
         <td class=\"field title\"><a>No link</a></td></tr>"
            .to_string(),
        row("4", "Bad link", "http://["),
        row("5", "Fine", "/book/show/5-fine"),
    ]
    .concat();
    let page = shelf_page(&[], &rows);
    let parsed = scrape_page(&page);
    assert_eq!(parsed.len(), 6);
    assert_eq!(parsed[0], Err(RowError::MissingPosition));
    assert_eq!(parsed[1], Err(RowError::InvalidPosition));
    assert_eq!(parsed[2], Err(RowError::MissingTitle));
    assert_eq!(parsed[3], Err(RowError::MissingLink));
    assert_eq!(parsed[4], Err(RowError::UnresolvableLink));
    assert!(parsed[5].is_ok());
}

#[test]
fn scrape_orders_two_pages_by_position() {
    let page1 = shelf_page(
        &["\u{ab} previous", "1", "2", "next \u{bb}"],
        &[
            row("3", "Third", "/book/show/3"),
            row("1", "First", "/book/show/1"),
            row("2", "Second", "/book/show/2"),
        ]
        .concat(),
    );
    let page2 = shelf_page(&[], &row("4", "Fourth", "/book/show/4"));
    let pages = vec![page1, page2];
    let entries = scrape_pages(&pages).unwrap();
    let titles: Vec<&str> = entries.iter().map(|e| e.title.as_str()).collect();
    assert_eq!(titles, vec!["First", "Second", "Third", "Fourth"]);
    let positions: Vec<u64> = entries.iter().map(|e| e.position).collect();
    assert_eq!(positions, vec![1, 2, 3, 4]);
}

#[test]
fn scrape_output_length_counts_valid_rows_only() {
    let page1 = shelf_page(
        &["1", "2", "next"],
        &[row("2", "Two", "/b2"), row("oops", "Broken", "/bx")].concat(),
    );
    let page2 = shelf_page(&[], &row("1", "One", "/b1"));
    let pages = vec![page1, page2];
    let entries = scrape_pages(&pages).unwrap();
    assert_eq!(entries.len(), 2);
    assert_eq!(entries[0].title, "One");
    assert_eq!(entries[1].title, "Two");
}

#[test]
fn scrape_twice_is_idempotent() {
    let page1 = shelf_page(
        &["1", "2", "next"],
        &[row("2", "Beta", "/b"), row("1", "Alpha", "/a")].concat(),
    );
    let page2 = shelf_page(&[], &row("3", "Gamma", "/c"));
    let pages = vec![page1, page2];
    let first = scrape_pages(&pages).unwrap();
    let second = scrape_pages(&pages).unwrap();
    assert_eq!(first.len(), second.len());
    for (a, b) in first.iter().zip(second.iter()) {
        assert_eq!(a.position, b.position);
        assert_eq!(a.title, b.title);
        assert_eq!(a.url, b.url);
    }
}

#[test]
fn failed_page_count_yields_no_entries() {
    let page = shelf_page(&["1", "many", "next"], &row("1", "Lost", "/b"));
    let pages = vec![page];
    assert_eq!(scrape_pages(&pages), Err(CatalogError::PageCountParse));
}

#[test]
fn missing_page_aborts_the_scrape() {
    let page = shelf_page(&["1", "2", "next"], &row("1", "One", "/b"));
    let pages = vec![page];
    assert_eq!(scrape_pages(&pages), Err(CatalogError::PageUnavailable));
}

#[test]
fn duplicate_positions_abort_the_scrape() {
    let page = shelf_page(
        &[],
        &[row("1", "One", "/b1"), row("1", "Again", "/b2")].concat(),
    );
    let pages = vec![page];
    assert_eq!(scrape_pages(&pages), Err(CatalogError::DuplicatePosition));
}

#[test]
fn order_catalog_sorts_and_flags_duplicates() {
    let entry = |position: u64, title: &str| CatalogEntry {
        position,
        title: title.to_string(),
        url: format!("https://goodreads.com/book/show/{position}"),
    };
    let ordered = order_catalog(vec![entry(5, "e"), entry(2, "b"), entry(9, "i")]).unwrap();
    let positions: Vec<u64> = ordered.iter().map(|e| e.position).collect();
    assert_eq!(positions, vec![2, 5, 9]);
    assert_eq!(
        order_catalog(vec![entry(5, "e"), entry(5, "again")]),
        Err(CatalogError::DuplicatePosition)
    );
}

#[test]
fn parse_row_resolves_links_against_the_base() {
    let raw = (
        Some(" 12 ".to_string()),
        Some(" A Title ".to_string()),
        Some("/book/show/12-a-title".to_string()),
    );
    let entry = parse_row(&raw).unwrap();
    assert_eq!(entry.position, 12);
    assert_eq!(entry.title, "A Title");
    assert_eq!(entry.url, "https://goodreads.com/book/show/12-a-title");

    let absolute = (
        Some("1".to_string()),
        Some("T".to_string()),
        Some("https://elsewhere.example/x".to_string()),
    );
    assert_eq!(parse_row(&absolute).unwrap().url, "https://elsewhere.example/x");
}

#[test]
fn bookshelf_url_carries_user_and_page() {
    assert_eq!(
        bookshelf_url("176878294", 2),
        "https://www.goodreads.com/review/list/176878294?shelf=to-read&page=2"
    );
}

#[test]
fn catalog_error_messages_name_the_failure() {
    assert_eq!(
        CatalogError::PageCountParse.message(),
        "failed to parse the page count"
    );
    assert_eq!(
        CatalogError::PageUnavailable.message(),
        "a catalog page was not fetched"
    );
    assert_eq!(
        CatalogError::DuplicatePosition.message(),
        "two catalog rows share a position"
    );
}
