use godric::book::{assemble_book, parse_detail_page, Book, DetailError};
use godric::catalog::BookInfo;
use godric::pipeline::{run_scripted, FetchSlot, Pipeline, SETTLE_DELAY_MS};

fn detail_page(title: &str, author: &str, blurb: &str, cover_src: &str) -> String {
    format!(
        "<html><body>\
         <h1 class=\"Text Text__title1\">{title}</h1>\
         <span class=\"ContributorLink__name\">{author}</span>\
         <span class=\"Formatted\">{blurb}</span>\
         <img class=\"ResponsiveImage\" src=\"{cover_src}\">\
         </body></html>"
    )
}

fn info(title: &str) -> BookInfo {
    BookInfo {
        title: title.to_string(),
        url: format!("https://goodreads.com/book/show/{title}"),
    }
}

fn record(title: &str) -> Book {
    Book {
        url: format!("https://goodreads.com/book/show/{title}"),
        title: title.to_string(),
        author: "A.".to_string(),
        blurb: "B.".to_string(),
        cover: vec![1, 2, 3],
    }
}

#[test]
fn detail_page_fields_are_trimmed() {
    let page = detail_page(" The Title ", " An Author ", " A blurb. ", "https://img.example/c.jpg");
    let fields = parse_detail_page(&page).unwrap();
    assert_eq!(fields.title, "The Title");
    assert_eq!(fields.author, "An Author");
    assert_eq!(fields.blurb, "A blurb.");
    assert_eq!(fields.cover_source, "https://img.example/c.jpg");
}

#[test]
fn detail_page_missing_field_fails_parse() {
    let page = "<html><body><h1 class=\"Text Text__title1\">T</h1></body></html>";
    assert_eq!(parse_detail_page(page), Err(DetailError::Parse));
    assert_eq!(parse_detail_page("<html><body></body></html>"), Err(DetailError::Parse));
}

#[test]
fn assemble_book_combines_fields_and_cover() {
    let page = detail_page("T", "A", "B", "https://img.example/c.jpg");
    let fields = parse_detail_page(&page).unwrap();
    let book = assemble_book("https://goodreads.com/book/show/1".to_string(), fields, vec![9, 8]);
    assert_eq!(book.url, "https://goodreads.com/book/show/1");
    assert_eq!(book.title, "T");
    assert_eq!(book.author, "A");
    assert_eq!(book.blurb, "B");
    assert_eq!(book.cover, vec![9, 8]);
}

#[test]
fn placeholder_record_is_loading_and_empty() {
    let b = Book::default();
    assert_eq!(b.title, "loading");
    assert_eq!(b.url, "");
    assert_eq!(b.author, "");
    assert_eq!(b.blurb, "");
    assert!(b.cover.is_empty());
    assert_eq!(SETTLE_DELAY_MS, 50);
}

#[test]
fn pipeline_emits_three_indexed_results_each_once() {
    let entries = vec![info("e0"), info("e1"), info("e2")];
    let outcomes = vec![
        Ok(record("e0")),
        Err(DetailError::Fetch),
        Ok(record("e2")),
    ];
    let (p, emitted) = run_scripted(entries, &outcomes);
    assert_eq!(emitted, vec![0, 1, 2]);
    assert_eq!(p.slots.len(), 3);
    assert!(matches!(&p.slots[0], FetchSlot::Success(b) if b.title == "e0"));
    assert!(matches!(&p.slots[1], FetchSlot::Failed(DetailError::Fetch)));
    assert!(matches!(&p.slots[2], FetchSlot::Success(b) if b.title == "e2"));
}

#[test]
fn pipeline_hands_out_fetches_sequentially() {
    let entries = vec![info("a"), info("b")];
    let mut p = Pipeline::start(entries);
    assert!(!p.done());
    assert!(p.slots.iter().all(|s| matches!(s, FetchSlot::Pending)));

    let url0 = p.begin_fetch().unwrap();
    assert_eq!(url0, "https://goodreads.com/book/show/a");
    let idx0 = p.record(Ok(record("a")));
    assert_eq!(idx0, 0);
    p.settle();

    let url1 = p.begin_fetch().unwrap();
    assert_eq!(url1, "https://goodreads.com/book/show/b");
    let idx1 = p.record(Err(DetailError::Cover));
    assert_eq!(idx1, 1);
    p.settle();

    assert!(p.done());
    assert!(p.begin_fetch().is_none());
    assert!(matches!(&p.slots[0], FetchSlot::Success(_)));
    assert!(matches!(&p.slots[1], FetchSlot::Failed(DetailError::Cover)));
}

#[test]
fn detail_error_messages_name_the_failure() {
    assert_eq!(DetailError::Fetch.message(), "failed to fetch the detail page");
    assert_eq!(DetailError::Parse.message(), "a detail-page field was missing");
    assert_eq!(DetailError::Cover.message(), "failed to download the cover image");
}
