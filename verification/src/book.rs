//! One catalog item's detail record: the fields read off its detail page,
//! the downloaded cover, and the placeholder shown before a fetch resolves.

use vstd::prelude::*;
use crate::markup;
use crate::text::{trim, trim_spec};

verus! {

/// A fully fetched detail record: source link, title, author, summary text
/// and cover image bytes.  Immutable once produced.
#[derive(Debug, PartialEq, Eq)]
pub struct Book {
    pub url: String,
    pub title: String,
    pub author: String,
    pub blurb: String,
    pub cover: Vec<u8>,
}

/// Spec-level image of a `Book`.
pub struct BookV {
    pub url: Seq<char>,
    pub title: Seq<char>,
    pub author: Seq<char>,
    pub blurb: Seq<char>,
    pub cover: Seq<u8>,
}

impl View for Book {
    type V = BookV;

    open spec fn view(&self) -> BookV {
        BookV {
            url: self.url@,
            title: self.title@,
            author: self.author@,
            blurb: self.blurb@,
            cover: self.cover@,
        }
    }
}

impl DeepView for Book {
    type V = BookV;

    open spec fn deep_view(&self) -> BookV {
        self.view()
    }
}

impl Clone for Book {
    fn clone(&self) -> (r: Self)
        ensures
            r@ == self@,
    {
        Book {
            url: self.url.clone(),
            title: self.title.clone(),
            author: self.author.clone(),
            blurb: self.blurb.clone(),
            cover: clone_bytes(&self.cover),
        }
    }
}

fn clone_bytes(v: &Vec<u8>) -> (r: Vec<u8>)
    ensures
        r@ == v@,
{
    let mut out: Vec<u8> = Vec::new();
    let mut i: usize = 0;
    while i < v.len()
        invariant
            0 <= i <= v.len(),
            out@ == v@.subrange(0, i as int),
        decreases v.len() - i,
    {
        out.push(v[i]);
        proof {
            assert(out@ =~= v@.subrange(0, i + 1));
        }
        i = i + 1;
    }
    proof {
        assert(out@ =~= v@);
    }
    out
}

impl Default for Book {
    /// The placeholder record a slot shows before its fetch resolves: a
    /// "loading" title and an empty cover.
    fn default() -> (r: Self)
        ensures
            r@.url == Seq::<char>::empty(),
            r@.title == "loading"@,
            r@.author == Seq::<char>::empty(),
            r@.blurb == Seq::<char>::empty(),
            r@.cover == Seq::<u8>::empty(),
    {
        Book {
            url: String::new(),
            title: "loading".to_owned(),
            author: String::new(),
            blurb: String::new(),
            cover: Vec::new(),
        }
    }
}

/// Why one detail fetch failed.  Each failure stays in its own slot; it
/// never stops the rest of the pipeline.
#[derive(Clone, Copy, Debug, PartialEq, Eq, Structural)]
pub enum DetailError {
    /// The detail page could not be fetched.
    Fetch,
    /// An expected field was missing on the detail page.
    Parse,
    /// The cover image could not be downloaded.
    Cover,
}

impl DetailError {
    /// What `message` returns for each failure.
    pub open spec fn message_spec(self) -> Seq<char> {
        match self {
            DetailError::Fetch => "failed to fetch the detail page"@,
            DetailError::Parse => "a detail-page field was missing"@,
            DetailError::Cover => "failed to download the cover image"@,
        }
    }

    /// A short description, for the application shell to display.
    pub fn message(&self) -> (r: String)
        ensures
            r@ == self.message_spec(),
    {
        match self {
            DetailError::Fetch => "failed to fetch the detail page".to_owned(),
            DetailError::Parse => "a detail-page field was missing".to_owned(),
            DetailError::Cover => "failed to download the cover image".to_owned(),
        }
    }
}

// ---------------------------------------------------------------------------
// Detail-page parsing
// ---------------------------------------------------------------------------

/// Title element's inner HTML on a detail page.
pub open spec fn detail_title_of(page: Seq<char>) -> Option<Seq<char>> {
    markup::first_inner_html_of(page, "h1[class=\"Text Text__title1\"]"@)
}

/// Author element's inner HTML on a detail page.
pub open spec fn detail_author_of(page: Seq<char>) -> Option<Seq<char>> {
    markup::first_inner_html_of(page, "span[class=\"ContributorLink__name\"]"@)
}

/// Summary element's inner HTML on a detail page.
pub open spec fn detail_blurb_of(page: Seq<char>) -> Option<Seq<char>> {
    markup::first_inner_html_of(page, "span[class=\"Formatted\"]"@)
}

/// Cover image source attribute on a detail page.
pub open spec fn detail_cover_source_of(page: Seq<char>) -> Option<Seq<char>> {
    markup::first_attr_of(page, "img[class=\"ResponsiveImage\"]"@, "src"@)
}

/// The text fields parsed off a detail page, before the cover is fetched.
#[derive(Debug, PartialEq, Eq)]
pub struct DetailFields {
    pub title: String,
    pub author: String,
    pub blurb: String,
    pub cover_source: String,
}

/// Spec-level image of `DetailFields`.
pub struct DetailFieldsV {
    pub title: Seq<char>,
    pub author: Seq<char>,
    pub blurb: Seq<char>,
    pub cover_source: Seq<char>,
}

impl View for DetailFields {
    type V = DetailFieldsV;

    open spec fn view(&self) -> DetailFieldsV {
        DetailFieldsV {
            title: self.title@,
            author: self.author@,
            blurb: self.blurb@,
            cover_source: self.cover_source@,
        }
    }
}

/// How a detail page is read: title, author and summary are the trimmed
/// inner HTML of their elements, the cover source is taken verbatim, and a
/// missing field fails the parse.
pub open spec fn parse_detail_spec(page: Seq<char>) -> Result<DetailFieldsV, DetailError> {
    match detail_title_of(page) {
        None => Err(DetailError::Parse),
        Some(title) => match detail_author_of(page) {
            None => Err(DetailError::Parse),
            Some(author) => match detail_blurb_of(page) {
                None => Err(DetailError::Parse),
                Some(blurb) => match detail_cover_source_of(page) {
                    None => Err(DetailError::Parse),
                    Some(src) => Ok(
                        DetailFieldsV {
                            title: trim_spec(title),
                            author: trim_spec(author),
                            blurb: trim_spec(blurb),
                            cover_source: src,
                        },
                    ),
                },
            },
        },
    }
}

/// Spec-level image of a detail-parse result.
pub open spec fn detail_result_view(r: Result<DetailFields, DetailError>) -> Result<
    DetailFieldsV,
    DetailError,
> {
    match r {
        Ok(f) => Ok(f@),
        Err(e) => Err(e),
    }
}

/// Parse title, author, summary and cover source out of a detail page.
pub fn parse_detail_page(page: &str) -> (r: Result<DetailFields, DetailError>)
    ensures
        detail_result_view(r) == parse_detail_spec(page@),
{
    let title = match markup::first_inner_html(page, "h1[class=\"Text Text__title1\"]") {
        None => {
            return Err(DetailError::Parse);
        },
        Some(t) => t,
    };
    let author = match markup::first_inner_html(page, "span[class=\"ContributorLink__name\"]") {
        None => {
            return Err(DetailError::Parse);
        },
        Some(t) => t,
    };
    let blurb = match markup::first_inner_html(page, "span[class=\"Formatted\"]") {
        None => {
            return Err(DetailError::Parse);
        },
        Some(t) => t,
    };
    let cover_source = match markup::first_attr(page, "img[class=\"ResponsiveImage\"]", "src") {
        None => {
            return Err(DetailError::Parse);
        },
        Some(t) => t,
    };
    Ok(
        DetailFields {
            title: trim(title.as_str()),
            author: trim(author.as_str()),
            blurb: trim(blurb.as_str()),
            cover_source,
        },
    )
}

/// Assemble the finished record from the parsed fields and the fetched
/// cover bytes.
pub fn assemble_book(url: String, fields: DetailFields, cover: Vec<u8>) -> (b: Book)
    ensures
        b@.url == url@,
        b@.title == fields@.title,
        b@.author == fields@.author,
        b@.blurb == fields@.blurb,
        b@.cover == cover@,
{
    Book { url, title: fields.title, author: fields.author, blurb: fields.blurb, cover }
}

} // verus!
