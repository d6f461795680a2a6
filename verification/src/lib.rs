//! Verified core of a reading-list extractor: it models the sign-in flow
//! against a browser-automation endpoint, the paginated catalog scrape, the
//! per-item detail-fetch pipeline, and the session state machine that ties
//! them together.  HTML querying and URL resolution are delegated to outside
//! crates behind a small set of trusted wrappers; everything that decides,
//! parses, orders or transitions is verified.

pub mod auth;
pub mod backend;
pub mod book;
pub mod browser;
pub mod catalog;
pub mod helpers;
pub mod markup;
pub mod pipeline;
pub mod scene;
pub mod text;
