//! Citation records from PubMed esummary metadata.
//!
//! The library turns one fetched esummary response into a rendered citation
//! block: it parses the body into its own document model, extracts the
//! record fields — authors in source order, the DOI among the article ids,
//! the `pubmed` history date normalized to `YYYY-MM-DD`, title, uid and the
//! optional journal name — and renders them as labelled lines. Fetching and
//! the command line stay outside the library.

pub mod date;
pub mod extract;
pub mod json;
pub mod parse;
pub mod query;
pub mod render;
