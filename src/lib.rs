//! Fetches card listings page by page from a card-search service, extracts
//! name and rarity from each CSV page and renders the accumulated cube as
//! text lines. The decisions are verified here; the network, the file system
//! and the command line stay with the caller.

pub mod text;
pub mod query;
pub mod extract;
pub mod pager;
pub mod output;
