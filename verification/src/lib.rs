//! A breadth-first product crawler confined to one domain: a FIFO frontier
//! with a visited set and a page cap, per-page product extraction by
//! fallback matchers, same-domain link discovery, and a CSV output table.
//! Fetching pages is the caller's job: the crawler says which URL to fetch
//! next and digests each body it is handed.

pub mod crawler;
pub mod extract;
pub mod html;
pub mod sink;
pub mod urls;
