//! A crawler for the paginated search results of a shop: it reads the
//! listings of each page into product records, backs off when the site
//! refuses load, writes the records to a store row by row, and runs once a
//! day.
//!
//! The library holds the decisions; requests, waits and inserts are the
//! caller's, who hands the library what came back and does what it says next.

pub mod config;
pub mod crawl;
pub mod crawl_laws;
pub mod extract;
pub mod fetch;
pub mod markup;
pub mod persist;
pub mod product;
pub mod schedule;
