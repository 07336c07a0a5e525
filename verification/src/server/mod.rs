//! What the exposition endpoint answers to a scrape.

pub mod start;

pub use start::{get_metrics, Scrape};
