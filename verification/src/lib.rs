//! Currency quote scraping library for a plain-text ledger.
//!
//! The library holds the verified part of a small scraper: it reads scrape
//! targets out of a YAML configuration, extracts a quoted value from a fetched
//! HTML page through a CSS selector, formats one ledger price line per target,
//! and aggregates per-target results fail-fast. The surrounding I/O (the HTTP
//! requests, the configuration file, standard output) lives outside.

pub mod config;
pub mod errors;
pub mod quote;
pub mod runner;
pub mod timefmt;
