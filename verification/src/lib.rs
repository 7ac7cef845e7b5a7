//! Cache-coalesced polling and command dispatch for a financial-news
//! aggregation service.
//!
//! The crate centres on a fixed-capacity, least-recently-used cache of timed
//! entries, a cache-or-fetch coalescer, a retry combinator with capped
//! exponential backoff, the shared provider poll pattern (credential
//! injection, cache-key derivation, fetch-or-reuse, retry), and the command
//! dispatcher that routes parsed requests to registered handlers and wraps
//! every outcome in a uniform status envelope.

pub mod cache;
pub mod coalesce;
pub mod config;
pub mod dispatch;
pub mod errors;
pub mod operation;
pub mod options;
pub mod params;
pub mod poll;
pub mod retry;
pub mod schema;
pub mod utils;
