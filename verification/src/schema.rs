//! Typed shapes of provider responses.
//!
//! Decoding a response into these shapes once, strictly, is the
//! schema-validation gate of the poll flow; the decoding itself lives with
//! the surrounding program.  Only the parts the library states anything
//! about are here; fields are plain values.

use vstd::prelude::*;

verus! {

/// A topic attached to a news-sentiment feed item.
#[derive(Clone, Debug)]
pub struct Topic {
    pub topic: Option<String>,
    pub relevance_score: Option<String>,
}

/// Per-ticker sentiment attached to a news-sentiment feed item.
#[derive(Clone, Debug)]
pub struct TickerSentiment {
    pub ticker: Option<String>,
    pub relevance_score: Option<String>,
    pub ticker_sentiment_score: Option<String>,
    pub ticker_sentiment_label: Option<String>,
}

/// The counts a news listing reports about itself.
#[derive(Clone, Debug, PartialEq, Eq, Structural)]
pub struct Meta {
    pub found: i64,
    pub returned: i64,
    pub limit: i64,
    pub page: i64,
}

/// How a market-data listing is sorted.
#[derive(Clone, Debug)]
pub struct Sort {
    pub sorted: Option<bool>,
    pub unsorted: Option<bool>,
    pub empty: Option<bool>,
}

/// How a market-data listing is paged.
#[derive(Clone, Debug)]
pub struct Pageable {
    pub sort: Sort,
    pub page_size: Option<u64>,
    pub page_number: Option<u64>,
    pub offset: Option<u64>,
    pub paged: Option<bool>,
    pub unpaged: Option<bool>,
}

} // verus!
