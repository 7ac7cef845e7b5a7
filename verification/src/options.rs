//! Operation identifiers and provider query parameters.
//!
//! A `FetchType` names which concrete sub-endpoint a poll call targets; it is
//! parsed from a reserved parameter field and never sent upstream.  The query
//! parameter structs mirror the fields the providers accept; fields set to
//! `None` are left out of the outbound query.

use vstd::prelude::*;

verus! {

use vstd::string::StringExecFns;
use crate::params::{ParamMap, pm_contains, pm_value};
use crate::utils::{str_eq, u64_to_dec, dec_rep};

/// Which concrete polling operation a request targets.
#[derive(Clone, Copy, Debug, PartialEq, Eq, Structural)]
pub enum FetchType {
    MarketAux,
    AlphaVantage,
    FMPArticle,
    GeneralNews,
    StockNews,
    StockRSS,
    CryptoNews,
    ForexNews,
    PressReleases,
    SocialSentimentHistory,
    SocialSentimentTrending,
    SocialSentimentChanges,
    Unknown,
}

/// The operation named by an identifier string; anything unrecognised is
/// `Unknown`.
pub open spec fn fetch_type_of(s: Seq<char>) -> FetchType {
    if s == "marketaux"@ {
        FetchType::MarketAux
    } else if s == "alphavantage"@ {
        FetchType::AlphaVantage
    } else if s == "fmp_articles"@ {
        FetchType::FMPArticle
    } else if s == "general_news"@ {
        FetchType::GeneralNews
    } else if s == "stock_news"@ {
        FetchType::StockNews
    } else if s == "stock_rss"@ {
        FetchType::StockRSS
    } else if s == "crypto_news"@ {
        FetchType::CryptoNews
    } else if s == "forex_news"@ {
        FetchType::ForexNews
    } else if s == "press_releases"@ {
        FetchType::PressReleases
    } else if s == "social_sentiment_history"@ {
        FetchType::SocialSentimentHistory
    } else if s == "social_sentiment_trending"@ {
        FetchType::SocialSentimentTrending
    } else if s == "social_sentiment_changes"@ {
        FetchType::SocialSentimentChanges
    } else {
        FetchType::Unknown
    }
}

impl FetchType {
    /// Parses an operation identifier.
    pub fn from_str(s: &str) -> (t: FetchType)
        ensures
            t == fetch_type_of(s@),
    {
        if str_eq(s, "marketaux") {
            FetchType::MarketAux
        } else if str_eq(s, "alphavantage") {
            FetchType::AlphaVantage
        } else if str_eq(s, "fmp_articles") {
            FetchType::FMPArticle
        } else if str_eq(s, "general_news") {
            FetchType::GeneralNews
        } else if str_eq(s, "stock_news") {
            FetchType::StockNews
        } else if str_eq(s, "stock_rss") {
            FetchType::StockRSS
        } else if str_eq(s, "crypto_news") {
            FetchType::CryptoNews
        } else if str_eq(s, "forex_news") {
            FetchType::ForexNews
        } else if str_eq(s, "press_releases") {
            FetchType::PressReleases
        } else if str_eq(s, "social_sentiment_history") {
            FetchType::SocialSentimentHistory
        } else if str_eq(s, "social_sentiment_trending") {
            FetchType::SocialSentimentTrending
        } else if str_eq(s, "social_sentiment_changes") {
            FetchType::SocialSentimentChanges
        } else {
            FetchType::Unknown
        }
    }

    /// The operation named by the `function` field of a parameter map, where
    /// the identifiers are written with spaces.
    pub fn from_params(params: &ParamMap) -> (t: FetchType)
        requires
            params.wf(),
        ensures
            pm_contains(params.view(), "function"@) ==> t == spaced_fetch_type_of(
                pm_value(params.view(), "function"@),
            ),
            !pm_contains(params.view(), "function"@) ==> t == FetchType::Unknown,
    {
        match params.get("function") {
            Some(v) => Self::from_spaced(v.as_str()),
            None => FetchType::Unknown,
        }
    }

    /// Parses an operation identifier written with spaces.
    pub fn from_spaced(s: &str) -> (t: FetchType)
        ensures
            t == spaced_fetch_type_of(s@),
    {
        if str_eq(s, "marketaux") {
            FetchType::MarketAux
        } else if str_eq(s, "alphavantage") {
            FetchType::AlphaVantage
        } else if str_eq(s, "fmp articles") {
            FetchType::FMPArticle
        } else if str_eq(s, "general news") {
            FetchType::GeneralNews
        } else if str_eq(s, "stock news") {
            FetchType::StockNews
        } else if str_eq(s, "stock rss") {
            FetchType::StockRSS
        } else if str_eq(s, "crypto news") {
            FetchType::CryptoNews
        } else if str_eq(s, "forex news") {
            FetchType::ForexNews
        } else if str_eq(s, "press releases") {
            FetchType::PressReleases
        } else if str_eq(s, "social sentiment history") {
            FetchType::SocialSentimentHistory
        } else if str_eq(s, "social sentiment trending") {
            FetchType::SocialSentimentTrending
        } else if str_eq(s, "social sentiment changes") {
            FetchType::SocialSentimentChanges
        } else {
            FetchType::Unknown
        }
    }

    /// The variant's name, as used in derived cache keys.
    pub open spec fn name_spec(self) -> Seq<char> {
        match self {
            FetchType::MarketAux => "MarketAux"@,
            FetchType::AlphaVantage => "AlphaVantage"@,
            FetchType::FMPArticle => "FMPArticle"@,
            FetchType::GeneralNews => "GeneralNews"@,
            FetchType::StockNews => "StockNews"@,
            FetchType::StockRSS => "StockRSS"@,
            FetchType::CryptoNews => "CryptoNews"@,
            FetchType::ForexNews => "ForexNews"@,
            FetchType::PressReleases => "PressReleases"@,
            FetchType::SocialSentimentHistory => "SocialSentimentHistory"@,
            FetchType::SocialSentimentTrending => "SocialSentimentTrending"@,
            FetchType::SocialSentimentChanges => "SocialSentimentChanges"@,
            FetchType::Unknown => "Unknown"@,
        }
    }

    /// The variant's name, as used in derived cache keys.
    pub fn name(&self) -> (r: &'static str)
        ensures
            r@ == self.name_spec(),
    {
        match self {
            FetchType::MarketAux => "MarketAux",
            FetchType::AlphaVantage => "AlphaVantage",
            FetchType::FMPArticle => "FMPArticle",
            FetchType::GeneralNews => "GeneralNews",
            FetchType::StockNews => "StockNews",
            FetchType::StockRSS => "StockRSS",
            FetchType::CryptoNews => "CryptoNews",
            FetchType::ForexNews => "ForexNews",
            FetchType::PressReleases => "PressReleases",
            FetchType::SocialSentimentHistory => "SocialSentimentHistory",
            FetchType::SocialSentimentTrending => "SocialSentimentTrending",
            FetchType::SocialSentimentChanges => "SocialSentimentChanges",
            FetchType::Unknown => "Unknown",
        }
    }

    /// The variant spelt out for people.
    pub open spec fn display_name_spec(self) -> Seq<char> {
        match self {
            FetchType::MarketAux => "Market Auxiliary"@,
            FetchType::AlphaVantage => "Alpha Vantage"@,
            FetchType::FMPArticle => "FMP Article"@,
            FetchType::GeneralNews => "General News"@,
            FetchType::StockNews => "Stock News"@,
            FetchType::StockRSS => "Stock RSS"@,
            FetchType::CryptoNews => "Crypto News"@,
            FetchType::ForexNews => "Forex News"@,
            FetchType::PressReleases => "Press Releases"@,
            FetchType::SocialSentimentHistory => "Social Sentiment History"@,
            FetchType::SocialSentimentTrending => "Social Sentiment Trending"@,
            FetchType::SocialSentimentChanges => "Social Sentiment Changes"@,
            FetchType::Unknown => "Unknown"@,
        }
    }

    /// The variant spelt out for people.
    pub fn display_name(&self) -> (r: &'static str)
        ensures
            r@ == self.display_name_spec(),
    {
        match self {
            FetchType::MarketAux => "Market Auxiliary",
            FetchType::AlphaVantage => "Alpha Vantage",
            FetchType::FMPArticle => "FMP Article",
            FetchType::GeneralNews => "General News",
            FetchType::StockNews => "Stock News",
            FetchType::StockRSS => "Stock RSS",
            FetchType::CryptoNews => "Crypto News",
            FetchType::ForexNews => "Forex News",
            FetchType::PressReleases => "Press Releases",
            FetchType::SocialSentimentHistory => "Social Sentiment History",
            FetchType::SocialSentimentTrending => "Social Sentiment Trending",
            FetchType::SocialSentimentChanges => "Social Sentiment Changes",
            FetchType::Unknown => "Unknown",
        }
    }
}

/// The operation named by an identifier written with spaces; anything
/// unrecognised is `Unknown`.
pub open spec fn spaced_fetch_type_of(s: Seq<char>) -> FetchType {
    if s == "marketaux"@ {
        FetchType::MarketAux
    } else if s == "alphavantage"@ {
        FetchType::AlphaVantage
    } else if s == "fmp articles"@ {
        FetchType::FMPArticle
    } else if s == "general news"@ {
        FetchType::GeneralNews
    } else if s == "stock news"@ {
        FetchType::StockNews
    } else if s == "stock rss"@ {
        FetchType::StockRSS
    } else if s == "crypto news"@ {
        FetchType::CryptoNews
    } else if s == "forex news"@ {
        FetchType::ForexNews
    } else if s == "press releases"@ {
        FetchType::PressReleases
    } else if s == "social sentiment history"@ {
        FetchType::SocialSentimentHistory
    } else if s == "social sentiment trending"@ {
        FetchType::SocialSentimentTrending
    } else if s == "social sentiment changes"@ {
        FetchType::SocialSentimentChanges
    } else {
        FetchType::Unknown
    }
}

/// Query parameters of the news-sentiment provider.
#[derive(Clone, Debug)]
pub struct AVQueryParams {
    /// The provider function to call.
    pub function: String,
    /// Comma-separated symbols to filter articles.
    pub tickers: Option<String>,
    /// Comma-separated topics to filter articles.
    pub topics: Option<String>,
    /// Start time in `yyyyMMddTHHmm` format.
    pub time_from: Option<String>,
    /// End time in `yyyyMMddTHHmm` format.
    pub time_to: Option<String>,
    /// Sort order: latest, earliest or relevance.
    pub sort: Option<String>,
    /// Maximum number of results.
    pub limit: Option<i32>,
    /// The provider credential.
    pub apikey: String,
}

/// The view of an optional borrowed string.
pub open spec fn opt_str_view(s: Option<&str>) -> Option<Seq<char>> {
    match s {
        Some(v) => Some(v@),
        None => None,
    }
}

/// The view of an optional owned string.
pub open spec fn opt_string_view(s: Option<String>) -> Option<Seq<char>> {
    match s {
        Some(v) => Some(v@),
        None => None,
    }
}

impl AVQueryParams {
    pub fn new(
        apikey: &str,
        function: &str,
        tickers: Option<&str>,
        topics: Option<&str>,
        time_from: Option<&str>,
        time_to: Option<&str>,
        sort: Option<&str>,
        limit: Option<i32>,
    ) -> (r: Self)
        ensures
            r.function@ == function@,
            opt_string_view(r.tickers) == opt_str_view(tickers),
            opt_string_view(r.topics) == opt_str_view(topics),
            opt_string_view(r.time_from) == opt_str_view(time_from),
            opt_string_view(r.time_to) == opt_str_view(time_to),
            opt_string_view(r.sort) == opt_str_view(sort),
            r.limit == limit,
            r.apikey@ == apikey@,
    {
        AVQueryParams {
            function: String::from_str(function),
            tickers: copy_opt_str(tickers),
            topics: copy_opt_str(topics),
            time_from: copy_opt_str(time_from),
            time_to: copy_opt_str(time_to),
            sort: copy_opt_str(sort),
            limit,
            apikey: String::from_str(apikey),
        }
    }
}

/// An owned copy of an optional borrowed string.
fn copy_opt_str(s: Option<&str>) -> (r: Option<String>)
    ensures
        opt_string_view(r) == opt_str_view(s),
{
    match s {
        Some(v) => Some(String::from_str(v)),
        None => None,
    }
}

/// Query parameters of the market-data provider.
#[derive(Clone, Debug)]
pub struct FMPQueryParams {
    /// A single symbol.
    pub symbol: Option<String>,
    /// A comma-separated list of tickers.
    pub tickers: Option<String>,
    /// Start date in `yyyy-MM-dd` format.
    pub from: Option<String>,
    /// End date in `yyyy-MM-dd` format.
    pub to: Option<String>,
    /// Page number.
    pub page: Option<u64>,
    /// Results per page.
    pub size: Option<u64>,
    /// Sentiment direction: bullish or bearish.
    pub kind: Option<String>,
    /// Sentiment source.
    pub source: Option<String>,
}

/// The pair a set optional string field contributes to the query.
pub open spec fn opt_pair(key: Seq<char>, v: Option<String>) -> Seq<(Seq<char>, Seq<char>)> {
    match v {
        Some(s) => seq![(key, s@)],
        None => Seq::empty(),
    }
}

/// The pair a set optional number field contributes to the query, rendered
/// in decimal.
pub open spec fn opt_num_pair(key: Seq<char>, v: Option<u64>) -> Seq<(Seq<char>, Seq<char>)> {
    match v {
        Some(n) => seq![(key, dec_rep(n as nat))],
        None => Seq::empty(),
    }
}

/// Every set field of the query, in field order.
pub open spec fn fmp_pairs_spec(q: FMPQueryParams) -> Seq<(Seq<char>, Seq<char>)> {
    opt_pair("symbol"@, q.symbol) + opt_pair("tickers"@, q.tickers) + opt_pair("from"@, q.from)
        + opt_pair("to"@, q.to) + opt_num_pair("page"@, q.page) + opt_num_pair("size"@, q.size)
        + opt_pair("type"@, q.kind) + opt_pair("source"@, q.source)
}

impl FMPQueryParams {
    /// The set fields as query pairs, in field order; `None` when no field
    /// is set.
    #[verifier::rlimit(80)]
    pub fn to_query_pairs(&self) -> (r: Option<Vec<(String, String)>>)
        ensures
            match r {
                Some(v) => crate::params::pairs_view(v@) == fmp_pairs_spec(*self) && fmp_pairs_spec(
                    *self,
                ).len() > 0,
                None => fmp_pairs_spec(*self).len() == 0,
            },
    {
        let mut out: Vec<(String, String)> = Vec::new();
        let ghost mut built: Seq<(Seq<char>, Seq<char>)> = Seq::empty();
        proof {
            assert(crate::params::pairs_view(out@) =~= built);
        }
        if let Some(v) = &self.symbol {
            out.push((String::from_str("symbol"), v.clone()));
        }
        proof {
            built = built + opt_pair("symbol"@, self.symbol);
            assert(crate::params::pairs_view(out@) =~= built);
        }
        if let Some(v) = &self.tickers {
            out.push((String::from_str("tickers"), v.clone()));
        }
        proof {
            built = built + opt_pair("tickers"@, self.tickers);
            assert(crate::params::pairs_view(out@) =~= built);
        }
        if let Some(v) = &self.from {
            out.push((String::from_str("from"), v.clone()));
        }
        proof {
            built = built + opt_pair("from"@, self.from);
            assert(crate::params::pairs_view(out@) =~= built);
        }
        if let Some(v) = &self.to {
            out.push((String::from_str("to"), v.clone()));
        }
        proof {
            built = built + opt_pair("to"@, self.to);
            assert(crate::params::pairs_view(out@) =~= built);
        }
        if let Some(n) = &self.page {
            out.push((String::from_str("page"), u64_to_dec(*n)));
        }
        proof {
            built = built + opt_num_pair("page"@, self.page);
            assert(crate::params::pairs_view(out@) =~= built);
        }
        if let Some(n) = &self.size {
            out.push((String::from_str("size"), u64_to_dec(*n)));
        }
        proof {
            built = built + opt_num_pair("size"@, self.size);
            assert(crate::params::pairs_view(out@) =~= built);
        }
        if let Some(v) = &self.kind {
            out.push((String::from_str("type"), v.clone()));
        }
        proof {
            built = built + opt_pair("type"@, self.kind);
            assert(crate::params::pairs_view(out@) =~= built);
        }
        if let Some(v) = &self.source {
            out.push((String::from_str("source"), v.clone()));
        }
        proof {
            built = built + opt_pair("source"@, self.source);
            assert(crate::params::pairs_view(out@) =~= built);
            assert(built == fmp_pairs_spec(*self));
        }
        if out.len() == 0 {
            None
        } else {
            Some(out)
        }
    }
}

} // verus!
