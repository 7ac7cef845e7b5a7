use newspoll::cache::TimedEntryCache;
use newspoll::config::TaskArgs;
use newspoll::errors::{ApiError, FMPApiError};
use newspoll::operation::ScriptedOperation;
use newspoll::options::{FMPQueryParams, FetchType};
use newspoll::params::ParamMap;
use newspoll::poll::{
    append_api_key, derive_cache_key, fetch_plan, fmp_cache_key, pairs_repr, poll_with,
    prepare_keyed_poll, prepare_sentiment_poll, require_fetch_type, AbstactContent, ApiVersion,
};

fn policy(max_retries: u32) -> TaskArgs {
    TaskArgs { base_delay_ms: 100, max_delay_ms: 800, max_retries }
}

#[test]
fn pairs_repr_joins_fields_in_order() {
    let pairs = vec![
        ("symbols".to_string(), "TSLA,AMZN".to_string()),
        ("page".to_string(), "2".to_string()),
    ];
    assert_eq!(pairs_repr(&pairs), "symbols=TSLA,AMZN&page=2");
    assert_eq!(pairs_repr(&Vec::new()), "");
}

#[test]
fn cache_key_combines_operation_endpoint_and_params() {
    let mut params = ParamMap::new();
    params.insert("api_token".to_string(), "tok".to_string());
    let key = derive_cache_key(FetchType::MarketAux, "all", &params);
    assert_eq!(key, "MarketAux_all_api_token=tok");
}

#[test]
fn keyed_poll_injects_token_and_extracts_endpoint() {
    let mut args = ParamMap::new();
    args.insert("endpoint".to_string(), "similar".to_string());
    args.insert("fetch_type".to_string(), "marketaux".to_string());
    args.insert("symbols".to_string(), "TSLA".to_string());
    let prep = prepare_keyed_poll(Some(args), "SECRET-REDACTED").expect("map arguments must prepare");
    assert_eq!(prep.endpoint, "similar");
    assert_eq!(prep.fetch_type, FetchType::MarketAux);
    assert!(prep.params.get("endpoint").is_none());
    assert_eq!(prep.params.get("api_token").map(|s| s.as_str()), Some("SECRET-REDACTED"));
    assert_eq!(prep.params.get("symbols").map(|s| s.as_str()), Some("TSLA"));
    assert_eq!(
        prep.key,
        "MarketAux_similar_fetch_type=marketaux&symbols=TSLA&api_token=SECRET-REDACTED"
    );
}

#[test]
fn keyed_poll_defaults_to_all_news_endpoint() {
    let mut args = ParamMap::new();
    args.insert("fetch_type".to_string(), "marketaux".to_string());
    let prep = prepare_keyed_poll(Some(args), "t").expect("map arguments must prepare");
    assert_eq!(prep.endpoint, "all");
}

#[test]
fn keyed_poll_without_map_reports_no_endpoint() {
    let r = prepare_keyed_poll(None, "t");
    assert!(matches!(r, Err(ApiError::NoEndpointProvided)));
}

#[test]
fn sentiment_poll_forces_function_and_injects_key() {
    let mut args = ParamMap::new();
    args.insert("tickers".to_string(), "AAPL".to_string());
    args.insert("fetch_type".to_string(), "alphavantage".to_string());
    let prep = prepare_sentiment_poll(Some(args), "SECRET-REDACTED", "https://example.invalid/query")
        .expect("map arguments must prepare");
    assert_eq!(prep.fetch_type, FetchType::AlphaVantage);
    assert_eq!(prep.params.get("function").map(|s| s.as_str()), Some("NEWS_SENTIMENT"));
    assert_eq!(prep.params.get("apikey").map(|s| s.as_str()), Some("SECRET-REDACTED"));
    assert_eq!(prep.endpoint, "https://example.invalid/query");
}

#[test]
fn mismatched_fetch_type_is_rejected_by_name() {
    assert!(require_fetch_type(FetchType::MarketAux, FetchType::MarketAux).is_ok());
    match require_fetch_type(FetchType::MarketAux, FetchType::StockNews) {
        Err(ApiError::RequestError { message, status, headers, body }) => {
            assert_eq!(message, "Unsupported task: StockNews");
            assert!(status.is_none() && headers.is_none() && body.is_none());
        }
        other => panic!("expected a request error, got {:?}", other),
    }
}

#[test]
fn fetch_plan_routes_operations_to_paths_and_versions() {
    let p = fetch_plan(FetchType::FMPArticle).expect("supported");
    assert_eq!(p.path, "fmp/articles");
    assert_eq!(p.version, ApiVersion::V3);
    assert_eq!(p.content, AbstactContent::News);
    assert_eq!(p.key_prefix, "fmp_articles");

    let p = fetch_plan(FetchType::StockRSS).expect("supported");
    assert_eq!(p.path, "stock-news-sentiments-rss-feed");
    assert_eq!(p.version, ApiVersion::V4);

    let p = fetch_plan(FetchType::SocialSentimentTrending).expect("supported");
    assert_eq!(p.path, "social-sentiments/trending");
    assert_eq!(p.content, AbstactContent::MarketSentiment);
    assert_eq!(p.key_prefix, "trending_social_sentiment");
}

#[test]
fn fetch_plan_rejects_foreign_operations() {
    match fetch_plan(FetchType::MarketAux) {
        Err(FMPApiError::TaskError(m)) => {
            assert_eq!(m, "Fetch type `Market Auxiliary` is not supported.");
        }
        other => panic!("expected a task error, got {:?}", other),
    }
}

#[test]
fn fmp_cache_key_uses_prefix_and_query() {
    let q = FMPQueryParams {
        symbol: Some("AAPL".to_string()),
        tickers: None,
        from: None,
        to: None,
        page: Some(2),
        size: None,
        kind: None,
        source: None,
    };
    assert_eq!(fmp_cache_key("stock_news", &q), "stock_news_symbol=AAPL&page=2");
}

#[test]
fn fmp_query_pairs_render_set_fields_in_order() {
    let q = FMPQueryParams {
        symbol: None,
        tickers: Some("AAPL,FB".to_string()),
        from: Some("2024-01-01".to_string()),
        to: None,
        page: None,
        size: Some(10),
        kind: Some("bullish".to_string()),
        source: None,
    };
    let pairs = q.to_query_pairs().expect("set fields yield pairs");
    let rendered: Vec<(String, String)> = pairs;
    assert_eq!(
        rendered,
        vec![
            ("tickers".to_string(), "AAPL,FB".to_string()),
            ("from".to_string(), "2024-01-01".to_string()),
            ("size".to_string(), "10".to_string()),
            ("type".to_string(), "bullish".to_string()),
        ]
    );

    let empty = FMPQueryParams {
        symbol: None,
        tickers: None,
        from: None,
        to: None,
        page: None,
        size: None,
        kind: None,
        source: None,
    };
    assert!(empty.to_query_pairs().is_none());
}

#[test]
fn poll_serves_cached_value_without_new_attempts() {
    let mut cache = TimedEntryCache::new(4);
    let mut op = ScriptedOperation::new(vec![
        Err(ApiError::NoEndpointProvided),
        Ok("payload".to_string()),
        Ok("never".to_string()),
    ]);
    let p = policy(3);
    let first = poll_with(&mut cache, "k", 60_000, 1_000, &p, &mut op);
    assert_eq!(first, Ok("payload".to_string()));
    assert_eq!(op.calls_made(), 2);

    let second = poll_with(&mut cache, "k", 60_000, 2_000, &p, &mut op);
    assert_eq!(second, Ok("payload".to_string()));
    assert_eq!(op.calls_made(), 2);
}

#[test]
fn poll_exhausts_attempts_and_returns_last_error() {
    let mut cache = TimedEntryCache::new(4);
    let mut op: ScriptedOperation<String, ApiError> = ScriptedOperation::new(vec![
        Err(ApiError::JsonParseError { message: "a".to_string() }),
        Err(ApiError::JsonParseError { message: "b".to_string() }),
    ]);
    let p = policy(2);
    let r = poll_with(&mut cache, "k", 60_000, 1_000, &p, &mut op);
    match r {
        Err(ApiError::JsonParseError { message }) => assert_eq!(message, "b"),
        other => panic!("expected the final parse error, got {:?}", other),
    }
    assert_eq!(op.calls_made(), 2);
    assert_eq!(cache.len(), 0);
}

#[test]
fn api_key_is_appended_to_outbound_query() {
    let mut pairs = vec![("page".to_string(), "1".to_string())];
    append_api_key(&mut pairs, "SECRET-REDACTED");
    assert_eq!(
        pairs,
        vec![
            ("page".to_string(), "1".to_string()),
            ("apikey".to_string(), "SECRET-REDACTED".to_string()),
        ]
    );
}
