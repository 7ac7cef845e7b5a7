use newspoll::config::{ApiConfig, DatabaseConfig, LoggingConfig, RequestArgs, ServerConfig,
    TaskArgs, ValueConfig};
use newspoll::errors::{error_from_response, AbstractApiError, ApiError, classify_status,
    FMPApiError, OpError};
use newspoll::utils::{compact_minutes_before, generate_random_key, join_path, rfc3339_before,
    str_eq, trim_slashes, u64_to_dec};
use newspoll::cache::{mode_allows_mutation, AccessMode};

#[test]
fn str_eq_compares_characters() {
    assert!(str_eq("marketaux", "marketaux"));
    assert!(!str_eq("marketaux", "marketauX"));
    assert!(!str_eq("task", "tasks"));
    assert!(str_eq("", ""));
}

#[test]
fn u64_to_dec_renders_decimal() {
    assert_eq!(u64_to_dec(0), "0");
    assert_eq!(u64_to_dec(7), "7");
    assert_eq!(u64_to_dec(1234567890), "1234567890");
    assert_eq!(u64_to_dec(u64::MAX), "18446744073709551615");
}

#[test]
fn random_keys_are_alphanumeric_of_requested_length() {
    let key = generate_random_key(32);
    assert_eq!(key.chars().count(), 32);
    assert!(key.chars().all(|c| c.is_ascii_alphanumeric()));
    assert_eq!(generate_random_key(0), "");
}

#[test]
fn rfc3339_rendering_strips_utc_suffix() {
    // The epoch rendered and trimmed: the "+00:00" offset must be gone.
    assert_eq!(rfc3339_before(0, 0), "1970-01-01T00:00:00");
    // Ten seconds before the epoch.
    assert_eq!(rfc3339_before(0, 10), "1969-12-31T23:59:50");
    // A fixed recent moment: 2024-01-02 03:04:05 UTC.
    assert_eq!(rfc3339_before(1_704_164_645_000, 0), "2024-01-02T03:04:05");
}

#[test]
fn compact_rendering_keeps_minutes() {
    assert_eq!(compact_minutes_before(0, 0), "19700101T0000");
    assert_eq!(compact_minutes_before(1_704_164_645_000, 0), "20240102T0304");
    // An hour earlier.
    assert_eq!(compact_minutes_before(1_704_164_645_000, 3600), "20240102T0204");
}

#[test]
fn masked_summary_hides_credentials() {
    let config = ValueConfig {
        database: DatabaseConfig {
            uri: "mongodb://localhost".to_string(),
            name: "n".to_string(),
            database_name: "db".to_string(),
            collection_name: "c".to_string(),
        },
        server: ServerConfig { host: "0.0.0.0".to_string(), port: 8080 },
        logging: LoggingConfig { level: "info".to_string() },
        api: ApiConfig {
            alphavantage: "SECRET-REDACTED".to_string(),
            marketaux: "SECRET-REDACTED".to_string(),
            fmp: "SECRET-REDACTED".to_string(),
        },
        request: RequestArgs { delay_secs: 600 },
        task: TaskArgs { base_delay_ms: 100, max_delay_ms: 800, max_retries: 3 },
    };
    let summary = config.masked_summary();
    assert_eq!(
        summary,
        format!(
            "MarketAux API Key: {}*****, AlphavantageAPI: {}*****",
            &config.api.marketaux[..4],
            &config.api.alphavantage[..4],
        )
    );
    assert!(!summary.contains(&config.api.marketaux));
    assert!(!summary.contains(&config.api.alphavantage));
}

#[test]
fn status_classification_covers_every_code() {
    assert!(matches!(classify_status(200), None));
    assert!(matches!(classify_status(429), Some(AbstractApiError::RateLimitError)));
    assert!(matches!(classify_status(500), Some(AbstractApiError::ServerError)));
    assert!(matches!(classify_status(599), Some(AbstractApiError::ServerError)));
    assert!(matches!(classify_status(404), Some(AbstractApiError::UnhandledError)));
    assert!(matches!(classify_status(201), Some(AbstractApiError::UnhandledError)));
}

#[test]
fn response_errors_carry_status_headers_and_body() {
    let headers = vec![("retry-after".to_string(), "60".to_string())];
    match error_from_response(429, headers.clone(), "slow down".to_string()) {
        Some(ApiError::RateLimitError { message, status, headers: h, body }) => {
            assert_eq!(message, "Rate limit exceeded.");
            assert_eq!(status, Some(429));
            assert_eq!(h, Some(headers));
            assert_eq!(body, Some("slow down".to_string()));
        }
        other => panic!("expected a rate limit error, got {:?}", other),
    }
    assert!(error_from_response(200, Vec::new(), String::new()).is_none());
    assert!(matches!(
        error_from_response(503, Vec::new(), String::new()),
        Some(ApiError::ServerError { .. })
    ));
    assert!(matches!(
        error_from_response(404, Vec::new(), String::new()),
        Some(ApiError::UnhandledError { .. })
    ));
}

#[test]
fn error_descriptions_name_their_kind() {
    let e = ApiError::JsonParseError { message: "bad body".to_string() };
    assert_eq!(e.describe(), "JSON Parse Error: bad body");
    assert_eq!(ApiError::NoEndpointProvided.describe(), "No endpoint provided");
    let e = FMPApiError::FetchError("boom".to_string());
    assert_eq!(e.describe(), "Failed to fetch data: boom");
    let e = OpError::InsertionError { message: "dup".to_string() };
    assert_eq!(e.describe(), "Failed to insert into collection | Error: dup");
}

#[test]
fn join_path_trims_and_joins_parts() {
    assert_eq!(trim_slashes("/api/v3/"), "api/v3");
    assert_eq!(trim_slashes("///"), "");
    assert_eq!(trim_slashes("plain"), "plain");
    let parts = vec![
        "https://example.invalid/api/v3/".to_string(),
        "/stock_news/".to_string(),
        "latest".to_string(),
    ];
    assert_eq!(join_path(&parts), "https://example.invalid/api/v3/stock_news/latest");
    assert_eq!(join_path(&Vec::new()), "");
}

#[test]
fn shared_read_handles_reject_mutation() {
    assert!(!mode_allows_mutation(AccessMode::SharedRead));
    assert!(mode_allows_mutation(AccessMode::Exclusive));
    assert!(mode_allows_mutation(AccessMode::SharedWrite));
}
