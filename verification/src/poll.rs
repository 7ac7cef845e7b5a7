//! The shared provider poll pattern.
//!
//! Every provider client polls the same way: inject the credential into the
//! caller's parameters, extract the reserved routing fields, derive a cache
//! key from the operation identity, the endpoint and the remaining
//! parameters, and drive the fetch through the coalescer under the retry
//! policy.

use vstd::prelude::*;

verus! {

use vstd::string::{StringExecFns, StrSliceExecFns};
use crate::cache::{TimedEntryCache, contains_key, entry_of, remove_key, promote_model, put_model,
    lemma_remove_key, lemma_remove_key_noop};
use crate::coalesce::{fetch_or_compute, fresh_hit};
use crate::config::TaskArgs;
use crate::errors::{ApiError, FMPApiError};
use crate::operation::FetchOperation;
use crate::options::{FetchType, FMPQueryParams, fmp_pairs_spec, fetch_type_of};
use crate::params::{ParamMap, PairModel, pairs_view, pm_put, pm_remove, pm_contains, pm_value};
use crate::retry::{attempt_bound, attempts_used, lemma_attempts_used_pin};

/// One rendered pair: `name=value`.
pub open spec fn pair_repr_spec(p: PairModel) -> Seq<char> {
    p.0 + "="@ + p.1
}

/// The pairs rendered in order, separated by `&`.
pub open spec fn pairs_repr_spec(s: Seq<PairModel>) -> Seq<char>
    decreases s.len(),
{
    if s.len() == 0 {
        Seq::empty()
    } else if s.len() == 1 {
        pair_repr_spec(s[0])
    } else {
        pair_repr_spec(s[0]) + "&"@ + pairs_repr_spec(s.drop_first())
    }
}

fn pairs_repr_from(v: &Vec<(String, String)>, i: usize) -> (r: String)
    requires
        i <= v@.len(),
    ensures
        r@ == pairs_repr_spec(pairs_view(v@).skip(i as int)),
    decreases v@.len() - i,
{
    let n = v.len();
    if i >= n {
        proof {
            assert(pairs_view(v@).skip(i as int) =~= Seq::<PairModel>::empty());
        }
        String::new()
    } else {
        let ghost tail = pairs_view(v@).skip(i as int);
        proof {
            assert(tail[0] == (v@[i as int].0@, v@[i as int].1@));
        }
        let head = v[i].0.clone().concat("=").concat(v[i].1.as_str());
        if i + 1 == n {
            proof {
                assert(tail.len() == 1);
            }
            head
        } else {
            let rest = pairs_repr_from(v, i + 1);
            proof {
                assert(tail.drop_first() =~= pairs_view(v@).skip(i as int + 1));
            }
            head.concat("&").concat(rest.as_str())
        }
    }
}

/// Renders query pairs as `name=value` joined by `&`: the deterministic part
/// of a cache key.
pub fn pairs_repr(v: &Vec<(String, String)>) -> (r: String)
    ensures
        r@ == pairs_repr_spec(pairs_view(v@)),
{
    let r = pairs_repr_from(v, 0);
    proof {
        assert(pairs_view(v@).skip(0) =~= pairs_view(v@));
    }
    r
}

/// The cache key of a poll: the operation identity, the endpoint, and the
/// rendered parameters.
pub open spec fn cache_key_spec(ft: FetchType, endpoint: Seq<char>, params: Seq<PairModel>) -> Seq<
    char,
> {
    ft.name_spec() + "_"@ + endpoint + "_"@ + pairs_repr_spec(params)
}

/// Derives the deterministic cache key for a poll call.
pub fn derive_cache_key(ft: FetchType, endpoint: &str, params: &ParamMap) -> (r: String)
    ensures
        r@ == cache_key_spec(ft, endpoint@, params.view()),
{
    String::from_str(ft.name()).concat("_").concat(endpoint).concat("_").concat(
        pairs_repr(params.pairs()).as_str(),
    )
}

/// A poll call after credential injection and routing-field extraction.
#[derive(Debug)]
pub struct PreparedPoll {
    /// The sub-endpoint to call.
    pub endpoint: String,
    /// The operation identifier read from the reserved field.
    pub fetch_type: FetchType,
    /// The outbound parameters: credential injected, endpoint field removed.
    pub params: ParamMap,
    /// The derived cache key.
    pub key: String,
}

/// The endpoint a poll falls back to when none is named.
pub open spec fn default_endpoint_spec() -> Seq<char> {
    "all"@
}

/// Prepares a poll over endpoint-routed news parameters: injects the
/// caller's credential under `api_token`, removes the reserved `endpoint`
/// field (falling back to the all-news endpoint), reads the operation
/// identifier from `fetch_type`, and derives the cache key.  Parameters that
/// are not a map are rejected: no endpoint can be named in them.
pub fn prepare_keyed_poll(args: Option<ParamMap>, api_token: &str) -> (r: Result<
    PreparedPoll,
    ApiError,
>)
    requires
        args matches Some(p) ==> p.wf(),
    ensures
        args is None ==> (r matches Err(e) && e is NoEndpointProvided),
        args matches Some(p) ==> (r matches Ok(prep) && ({
            let with_token = pm_put(p.view(), "api_token"@, api_token@);
            let cleaned = pm_remove(with_token, "endpoint"@);
            &&& prep.params.wf()
            &&& prep.params.view() == cleaned
            &&& prep.endpoint@ == (if pm_contains(with_token, "endpoint"@) {
                pm_value(with_token, "endpoint"@)
            } else {
                default_endpoint_spec()
            })
            &&& prep.fetch_type == (if pm_contains(cleaned, "fetch_type"@) {
                fetch_type_of(pm_value(cleaned, "fetch_type"@))
            } else {
                FetchType::Unknown
            })
            &&& prep.key@ == cache_key_spec(prep.fetch_type, prep.endpoint@, cleaned)
        })),
{
    match args {
        None => Err(ApiError::NoEndpointProvided),
        Some(mut params) => {
            params.insert(String::from_str("api_token"), String::from_str(api_token));
            let endpoint = match params.remove("endpoint") {
                Some(pair) => pair.1,
                None => String::from_str("all"),
            };
            let fetch_type = match params.get("fetch_type") {
                Some(v) => FetchType::from_str(v.as_str()),
                None => FetchType::Unknown,
            };
            let key = derive_cache_key(fetch_type, endpoint.as_str(), &params);
            Ok(PreparedPoll { endpoint, fetch_type, params, key })
        },
    }
}

/// Prepares a poll over sentiment-news parameters: injects the caller's
/// credential under `apikey`, forces the provider function to the
/// news-sentiment operation, reads the operation identifier from
/// `fetch_type`, and derives the cache key over the fixed endpoint.
pub fn prepare_sentiment_poll(args: Option<ParamMap>, apikey: &str, endpoint: &str) -> (r: Result<
    PreparedPoll,
    ApiError,
>)
    requires
        args matches Some(p) ==> p.wf(),
    ensures
        args is None ==> (r matches Err(e) && e is NoEndpointProvided),
        args matches Some(p) ==> (r matches Ok(prep) && ({
            let filled = pm_put(
                pm_put(p.view(), "apikey"@, apikey@),
                "function"@,
                "NEWS_SENTIMENT"@,
            );
            &&& prep.params.wf()
            &&& prep.params.view() == filled
            &&& prep.endpoint@ == endpoint@
            &&& prep.fetch_type == (if pm_contains(filled, "fetch_type"@) {
                fetch_type_of(pm_value(filled, "fetch_type"@))
            } else {
                FetchType::Unknown
            })
            &&& prep.key@ == cache_key_spec(prep.fetch_type, endpoint@, filled)
        })),
{
    match args {
        None => Err(ApiError::NoEndpointProvided),
        Some(mut params) => {
            params.insert(String::from_str("apikey"), String::from_str(apikey));
            params.insert(String::from_str("function"), String::from_str("NEWS_SENTIMENT"));
            let fetch_type = match params.get("fetch_type") {
                Some(v) => FetchType::from_str(v.as_str()),
                None => FetchType::Unknown,
            };
            let key = derive_cache_key(fetch_type, endpoint, &params);
            Ok(PreparedPoll { endpoint: String::from_str(endpoint), fetch_type, params, key })
        },
    }
}

/// Rejects a poll whose operation identifier does not name this client.
pub fn require_fetch_type(expected: FetchType, actual: FetchType) -> (r: Result<(), ApiError>)
    ensures
        actual == expected ==> r is Ok,
        actual != expected ==> (r matches Err(e) && e matches ApiError::RequestError {
            message,
            status,
            headers,
            body,
        } && message@ == "Unsupported task: "@ + actual.name_spec() && status is None && headers
            is None && body is None),
{
    if actual == expected {
        Ok(())
    } else {
        Err(
            ApiError::RequestError {
                message: String::from_str("Unsupported task: ").concat(actual.name()),
                status: None,
                headers: None,
                body: None,
            },
        )
    }
}

/// What the market-data response carries.
#[derive(Clone, Copy, Debug, PartialEq, Eq, Structural)]
pub enum AbstactContent {
    News,
    MarketSentiment,
}

/// Which API generation serves a market-data path.
#[derive(Clone, Copy, Debug, PartialEq, Eq, Structural)]
pub enum ApiVersion {
    V3,
    V4,
}

/// Where one market-data operation is served and what it returns.
#[derive(Clone, Debug)]
pub struct FetchPlan {
    /// The path under the version's base URL.
    pub path: String,
    /// The API generation to call.
    pub version: ApiVersion,
    /// What the response carries.
    pub content: AbstactContent,
    /// The prefix of the derived cache key.
    pub key_prefix: String,
}

/// Whether the market-data client serves this operation.
pub open spec fn fmp_supported(ft: FetchType) -> bool {
    match ft {
        FetchType::FMPArticle => true,
        FetchType::GeneralNews => true,
        FetchType::StockNews => true,
        FetchType::StockRSS => true,
        FetchType::ForexNews => true,
        FetchType::CryptoNews => true,
        FetchType::PressReleases => true,
        FetchType::SocialSentimentHistory => true,
        FetchType::SocialSentimentTrending => true,
        FetchType::SocialSentimentChanges => true,
        _ => false,
    }
}

/// The served path, version, content kind and key prefix per operation.
pub open spec fn fmp_plan_spec(ft: FetchType) -> (Seq<char>, ApiVersion, AbstactContent, Seq<
    char,
>) {
    match ft {
        FetchType::FMPArticle => (
            "fmp/articles"@,
            ApiVersion::V3,
            AbstactContent::News,
            "fmp_articles"@,
        ),
        FetchType::GeneralNews => (
            "general_news"@,
            ApiVersion::V4,
            AbstactContent::News,
            "general_news"@,
        ),
        FetchType::StockNews => ("stock_news"@, ApiVersion::V3, AbstactContent::News, "stock_news"@),
        FetchType::StockRSS => (
            "stock-news-sentiments-rss-feed"@,
            ApiVersion::V4,
            AbstactContent::News,
            "stock_rss"@,
        ),
        FetchType::ForexNews => (
            "forex_news"@,
            ApiVersion::V4,
            AbstactContent::News,
            "forex_news"@,
        ),
        FetchType::CryptoNews => (
            "crypto_news"@,
            ApiVersion::V4,
            AbstactContent::News,
            "crypto_news"@,
        ),
        FetchType::PressReleases => (
            "press_releases"@,
            ApiVersion::V3,
            AbstactContent::News,
            "press_releases"@,
        ),
        FetchType::SocialSentimentHistory => (
            "historical/social-sentiment"@,
            ApiVersion::V4,
            AbstactContent::MarketSentiment,
            "historical_social_sentiment"@,
        ),
        FetchType::SocialSentimentTrending => (
            "social-sentiments/trending"@,
            ApiVersion::V4,
            AbstactContent::MarketSentiment,
            "trending_social_sentiment"@,
        ),
        FetchType::SocialSentimentChanges => (
            "social-sentiments/change"@,
            ApiVersion::V4,
            AbstactContent::MarketSentiment,
            "social_sentiment_changes"@,
        ),
        _ => (Seq::empty(), ApiVersion::V3, AbstactContent::News, Seq::empty()),
    }
}

/// Routes a market-data operation to its path, API generation, content kind
/// and cache-key prefix; operations this client does not serve are rejected
/// by name.
pub fn fetch_plan(ft: FetchType) -> (r: Result<FetchPlan, FMPApiError>)
    ensures
        fmp_supported(ft) ==> (r matches Ok(p) && p.path@ == fmp_plan_spec(ft).0 && p.version
            == fmp_plan_spec(ft).1 && p.content == fmp_plan_spec(ft).2 && p.key_prefix@
            == fmp_plan_spec(ft).3),
        !fmp_supported(ft) ==> (r matches Err(e) && e matches FMPApiError::TaskError(m) && m@
            == "Fetch type `"@ + ft.display_name_spec() + "` is not supported."@),
{
    match ft {
        FetchType::FMPArticle => Ok(
            FetchPlan {
                path: String::from_str("fmp/articles"),
                version: ApiVersion::V3,
                content: AbstactContent::News,
                key_prefix: String::from_str("fmp_articles"),
            },
        ),
        FetchType::GeneralNews => Ok(
            FetchPlan {
                path: String::from_str("general_news"),
                version: ApiVersion::V4,
                content: AbstactContent::News,
                key_prefix: String::from_str("general_news"),
            },
        ),
        FetchType::StockNews => Ok(
            FetchPlan {
                path: String::from_str("stock_news"),
                version: ApiVersion::V3,
                content: AbstactContent::News,
                key_prefix: String::from_str("stock_news"),
            },
        ),
        FetchType::StockRSS => Ok(
            FetchPlan {
                path: String::from_str("stock-news-sentiments-rss-feed"),
                version: ApiVersion::V4,
                content: AbstactContent::News,
                key_prefix: String::from_str("stock_rss"),
            },
        ),
        FetchType::ForexNews => Ok(
            FetchPlan {
                path: String::from_str("forex_news"),
                version: ApiVersion::V4,
                content: AbstactContent::News,
                key_prefix: String::from_str("forex_news"),
            },
        ),
        FetchType::CryptoNews => Ok(
            FetchPlan {
                path: String::from_str("crypto_news"),
                version: ApiVersion::V4,
                content: AbstactContent::News,
                key_prefix: String::from_str("crypto_news"),
            },
        ),
        FetchType::PressReleases => Ok(
            FetchPlan {
                path: String::from_str("press_releases"),
                version: ApiVersion::V3,
                content: AbstactContent::News,
                key_prefix: String::from_str("press_releases"),
            },
        ),
        FetchType::SocialSentimentHistory => Ok(
            FetchPlan {
                path: String::from_str("historical/social-sentiment"),
                version: ApiVersion::V4,
                content: AbstactContent::MarketSentiment,
                key_prefix: String::from_str("historical_social_sentiment"),
            },
        ),
        FetchType::SocialSentimentTrending => Ok(
            FetchPlan {
                path: String::from_str("social-sentiments/trending"),
                version: ApiVersion::V4,
                content: AbstactContent::MarketSentiment,
                key_prefix: String::from_str("trending_social_sentiment"),
            },
        ),
        FetchType::SocialSentimentChanges => Ok(
            FetchPlan {
                path: String::from_str("social-sentiments/change"),
                version: ApiVersion::V4,
                content: AbstactContent::MarketSentiment,
                key_prefix: String::from_str("social_sentiment_changes"),
            },
        ),
        _ => Err(
            FMPApiError::TaskError(
                String::from_str("Fetch type `").concat(ft.display_name()).concat(
                    "` is not supported.",
                ),
            ),
        ),
    }
}

/// The cache key of a market-data poll: the operation's key prefix and the
/// rendered query.
pub fn fmp_cache_key(key_prefix: &str, query: &FMPQueryParams) -> (r: String)
    ensures
        r@ == key_prefix@ + "_"@ + pairs_repr_spec(fmp_pairs_spec(*query)),
{
    match query.to_query_pairs() {
        Some(pairs) => String::from_str(key_prefix).concat("_").concat(
            pairs_repr(&pairs).as_str(),
        ),
        None => {
            proof {
                assert(pairs_repr_spec(fmp_pairs_spec(*query)) =~= Seq::<char>::empty());
            }
            String::from_str(key_prefix).concat("_")
        },
    }
}

/// Appends the credential pair the market-data endpoints expect to an
/// outbound query.
pub fn append_api_key(pairs: &mut Vec<(String, String)>, api_key: &str)
    ensures
        pairs_view(final(pairs)@) == pairs_view(old(pairs)@).push(("apikey"@, api_key@)),
{
    pairs.push((String::from_str("apikey"), String::from_str(api_key)));
    proof {
        assert(pairs_view(pairs@) =~= pairs_view(pairs@.drop_last()).push(("apikey"@, api_key@)));
    }
}

/// One poll, driven to completion: serve the fresh cached value under `key`,
/// or run the producer under the retry policy, caching the value of the
/// attempt that succeeds.  The attempt that settles the call and the number
/// of producer invocations are exactly those of the retry combinator.
#[verifier::loop_isolation(false)]
pub fn poll_with<O: FetchOperation<String, ApiError>>(
    cache: &mut TimedEntryCache,
    key: &str,
    ttl_ms: u64,
    now_ms: u64,
    policy: &TaskArgs,
    op: &mut O,
) -> (r: Result<String, ApiError>)
    requires
        old(cache).wf(),
        old(op).inv(),
        old(op).calls() + attempt_bound(*policy) <= old(op).limit(),
    ensures
        final(cache).wf(),
        final(cache).capacity() == old(cache).capacity(),
        final(op).inv(),
        final(op).limit() == old(op).limit(),
        forall|n: nat| final(op).outcome(n) == old(op).outcome(n),
        fresh_hit(old(cache).entries(), key@, ttl_ms, now_ms) ==> ({
            &&& final(op).calls() == old(op).calls()
            &&& r matches Ok(v) && v@ == entry_of(old(cache).entries(), key@).0
            &&& final(cache).entries() == promote_model(old(cache).entries(), key@)
        }),
        !fresh_hit(old(cache).entries(), key@, ttl_ms, now_ms) ==> ({
            let a = attempts_used(*old(op), old(op).calls(), attempt_bound(*policy));
            &&& final(op).calls() == old(op).calls() + a
            &&& r == old(op).outcome(old(op).calls() + a)
            &&& (r matches Ok(v) ==> final(cache).entries() == put_model(
                remove_key(old(cache).entries(), key@),
                old(cache).capacity(),
                key@,
                (v@, now_ms),
            ))
            &&& (r is Err ==> final(cache).entries() == remove_key(old(cache).entries(), key@))
        }),
{
    let ghost s0 = old(cache).entries();
    let ghost op0 = *old(op);
    let ghost base = old(op).calls();
    let ghost maxe = attempt_bound(*policy);
    let max: u32 = if policy.max_retries == 0 {
        1
    } else {
        policy.max_retries
    };
    let mut attempt: u32 = 1;
    loop
        invariant
            cache.wf(),
            cache.capacity() == old(cache).capacity(),
            op.inv(),
            op.limit() == op0.limit(),
            forall|n: nat| op.outcome(n) == op0.outcome(n),
            max as nat == maxe,
            1 <= attempt <= max,
            op.calls() == base + attempt - 1,
            forall|k: nat| 1 <= k < attempt ==> (#[trigger] op0.outcome(base + k)) is Err,
            attempt == 1 ==> cache.entries() == s0,
            attempt > 1 ==> cache.entries() == remove_key(s0, key@) && !fresh_hit(
                s0,
                key@,
                ttl_ms,
                now_ms,
            ),
        decreases max - attempt,
    {
        let ghost before = cache.entries();
        let r = fetch_or_compute(cache, key, op, ttl_ms, now_ms);
        proof {
            if attempt > 1 {
                lemma_remove_key(s0, key@);
                lemma_remove_key_noop(remove_key(s0, key@), key@);
                assert(!contains_key(before, key@));
                assert(!fresh_hit(before, key@, ttl_ms, now_ms));
            }
        }
        match r {
            Ok(v) => {
                proof {
                    if !(attempt == 1 && fresh_hit(s0, key@, ttl_ms, now_ms)) {
                        assert(op.calls() == base + attempt);
                        lemma_attempts_used_pin(op0, base, maxe, attempt as nat);
                    }
                }
                return Ok(v);
            },
            Err(e) => {
                if attempt >= max {
                    proof {
                        lemma_attempts_used_pin(op0, base, maxe, attempt as nat);
                        if attempt > 1 {
                            lemma_remove_key(s0, key@);
                            lemma_remove_key_noop(remove_key(s0, key@), key@);
                        }
                    }
                    return Err(e);
                }
                attempt = attempt + 1;
            },
        }
    }
}

} // verus!
