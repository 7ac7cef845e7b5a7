//! Static configuration carried by the shared process state.
//!
//! The values are plain data; reading them from a configuration file is left
//! to the surrounding program.

use vstd::prelude::*;

verus! {

use vstd::string::{StringExecFns, StrSliceExecFns};

/// Where aggregated results are persisted.
#[derive(Clone, Debug)]
pub struct DatabaseConfig {
    pub uri: String,
    pub name: String,
    pub database_name: String,
    pub collection_name: String,
}

/// Where the command socket listens.
#[derive(Clone, Debug)]
pub struct ServerConfig {
    pub host: String,
    pub port: u16,
}

/// How verbosely the process logs.
#[derive(Clone, Debug)]
pub struct LoggingConfig {
    pub level: String,
}

/// The credential for each external provider.
#[derive(Clone, Debug)]
pub struct ApiConfig {
    pub alphavantage: String,
    pub marketaux: String,
    pub fmp: String,
}

/// How far back each polling cycle reaches.
#[derive(Clone, Debug)]
pub struct RequestArgs {
    pub delay_secs: i64,
}

/// The retry policy: attempt bound and backoff delays in milliseconds.
#[derive(Clone, Debug)]
pub struct TaskArgs {
    pub base_delay_ms: u32,
    pub max_delay_ms: u32,
    pub max_retries: u32,
}

/// The whole static configuration.
#[derive(Clone, Debug)]
pub struct ValueConfig {
    pub database: DatabaseConfig,
    pub server: ServerConfig,
    pub logging: LoggingConfig,
    pub api: ApiConfig,
    pub request: RequestArgs,
    pub task: TaskArgs,
}

/// The first four characters of a credential, or nothing when it is shorter.
pub open spec fn key_prefix_spec(s: Seq<char>) -> Seq<char> {
    if s.len() >= 4 {
        s.subrange(0, 4)
    } else {
        Seq::empty()
    }
}

/// The rendering of the configuration that hides the credentials: only the
/// first four characters of each API key are shown.
pub open spec fn masked_summary_spec(c: ValueConfig) -> Seq<char> {
    "MarketAux API Key: "@ + key_prefix_spec(c.api.marketaux@) + "*****, AlphavantageAPI: "@
        + key_prefix_spec(c.api.alphavantage@) + "*****"@
}

impl ValueConfig {
    /// Renders the configuration without giving the credentials away.
    pub fn masked_summary(&self) -> (r: String)
        ensures
            r@ == masked_summary_spec(*self),
    {
        let ma = key_prefix(self.api.marketaux.as_str());
        let av = key_prefix(self.api.alphavantage.as_str());
        String::from_str("MarketAux API Key: ").concat(ma.as_str()).concat(
            "*****, AlphavantageAPI: ",
        ).concat(av.as_str()).concat("*****")
    }
}

/// The first four characters of a credential, or nothing when it is shorter.
fn key_prefix(s: &str) -> (r: String)
    ensures
        r@ == key_prefix_spec(s@),
{
    let n = s.unicode_len();
    if n >= 4 {
        String::from_str(s.substring_char(0, 4))
    } else {
        String::new()
    }
}

} // verus!
