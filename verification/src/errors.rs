//! Error kinds for the polling layer.
//!
//! `AbstractApiError` names the class of a failure; `ApiError` carries the
//! concrete details (message, HTTP status, response headers and body, all as
//! plain values).  Every non-success HTTP status maps to exactly one class.

use vstd::prelude::*;

verus! {

use vstd::string::StringExecFns;

/// The abstract class of an API failure.
#[derive(Debug)]
pub enum AbstractApiError {
    /// Malformed outbound request, or a 4xx status other than 429.
    RequestError,
    /// Rate limit exceeded (HTTP 429).
    RateLimitError,
    /// Server-side failure (HTTP 5xx).
    ServerError,
    /// Timeout or connection failure.
    NetworkError,
    /// Any other non-success status.
    UnhandledError,
}

/// A concrete API failure, with whatever details the response carried.
#[derive(Debug, PartialEq)]
pub enum ApiError {
    /// A request error with optional status, headers and body details.
    RequestError {
        message: String,
        status: Option<u16>,
        headers: Option<Vec<(String, String)>>,
        body: Option<String>,
    },
    /// A rate limit error with optional status, headers and body details.
    RateLimitError {
        message: String,
        status: Option<u16>,
        headers: Option<Vec<(String, String)>>,
        body: Option<String>,
    },
    /// A server error with optional status, headers and body details.
    ServerError {
        message: String,
        status: Option<u16>,
        headers: Option<Vec<(String, String)>>,
        body: Option<String>,
    },
    /// A failure to decode a response body.
    JsonParseError { message: String },
    /// A network error with optional status, headers and body details.
    NetworkError {
        message: String,
        status: Option<u16>,
        headers: Option<Vec<(String, String)>>,
        body: Option<String>,
    },
    /// The routing field naming an endpoint was missing.
    NoEndpointProvided,
    /// An unhandled error with optional status, headers and body details.
    UnhandledError {
        message: String,
        status: Option<u16>,
        headers: Option<Vec<(String, String)>>,
        body: Option<String>,
    },
}

impl ApiError {
    /// The failure rendered as a label followed by its message.
    pub open spec fn describe_spec(self) -> Seq<char> {
        match self {
            ApiError::RequestError { message, .. } => "Request Error: "@ + message@,
            ApiError::RateLimitError { message, .. } => "Rate Limit Error: "@ + message@,
            ApiError::ServerError { message, .. } => "Server Error: "@ + message@,
            ApiError::JsonParseError { message } => "JSON Parse Error: "@ + message@,
            ApiError::NetworkError { message, .. } => "Network Error: "@ + message@,
            ApiError::NoEndpointProvided => "No endpoint provided"@,
            ApiError::UnhandledError { message, .. } => "Unhandled Error: "@ + message@,
        }
    }

    /// A human-readable description of the failure.
    pub fn describe(&self) -> (r: String)
        ensures
            r@ == self.describe_spec(),
    {
        match self {
            ApiError::RequestError { message, .. } => String::from_str("Request Error: ").concat(
                message.as_str(),
            ),
            ApiError::RateLimitError { message, .. } => String::from_str(
                "Rate Limit Error: ",
            ).concat(message.as_str()),
            ApiError::ServerError { message, .. } => String::from_str("Server Error: ").concat(
                message.as_str(),
            ),
            ApiError::JsonParseError { message } => String::from_str("JSON Parse Error: ").concat(
                message.as_str(),
            ),
            ApiError::NetworkError { message, .. } => String::from_str("Network Error: ").concat(
                message.as_str(),
            ),
            ApiError::NoEndpointProvided => String::from_str("No endpoint provided"),
            ApiError::UnhandledError { message, .. } => String::from_str("Unhandled Error: ").concat(
                message.as_str(),
            ),
        }
    }
}

/// The class a non-success HTTP status falls in: 429 is a rate limit, 5xx a
/// server error, everything else that is not 200 is unhandled.
pub open spec fn status_class_spec(status: u16) -> Option<AbstractApiError> {
    if status == 429 {
        Some(AbstractApiError::RateLimitError)
    } else if 500 <= status < 600 {
        Some(AbstractApiError::ServerError)
    } else if status != 200 {
        Some(AbstractApiError::UnhandledError)
    } else {
        None
    }
}

/// Classifies an HTTP status code; `None` means success.
pub fn classify_status(status: u16) -> (r: Option<AbstractApiError>)
    ensures
        r == status_class_spec(status),
{
    if status == 429 {
        Some(AbstractApiError::RateLimitError)
    } else if 500 <= status && status < 600 {
        Some(AbstractApiError::ServerError)
    } else if status != 200 {
        Some(AbstractApiError::UnhandledError)
    } else {
        None
    }
}

/// Wraps response details in the error variant matching the abstract class.
/// A request error is never built from a received response, so that class is
/// left out.
pub fn parse_resp_error(
    message: String,
    status: u16,
    headers: Vec<(String, String)>,
    body: String,
    kind: AbstractApiError,
) -> (r: ApiError)
    requires
        !(kind is RequestError),
    ensures
        r == (match kind {
            AbstractApiError::RateLimitError => ApiError::RateLimitError {
                message,
                status: Some(status),
                headers: Some(headers),
                body: Some(body),
            },
            AbstractApiError::NetworkError => ApiError::NetworkError {
                message,
                status: Some(status),
                headers: Some(headers),
                body: Some(body),
            },
            AbstractApiError::ServerError => ApiError::ServerError {
                message,
                status: Some(status),
                headers: Some(headers),
                body: Some(body),
            },
            AbstractApiError::UnhandledError => ApiError::UnhandledError {
                message,
                status: Some(status),
                headers: Some(headers),
                body: Some(body),
            },
            AbstractApiError::RequestError => r,
        }),
{
    match kind {
        AbstractApiError::RateLimitError => ApiError::RateLimitError {
            message,
            status: Some(status),
            headers: Some(headers),
            body: Some(body),
        },
        AbstractApiError::NetworkError => ApiError::NetworkError {
            message,
            status: Some(status),
            headers: Some(headers),
            body: Some(body),
        },
        AbstractApiError::ServerError => ApiError::ServerError {
            message,
            status: Some(status),
            headers: Some(headers),
            body: Some(body),
        },
        AbstractApiError::UnhandledError => ApiError::UnhandledError {
            message,
            status: Some(status),
            headers: Some(headers),
            body: Some(body),
        },
        AbstractApiError::RequestError => ApiError::RequestError {
            message,
            status: None,
            headers: None,
            body: None,
        },
    }
}

/// The error the shared poll flow reports for a response, from its status and
/// raw details: `None` exactly on success.
pub fn error_from_response(status: u16, headers: Vec<(String, String)>, body: String) -> (r: Option<
    ApiError,
>)
    ensures
        status == 200 <==> r is None,
        status == 429 ==> (r matches Some(e) && e matches ApiError::RateLimitError {
            message,
            status: st,
            headers: h,
            body: b,
        } && message@ == "Rate limit exceeded."@ && st == Some(status) && h == Some(headers) && b
            == Some(body)),
        500 <= status < 600 ==> (r matches Some(e) && e matches ApiError::ServerError {
            message,
            status: st,
            headers: h,
            body: b,
        } && message@ == "Internal server error."@ && st == Some(status) && h == Some(headers) && b
            == Some(body)),
        status != 200 && status != 429 && !(500 <= status < 600) ==> (r matches Some(e) && e matches
            ApiError::UnhandledError {
            message,
            status: st,
            headers: h,
            body: b,
        } && message@ == "Unhandled error."@ && st == Some(status) && h == Some(headers) && b
            == Some(body)),
{
    match classify_status(status) {
        None => None,
        Some(kind) => {
            let message = match &kind {
                AbstractApiError::RateLimitError => String::from_str("Rate limit exceeded."),
                AbstractApiError::ServerError => String::from_str("Internal server error."),
                _ => String::from_str("Unhandled error."),
            };
            Some(parse_resp_error(message, status, headers, body, kind))
        },
    }
}

/// Failures of the market-data provider flow that wraps plain HTTP calls.
#[derive(Debug)]
pub enum FMPApiError {
    /// Fetching data failed.
    FetchError(String),
    /// The task around the fetch failed.
    TaskError(String),
    /// The fetched data could not be parsed.
    ParseError(String),
}

impl FMPApiError {
    /// The failure rendered as its message behind a fixed label.
    pub open spec fn describe_spec(self) -> Seq<char> {
        match self {
            FMPApiError::FetchError(m) => "Failed to fetch data: "@ + m@,
            FMPApiError::TaskError(m) => "Task encountered an error: "@ + m@,
            FMPApiError::ParseError(m) => "Failed to parse data: "@ + m@,
        }
    }

    /// A human-readable description of the failure.
    pub fn describe(&self) -> (r: String)
        ensures
            r@ == self.describe_spec(),
    {
        match self {
            FMPApiError::FetchError(m) => String::from_str("Failed to fetch data: ").concat(
                m.as_str(),
            ),
            FMPApiError::TaskError(m) => String::from_str("Task encountered an error: ").concat(
                m.as_str(),
            ),
            FMPApiError::ParseError(m) => String::from_str("Failed to parse data: ").concat(
                m.as_str(),
            ),
        }
    }
}

/// Failures of persistence operations.
#[derive(Debug)]
pub enum OpError {
    FailedConnection { message: String },
    InvalidQuery { message: String },
    InsertionError { message: String },
    UpdateError { message: String },
    DeletionError { message: String },
    SearchError { message: String },
}

impl OpError {
    /// The failure rendered as its message behind a fixed label.
    pub open spec fn describe_spec(self) -> Seq<char> {
        match self {
            OpError::FailedConnection { message } => "Failed to connect to the store | Error: "@
                + message@,
            OpError::InvalidQuery { message } => "Query was Invalid. Could not process it | Error: "@
                + message@,
            OpError::InsertionError { message } => "Failed to insert into collection | Error: "@
                + message@,
            OpError::UpdateError { message } => "Failed to update collection | Error: "@ + message@,
            OpError::DeletionError { message } => "Failed to delete from collection | Error: "@
                + message@,
            OpError::SearchError { message } => "Invalid search arguments | Error: "@ + message@,
        }
    }

    /// A human-readable description of the failure.
    pub fn describe(&self) -> (r: String)
        ensures
            r@ == self.describe_spec(),
    {
        match self {
            OpError::FailedConnection { message } => String::from_str(
                "Failed to connect to the store | Error: ",
            ).concat(message.as_str()),
            OpError::InvalidQuery { message } => String::from_str(
                "Query was Invalid. Could not process it | Error: ",
            ).concat(message.as_str()),
            OpError::InsertionError { message } => String::from_str(
                "Failed to insert into collection | Error: ",
            ).concat(message.as_str()),
            OpError::UpdateError { message } => String::from_str(
                "Failed to update collection | Error: ",
            ).concat(message.as_str()),
            OpError::DeletionError { message } => String::from_str(
                "Failed to delete from collection | Error: ",
            ).concat(message.as_str()),
            OpError::SearchError { message } => String::from_str(
                "Invalid search arguments | Error: ",
            ).concat(message.as_str()),
        }
    }
}

/// Failure of one whole news-fetching cycle.
#[derive(Debug, Clone)]
pub struct FetchNewsError {
    pub message: String,
}

} // verus!
