//! The failure taxonomy shared by the whole library.

use crate::text::join;
use vstd::prelude::*;
use vstd::std_specs::convert::FromSpecImpl;

verus! {

/// The failure that the JSON codec reports. Nothing is known of its inside.
#[verifier::external_type_specification]
#[verifier::external_body]
pub struct ExJsonFailure(serde_json::Error);

/// The failure that the HTTP transport reports. Nothing is known of its
/// inside.
#[verifier::external_type_specification]
#[verifier::external_body]
pub struct ExTransportFailure(reqwest::Error);

/// The diagnostic of a failure of the JSON codec, as `serde_json::Error`
/// displays it. Nothing is claimed of the text.
#[verifier::external_body]
fn json_diagnostic(failure: &serde_json::Error) -> (text: String) {
    failure.to_string()
}

/// The diagnostic of a failure of the transport, as `reqwest::Error`
/// displays it. Nothing is claimed of the text.
#[verifier::external_body]
fn transport_diagnostic(failure: &reqwest::Error) -> (text: String) {
    failure.to_string()
}

/// What can go wrong while serving a tool call.
///
/// Failures that originate in the transport or in the JSON codec are kept as
/// the text those layers reported.
#[derive(Debug, Clone, PartialEq, Eq)]
pub enum DatadogError {
    /// A non-success response outside the special cases below.
    ApiError(String),
    /// The upstream API rejected the credentials.
    AuthError(String),
    /// A time expression could not be understood.
    DateParseError(String),
    /// The transport failed before a usable response arrived.
    NetworkError(String),
    /// A JSON document could not be read or written.
    JsonError(String),
    /// A tool was called with unusable arguments.
    InvalidInput(String),
    /// The upstream API asked the caller to slow down.
    RateLimitError,
    /// The upstream API gave up on the request.
    TimeoutError,
}

/// The mathematical value of a [`DatadogError`].
pub enum DatadogErrorView {
    ApiError(Seq<char>),
    AuthError(Seq<char>),
    DateParseError(Seq<char>),
    NetworkError(Seq<char>),
    JsonError(Seq<char>),
    InvalidInput(Seq<char>),
    RateLimitError,
    TimeoutError,
}

impl View for DatadogError {
    type V = DatadogErrorView;

    open spec fn view(&self) -> DatadogErrorView {
        match self {
            DatadogError::ApiError(detail) => DatadogErrorView::ApiError(detail@),
            DatadogError::AuthError(detail) => DatadogErrorView::AuthError(detail@),
            DatadogError::DateParseError(detail) => DatadogErrorView::DateParseError(detail@),
            DatadogError::NetworkError(detail) => DatadogErrorView::NetworkError(detail@),
            DatadogError::JsonError(detail) => DatadogErrorView::JsonError(detail@),
            DatadogError::InvalidInput(detail) => DatadogErrorView::InvalidInput(detail@),
            DatadogError::RateLimitError => DatadogErrorView::RateLimitError,
            DatadogError::TimeoutError => DatadogErrorView::TimeoutError,
        }
    }
}

impl DatadogError {
    /// The human-readable description of the failure.
    pub open spec fn message_text(&self) -> Seq<char> {
        match self {
            DatadogError::ApiError(detail) => "API request failed: "@ + detail@,
            DatadogError::AuthError(detail) => "Authentication failed: "@ + detail@,
            DatadogError::DateParseError(detail) => "Invalid date format: "@ + detail@,
            DatadogError::NetworkError(detail) => "Network error: "@ + detail@,
            DatadogError::JsonError(detail) => "JSON parsing error: "@ + detail@,
            DatadogError::InvalidInput(detail) => "Invalid input: "@ + detail@,
            DatadogError::RateLimitError => "Rate limit exceeded"@,
            DatadogError::TimeoutError => "Timeout occurred"@,
        }
    }

    /// Renders the failure for a human reader.
    pub fn message(&self) -> (text: String)
        ensures
            text@ == self.message_text(),
    {
        match self {
            DatadogError::ApiError(detail) => join("API request failed: ", detail.as_str()),
            DatadogError::AuthError(detail) => join("Authentication failed: ", detail.as_str()),
            DatadogError::DateParseError(detail) => join(
                "Invalid date format: ",
                detail.as_str(),
            ),
            DatadogError::NetworkError(detail) => join("Network error: ", detail.as_str()),
            DatadogError::JsonError(detail) => join("JSON parsing error: ", detail.as_str()),
            DatadogError::InvalidInput(detail) => join("Invalid input: ", detail.as_str()),
            DatadogError::RateLimitError => "Rate limit exceeded".to_string(),
            DatadogError::TimeoutError => "Timeout occurred".to_string(),
        }
    }
}

impl From<serde_json::Error> for DatadogError {
    /// A failure of the JSON codec, kept as the diagnostic it displays.
    fn from(failure: serde_json::Error) -> (kept: DatadogError)
        ensures
            kept is JsonError,
    {
        DatadogError::JsonError(json_diagnostic(&failure))
    }
}

impl FromSpecImpl<serde_json::Error> for DatadogError {
    open spec fn obeys_from_spec() -> bool {
        false
    }

    open spec fn from_spec(failure: serde_json::Error) -> DatadogError {
        arbitrary()
    }
}

impl From<reqwest::Error> for DatadogError {
    /// A failure of the transport, kept as the diagnostic it displays.
    fn from(failure: reqwest::Error) -> (kept: DatadogError)
        ensures
            kept is NetworkError,
    {
        DatadogError::NetworkError(transport_diagnostic(&failure))
    }
}

impl FromSpecImpl<reqwest::Error> for DatadogError {
    open spec fn obeys_from_spec() -> bool {
        false
    }

    open spec fn from_spec(failure: reqwest::Error) -> DatadogError {
        arbitrary()
    }
}

} // verus!
