//! The failures that an operation of the client can report.

use vstd::prelude::*;
use vstd::string::*;
use crate::text::{decimal, decimal_text, prefixed};

verus! {

#[verifier::external_type_specification]
#[verifier::external_body]
pub struct ExTransportError(reqwest::Error);

/// The closed set of failures shared by all operations.
#[derive(Debug)]
pub enum WalrusError {
    /// The transport failed before a complete reply arrived.
    HttpRequest(reqwest::Error),
    /// A base URL, or a URL built from path segments, is not a valid URL.
    InvalidUrl(String),
    /// The service answered with a failure status; the text is its diagnostic.
    ApiError(u16, String),
    /// A body could not be decoded into the expected shape, or an outgoing
    /// structure could not be serialised.
    ParseError(String),
    /// A parameter supplied by the caller is not acceptable.
    InvalidParameter(String),
    /// A condition that no other variant classifies.
    Unknown(String),
}

/// The mathematical content of a [`WalrusError`].
pub ghost enum ErrorView {
    HttpRequest(reqwest::Error),
    InvalidUrl(Seq<char>),
    ApiError(u16, Seq<char>),
    ParseError(Seq<char>),
    InvalidParameter(Seq<char>),
    Unknown(Seq<char>),
}

impl View for WalrusError {
    type V = ErrorView;

    open spec fn view(&self) -> ErrorView {
        match self {
            WalrusError::HttpRequest(cause) => ErrorView::HttpRequest(*cause),
            WalrusError::InvalidUrl(detail) => ErrorView::InvalidUrl(detail@),
            WalrusError::ApiError(status, detail) => ErrorView::ApiError(*status, detail@),
            WalrusError::ParseError(detail) => ErrorView::ParseError(detail@),
            WalrusError::InvalidParameter(detail) => ErrorView::InvalidParameter(detail@),
            WalrusError::Unknown(detail) => ErrorView::Unknown(detail@),
        }
    }
}

impl DeepView for WalrusError {
    type V = ErrorView;

    open spec fn deep_view(&self) -> ErrorView {
        self@
    }
}

/// The mathematical content of what an operation returns: the content of its
/// value, or of its failure.
pub open spec fn outcome_view<T: DeepView>(outcome: Result<T, WalrusError>) -> Result<
    T::V,
    ErrorView,
> {
    match outcome {
        Ok(value) => Ok(value.deep_view()),
        Err(failure) => Err(failure@),
    }
}

/// What `reqwest::Error` prints of itself through `Display`.
pub uninterp spec fn transport_error_text(cause: reqwest::Error) -> Seq<char>;

/// `Display` of `reqwest::Error`, through `ToString::to_string`: the text that
/// the transport error prints of itself.
#[verifier::external_body]
fn transport_error_message(cause: &reqwest::Error) -> (message: String)
    ensures
        message@ == transport_error_text(*cause),
{
    cause.to_string()
}

impl ErrorView {
    /// The line that describes the failure to a reader.
    pub open spec fn text(self) -> Seq<char> {
        match self {
            ErrorView::HttpRequest(cause) => "HTTP request failed: "@ + transport_error_text(cause),
            ErrorView::InvalidUrl(detail) => "Invalid URL: "@ + detail,
            ErrorView::ApiError(status, detail) => "API error: "@ + decimal_text(status as nat)
                + " - "@ + detail,
            ErrorView::ParseError(detail) => "Failed to parse response: "@ + detail,
            ErrorView::InvalidParameter(detail) => "Invalid parameter: "@ + detail,
            ErrorView::Unknown(detail) => "Unknown error: "@ + detail,
        }
    }
}

impl WalrusError {
    /// Describes the failure in one line.
    pub fn message(&self) -> (line: String)
        ensures
            line@ == self@.text(),
    {
        match self {
            WalrusError::HttpRequest(cause) => {
                let detail = transport_error_message(cause);
                prefixed("HTTP request failed: ", detail.as_str())
            },
            WalrusError::InvalidUrl(detail) => prefixed("Invalid URL: ", detail.as_str()),
            WalrusError::ApiError(status, detail) => {
                let code = decimal(*status as u64);
                let head = String::from_str("API error: ").concat(code.as_str()).concat(" - ");
                let line = head.concat(detail.as_str());
                line
            },
            WalrusError::ParseError(detail) => prefixed("Failed to parse response: ", detail.as_str()),
            WalrusError::InvalidParameter(detail) => prefixed("Invalid parameter: ", detail.as_str()),
            WalrusError::Unknown(detail) => prefixed("Unknown error: ", detail.as_str()),
        }
    }
}

} // verus!
