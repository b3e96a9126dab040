//! The crate's error type.

use vstd::prelude::*;
use crate::dashboard::{decimal, decimal_string};
use crate::text::{concat, has_prefix};
use crate::types::ApiError;

verus! {

/// `reqwest::Error`: carried through opaque, never inspected here.
#[verifier::external_type_specification]
#[verifier::external_body]
pub struct ExReqwestError(reqwest::Error);

/// `serde_json::Error`: carried through opaque, never inspected here.
#[verifier::external_type_specification]
#[verifier::external_body]
pub struct ExSerdeJsonError(serde_json::Error);

/// `std::io::Error`: carried through opaque, never inspected here.
#[verifier::external_type_specification]
#[verifier::external_body]
pub struct ExIoError(std::io::Error);

/// `std::string::FromUtf8Error`: carried through opaque, never inspected here.
#[verifier::external_type_specification]
#[verifier::external_body]
pub struct ExFromUtf8Error(std::string::FromUtf8Error);

/// All errors that can occur in the krill CLI.
#[derive(Debug)]
pub enum KrillError {
    /// HTTP request failed.
    Http(reqwest::Error),
    /// The API answered with a non-success status.
    ApiStatus { status: u16, body: String },
    /// The automation run reported a failure.
    AutomationFailed(ApiError),
    /// The event stream ended in the middle of an event.
    SseUnexpectedEnd,
    /// An event payload was not a valid event.
    SseParse { raw: String, source: serde_json::Error },
    /// JSON (de)serialisation failed.
    Json(serde_json::Error),
    /// No API key was configured.
    MissingApiKey,
    /// A target URL was rejected.
    InvalidUrl(String),
    /// I/O failure, or bytes that are not UTF-8.
    Io(std::io::Error),
}

/// `std::io::Error::new(ErrorKind::InvalidData, err)`: wraps a UTF-8 decoding
/// failure as an I/O error of kind `InvalidData`. Nothing is stated of the
/// opaque value it returns.
#[verifier::external_body]
pub(crate) fn invalid_data_error(err: std::string::FromUtf8Error) -> std::io::Error {
    std::io::Error::new(std::io::ErrorKind::InvalidData, err)
}

/// The message of an HTTP error, as `reqwest::Error` displays it. Nothing
/// is stated of the text.
#[verifier::external_body]
fn http_error_text(e: &reqwest::Error) -> String {
    e.to_string()
}

/// The message of a JSON error, as `serde_json::Error` displays it. Nothing
/// is stated of the text.
#[verifier::external_body]
fn json_error_text(e: &serde_json::Error) -> String {
    e.to_string()
}

/// The message of an I/O error, as `std::io::Error` displays it. Nothing is
/// stated of the text.
#[verifier::external_body]
fn io_error_text(e: &std::io::Error) -> String {
    e.to_string()
}

impl KrillError {
    /// The message shown for the error: a fixed text, or a fixed prefix
    /// followed by what is known of the cause.
    pub fn message(&self) -> (r: String)
        ensures
            match self {
                KrillError::Http(_) => has_prefix(r@, "HTTP request failed: "@),
                KrillError::ApiStatus { status, body } => r@ == "API error ("@ + decimal(
                    *status as nat,
                ) + "): "@ + body@,
                KrillError::AutomationFailed(e) => r@ == "Automation failed: "@ + e.message@,
                KrillError::SseUnexpectedEnd => r@ == "SSE stream ended unexpectedly"@,
                KrillError::SseParse { .. } => has_prefix(r@, "Failed to parse SSE event: "@),
                KrillError::Json(_) => has_prefix(r@, "JSON error: "@),
                KrillError::MissingApiKey => r@
                    == "Missing API key: set TINYFISH_API_KEY environment variable"@,
                KrillError::InvalidUrl(u) => r@ == "Invalid URL: "@ + u@,
                KrillError::Io(_) => has_prefix(r@, "I/O error: "@),
            },
    {
        let r = match self {
            KrillError::Http(e) => concat("HTTP request failed: ", http_error_text(e).as_str()),
            KrillError::ApiStatus { status, body } => {
                let mut r = concat("API error (", decimal_string(*status as u64).as_str());
                r.append("): ");
                r.append(body.as_str());
                r
            },
            KrillError::AutomationFailed(e) => concat("Automation failed: ", e.message.as_str()),
            KrillError::SseUnexpectedEnd => "SSE stream ended unexpectedly".to_owned(),
            KrillError::SseParse { source, .. } => concat(
                "Failed to parse SSE event: ",
                json_error_text(source).as_str(),
            ),
            KrillError::Json(e) => concat("JSON error: ", json_error_text(e).as_str()),
            KrillError::MissingApiKey => "Missing API key: set TINYFISH_API_KEY environment variable".to_owned(),
            KrillError::InvalidUrl(u) => concat("Invalid URL: ", u.as_str()),
            KrillError::Io(e) => concat("I/O error: ", io_error_text(e).as_str()),
        };
        proof {
            reveal_strlit("HTTP request failed: ");
            reveal_strlit("Failed to parse SSE event: ");
            reveal_strlit("JSON error: ");
            reveal_strlit("I/O error: ");
        }
        assert(match self {
            KrillError::Http(_) => r@.take("HTTP request failed: "@.len() as int) =~= "HTTP request failed: "@,
            KrillError::SseParse { .. } => r@.take("Failed to parse SSE event: "@.len() as int) =~= "Failed to parse SSE event: "@,
            KrillError::Json(_) => r@.take("JSON error: "@.len() as int) =~= "JSON error: "@,
            KrillError::Io(_) => r@.take("I/O error: "@.len() as int) =~= "I/O error: "@,
            _ => true,
        });
        r
    }
}

} // verus!
