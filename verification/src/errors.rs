//! The error taxonomy of the gateway.

use vstd::prelude::*;
use vstd::string::StringExecFns;

verus! {

/// Why a request could not be answered.
#[derive(Debug, Clone, PartialEq, Eq)]
pub enum ApiError {
    /// The upstream call failed before any response arrived.
    ReqwestError(String),
    /// The upstream body was not a JSON document.
    JsonError(String),
    /// The expected field was absent, or a parameter was not accepted.
    NotFound(String),
    /// The upstream answered with a status outside the success range.
    ServiceError(String),
}

/// The mathematical value of an [`ApiError`]: its kind and its detail text.
pub enum ApiErrorView {
    ReqwestError(Seq<char>),
    JsonError(Seq<char>),
    NotFound(Seq<char>),
    ServiceError(Seq<char>),
}

impl View for ApiError {
    type V = ApiErrorView;

    open spec fn view(&self) -> ApiErrorView {
        match *self {
            ApiError::ReqwestError(detail) => ApiErrorView::ReqwestError(detail@),
            ApiError::JsonError(detail) => ApiErrorView::JsonError(detail@),
            ApiError::NotFound(detail) => ApiErrorView::NotFound(detail@),
            ApiError::ServiceError(detail) => ApiErrorView::ServiceError(detail@),
        }
    }
}

impl ApiErrorView {
    /// The detail text carried by the error.
    pub open spec fn detail(self) -> Seq<char> {
        match self {
            ApiErrorView::ReqwestError(detail) => detail,
            ApiErrorView::JsonError(detail) => detail,
            ApiErrorView::NotFound(detail) => detail,
            ApiErrorView::ServiceError(detail) => detail,
        }
    }

    /// The fixed words that introduce each kind of error in its message.
    pub open spec fn prefix(self) -> Seq<char> {
        match self {
            ApiErrorView::ReqwestError(_) => "Request error: "@,
            ApiErrorView::JsonError(_) => "JSON parse error: "@,
            ApiErrorView::NotFound(_) => "Resource not found: "@,
            ApiErrorView::ServiceError(_) => "Service error: "@,
        }
    }

    /// The human-readable message: the prefix of the kind, then the detail.
    pub open spec fn message(self) -> Seq<char> {
        self.prefix() + self.detail()
    }

    /// The HTTP status with which the error is reported: 404 for a missing
    /// resource, 500 for everything else.
    pub open spec fn status_code(self) -> u16 {
        match self {
            ApiErrorView::NotFound(_) => 404,
            _ => 500,
        }
    }
}

/// The view of a result whose error is an [`ApiError`].
pub open spec fn result_view<T>(result: Result<T, ApiError>) -> Result<T, ApiErrorView> {
    match result {
        Ok(value) => Ok(value),
        Err(error) => Err(error@),
    }
}

/// The error type of the JSON parser.
#[verifier::external_type_specification]
#[verifier::external_body]
pub struct ExJsonParseError(serde_json::Error);

/// The text that the JSON parser's error displays as. For an error that the
/// parser made of a text this is the parser's own wording and the place in
/// the text; an error that wraps a failure of the operating system displays
/// that system's words, and no such error arises here.
pub uninterp spec fn json_error_text(error: serde_json::Error) -> String;

/// `serde_json::Error`'s `Display`, through `to_string`: the result is the
/// text that the error displays as, which depends on the error alone.
#[verifier::external_body]
fn describe_json_error(error: &serde_json::Error) -> (text: String)
    ensures
        text == json_error_text(*error),
{
    error.to_string()
}

impl From<serde_json::Error> for ApiError {
    fn from(error: serde_json::Error) -> (converted: ApiError) {
        ApiError::JsonError(describe_json_error(&error))
    }
}

impl vstd::std_specs::convert::FromSpecImpl<serde_json::Error> for ApiError {
    open spec fn obeys_from_spec() -> bool {
        true
    }

    open spec fn from_spec(error: serde_json::Error) -> ApiError {
        ApiError::JsonError(json_error_text(error))
    }
}

impl ApiError {
    /// The human-readable message of the error.
    pub fn message(&self) -> (text: String)
        ensures
            text@ == self@.message(),
    {
        match self {
            ApiError::ReqwestError(detail) => String::from_str("Request error: ").concat(
                detail.as_str(),
            ),
            ApiError::JsonError(detail) => String::from_str("JSON parse error: ").concat(
                detail.as_str(),
            ),
            ApiError::NotFound(detail) => String::from_str("Resource not found: ").concat(
                detail.as_str(),
            ),
            ApiError::ServiceError(detail) => String::from_str("Service error: ").concat(
                detail.as_str(),
            ),
        }
    }

    /// The HTTP status with which the error is reported.
    pub fn status_code(&self) -> (code: u16)
        ensures
            code == self@.status_code(),
            code == 404 || code == 500,
            code == 404 <==> self@ is NotFound,
    {
        match self {
            ApiError::NotFound(_) => 404,
            _ => 500,
        }
    }
}

} // verus!
