//! The failures a request can end in, and how each is shown to the client.

use vstd::prelude::*;

use crate::status::{BAD_REQUEST, INTERNAL_SERVER_ERROR, NOT_FOUND};

verus! {

/// A failed request. Every variant carries a message for the server's log;
/// `Database` and `Internal` are kept for a persistence layer and are not
/// produced by the in-memory repositories.
#[derive(Debug, PartialEq, Eq)]
pub enum ApiError {
    NotFound(String),
    BadRequest(String),
    InvalidUuid(String),
    Database(String),
    Internal(String),
}

/// An `ApiError` with its message as a sequence of characters.
pub enum ApiErrorView {
    NotFound(Seq<char>),
    BadRequest(Seq<char>),
    InvalidUuid(Seq<char>),
    Database(Seq<char>),
    Internal(Seq<char>),
}

impl View for ApiError {
    type V = ApiErrorView;

    open spec fn view(&self) -> ApiErrorView {
        match self {
            ApiError::NotFound(msg) => ApiErrorView::NotFound(msg@),
            ApiError::BadRequest(msg) => ApiErrorView::BadRequest(msg@),
            ApiError::InvalidUuid(msg) => ApiErrorView::InvalidUuid(msg@),
            ApiError::Database(msg) => ApiErrorView::Database(msg@),
            ApiError::Internal(msg) => ApiErrorView::Internal(msg@),
        }
    }
}

/// The error that every malformed identifier is answered with.
pub open spec fn invalid_id_error() -> ApiErrorView {
    ApiErrorView::InvalidUuid("Invalid UUID format"@)
}

/// The status code that an error is answered with.
pub open spec fn error_status(e: ApiErrorView) -> u16 {
    match e {
        ApiErrorView::NotFound(_) => NOT_FOUND,
        ApiErrorView::BadRequest(_) => BAD_REQUEST,
        ApiErrorView::InvalidUuid(_) => BAD_REQUEST,
        ApiErrorView::Database(_) => INTERNAL_SERVER_ERROR,
        ApiErrorView::Internal(_) => INTERNAL_SERVER_ERROR,
    }
}

/// The name of an error's kind, as the client reads it.
pub open spec fn error_kind(e: ApiErrorView) -> Seq<char> {
    match e {
        ApiErrorView::NotFound(_) => "NotFound"@,
        ApiErrorView::BadRequest(_) => "BadRequest"@,
        ApiErrorView::InvalidUuid(_) => "InvalidUuid"@,
        ApiErrorView::Database(_) => "DatabaseError"@,
        ApiErrorView::Internal(_) => "InternalError"@,
    }
}

/// The message that the client reads: the error's own message, but for the
/// two server-side kinds, whose detail stays on the server.
pub open spec fn client_message(e: ApiErrorView) -> Seq<char> {
    match e {
        ApiErrorView::NotFound(msg) => msg,
        ApiErrorView::BadRequest(msg) => msg,
        ApiErrorView::InvalidUuid(msg) => msg,
        ApiErrorView::Database(_) => "Internal server error"@,
        ApiErrorView::Internal(_) => "Internal server error"@,
    }
}

/// The body of an error response.
#[derive(Debug, PartialEq, Eq)]
pub struct ErrorBody {
    pub error: String,
    pub message: String,
}

/// An `ErrorBody` as sequences of characters.
pub struct ErrorBodyView {
    pub error: Seq<char>,
    pub message: Seq<char>,
}

impl View for ErrorBody {
    type V = ErrorBodyView;

    open spec fn view(&self) -> ErrorBodyView {
        ErrorBodyView { error: self.error@, message: self.message@ }
    }
}

impl ApiError {
    pub fn not_found(resource: &str) -> (e: Self)
        ensures
            e@ == ApiErrorView::NotFound(resource@),
    {
        ApiError::NotFound(String::from_str(resource))
    }

    pub fn bad_request(msg: &str) -> (e: Self)
        ensures
            e@ == ApiErrorView::BadRequest(msg@),
    {
        ApiError::BadRequest(String::from_str(msg))
    }

    pub fn invalid_uuid() -> (e: Self)
        ensures
            e@ == invalid_id_error(),
    {
        ApiError::InvalidUuid(String::from_str("Invalid UUID format"))
    }

    /// The status code and body that answer a request which ended in this
    /// error.
    pub fn into_response(self) -> (response: (u16, ErrorBody))
        ensures
            response.0 == error_status(self@),
            response.1@.error == error_kind(self@),
            response.1@.message == client_message(self@),
    {
        let (status, error_type, message) = match self {
            ApiError::NotFound(msg) => (NOT_FOUND, "NotFound", msg),
            ApiError::BadRequest(msg) => (BAD_REQUEST, "BadRequest", msg),
            ApiError::InvalidUuid(msg) => (BAD_REQUEST, "InvalidUuid", msg),
            ApiError::Database(_) => (
                INTERNAL_SERVER_ERROR,
                "DatabaseError",
                String::from_str("Internal server error"),
            ),
            ApiError::Internal(_) => (
                INTERNAL_SERVER_ERROR,
                "InternalError",
                String::from_str("Internal server error"),
            ),
        };
        (status, ErrorBody { error: String::from_str(error_type), message })
    }
}

} // verus!
