//! The ways a request can fail, and how each failure is reported.
//!
//! The set of failures is closed. One place maps each of them to its status
//! code and to the message that the error body carries.

use vstd::prelude::*;
use vstd::string::*;

verus! {

/// Status of a request that was refused for what it asked.
pub const STATUS_BAD_REQUEST: u16 = 400;

/// Status of a request for a product that the table does not hold.
pub const STATUS_NOT_FOUND: u16 = 404;

/// Status of a request that failed on the server's side.
pub const STATUS_INTERNAL_SERVER_ERROR: u16 = 500;

/// A failed request.
#[derive(Debug)]
pub enum ApiError {
    /// The storage engine failed; the text is the cause it gave.
    Database(String),
    /// No product has the requested identifier.
    NotFound,
    /// The request broke a rule; the text says which.
    BadRequest(String),
    /// The store could not be reached at all.
    Internal,
}

/// A failed request, with its texts as sequences of characters.
pub ghost enum ApiErrorView {
    Database(Seq<char>),
    NotFound,
    BadRequest(Seq<char>),
    Internal,
}

impl ApiErrorView {
    /// The status code that reports this failure.
    pub open spec fn status(self) -> u16 {
        match self {
            ApiErrorView::Database(_) => STATUS_INTERNAL_SERVER_ERROR,
            ApiErrorView::NotFound => STATUS_NOT_FOUND,
            ApiErrorView::BadRequest(_) => STATUS_BAD_REQUEST,
            ApiErrorView::Internal => STATUS_INTERNAL_SERVER_ERROR,
        }
    }

    /// The message that reports this failure.
    pub open spec fn message(self) -> Seq<char> {
        match self {
            ApiErrorView::Database(cause) => "Database error: "@ + cause,
            ApiErrorView::NotFound => "Product not found"@,
            ApiErrorView::BadRequest(reason) => reason,
            ApiErrorView::Internal => "Internal server error"@,
        }
    }
}

impl View for ApiError {
    type V = ApiErrorView;

    open spec fn view(&self) -> ApiErrorView {
        match self {
            ApiError::Database(cause) => ApiErrorView::Database(cause@),
            ApiError::NotFound => ApiErrorView::NotFound,
            ApiError::BadRequest(reason) => ApiErrorView::BadRequest(reason@),
            ApiError::Internal => ApiErrorView::Internal,
        }
    }
}

/// The body of every response that reports a failure.
#[derive(Debug)]
pub struct ErrorResponse {
    pub success: bool,
    pub message: String,
}

/// A failure as it goes out: the status code and the body.
#[derive(Debug)]
pub struct ErrorReply {
    pub status: u16,
    pub body: ErrorResponse,
}

impl ApiError {
    /// The status code that reports this failure.
    pub fn status_code(&self) -> (status: u16)
        ensures
            status == self@.status(),
    {
        match self {
            ApiError::Database(_) => STATUS_INTERNAL_SERVER_ERROR,
            ApiError::NotFound => STATUS_NOT_FOUND,
            ApiError::BadRequest(_) => STATUS_BAD_REQUEST,
            ApiError::Internal => STATUS_INTERNAL_SERVER_ERROR,
        }
    }

    /// The message that reports this failure.
    pub fn message(&self) -> (message: String)
        ensures
            message@ == self@.message(),
    {
        match self {
            ApiError::Database(cause) => {
                let mut message = String::from_str("Database error: ");
                message.append(cause.as_str());
                message
            },
            ApiError::NotFound => String::from_str("Product not found"),
            ApiError::BadRequest(reason) => reason.clone(),
            ApiError::Internal => String::from_str("Internal server error"),
        }
    }

    /// The response that reports this failure: its status code, and a body
    /// that says `success: false` and carries the message.
    pub fn error_response(&self) -> (reply: ErrorReply)
        ensures
            reply.status == self@.status(),
            !reply.body.success,
            reply.body.message@ == self@.message(),
    {
        ErrorReply {
            status: self.status_code(),
            body: ErrorResponse { success: false, message: self.message() },
        }
    }
}

} // verus!
