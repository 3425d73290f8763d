//! The error that a request handler answers with.

use crate::response::{error, ApiResponse};
use crate::status::{status_text, StatusCode};
use vstd::prelude::*;

verus! {

/// A failed request: the status to answer with, the message for the
/// client, and a description of the underlying error, kept for diagnosis
/// and never sent.
#[derive(Debug)]
pub struct AppError {
    pub status_code: StatusCode,
    pub message: String,
    pub source: Option<String>,
}

impl AppError {
    /// The error has the status `code` and the text `message`.
    pub open spec fn says(&self, code: u16, message: Seq<char>) -> bool {
        self.status_code.value() == code && self.message@ == message
    }

    /// The error in words: its status, its message and, where it has one,
    /// its cause.
    pub open spec fn text(&self) -> Seq<char> {
        status_text(self.status_code.value()) + ": "@ + self.message@ + match self.source {
            Some(cause) => " (caused by: "@ + cause@ + ")"@,
            None => Seq::empty(),
        }
    }

    /// An error without an underlying cause.
    pub fn new(status_code: StatusCode, message: &str) -> (e: AppError)
        ensures
            e.status_code == status_code,
            e.message@ == message@,
            e.source is None,
    {
        AppError { status_code, message: message.to_owned(), source: None }
    }

    /// An error with the description of the error that caused it.
    pub fn with_source(status_code: StatusCode, message: &str, source: &str) -> (e: AppError)
        ensures
            e.status_code == status_code,
            e.message@ == message@,
            e.source is Some,
            e.source.unwrap()@ == source@,
    {
        AppError { status_code, message: message.to_owned(), source: Some(source.to_owned()) }
    }

    /// 500 Internal Server Error
    pub fn internal_error(message: &str) -> (e: AppError)
        ensures
            e.says(500, message@),
            e.source is None,
    {
        AppError::new(StatusCode::internal_server_error(), message)
    }

    /// 400 Bad Request
    pub fn bad_request(message: &str) -> (e: AppError)
        ensures
            e.says(400, message@),
            e.source is None,
    {
        AppError::new(StatusCode::bad_request(), message)
    }

    /// 404 Not Found
    pub fn not_found(message: &str) -> (e: AppError)
        ensures
            e.says(404, message@),
            e.source is None,
    {
        AppError::new(StatusCode::not_found(), message)
    }

    /// 401 Unauthorized
    pub fn unauthorized(message: &str) -> (e: AppError)
        ensures
            e.says(401, message@),
            e.source is None,
    {
        AppError::new(StatusCode::unauthorized(), message)
    }

    /// 413 Payload Too Large
    pub fn payload_too_large(message: &str) -> (e: AppError)
        ensures
            e.says(413, message@),
            e.source is None,
    {
        AppError::new(StatusCode::payload_too_large(), message)
    }

    /// The error in words, as it is shown to a reader of the logs.
    pub fn to_text(&self) -> (text: String)
        ensures
            text@ == self.text(),
    {
        let head = self.status_code.to_text().concat(": ").concat(self.message.as_str());
        let text = match &self.source {
            Some(cause) => head.concat(" (caused by: ").concat(cause.as_str()).concat(")"),
            None => head,
        };
        proof {
            assert(text@ =~= self.text());
        }
        text
    }

    /// The reply that tells the client of the error: its status, and a
    /// body with the status number and the message. The cause stays behind.
    pub fn into_response(self) -> (reply: (StatusCode, ApiResponse<()>))
        ensures
            reply.0 == self.status_code,
            reply.1.is_failure_with(self.status_code.value(), self.message@),
    {
        error(self.status_code, self.message.as_str())
    }
}

} // verus!
