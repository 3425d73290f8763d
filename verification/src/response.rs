//! The envelope in which every reply of the API travels.

use crate::status::StatusCode;
use vstd::prelude::*;

verus! {

/// What went wrong, as the client is told.
#[derive(Debug)]
pub struct ApiErrorInfo {
    pub code: u16,
    pub message: String,
}

/// The body of a reply: either the data of a success or the description
/// of a failure, never both.
#[derive(Debug)]
pub struct ApiResponse<T> {
    pub success: bool,
    pub data: Option<T>,
    pub error: Option<ApiErrorInfo>,
}

impl<T> ApiResponse<T> {
    /// The body reports a success and carries `data`.
    pub open spec fn is_success_with(&self, data: T) -> bool {
        &&& self.success
        &&& self.data == Some(data)
        &&& self.error is None
    }

    /// The body reports the failure `code` with the text `message`, and
    /// carries no data.
    pub open spec fn is_failure_with(&self, code: u16, message: Seq<char>) -> bool {
        &&& !self.success
        &&& self.data is None
        &&& self.error is Some
        &&& self.error.unwrap().code == code
        &&& self.error.unwrap().message@ == message
    }
}

/// The reply to a request that succeeded: status 200 and a body that
/// carries `data`.
pub fn success<T>(data: T) -> (reply: (StatusCode, ApiResponse<T>))
    ensures
        reply.0.value() == 200,
        reply.1.is_success_with(data),
{
    let response = ApiResponse { success: true, data: Some(data), error: None };
    (StatusCode::ok(), response)
}

/// The reply to a request that failed: the given status, and a body that
/// repeats its number beside `message`.
pub fn error(status: StatusCode, message: &str) -> (reply: (StatusCode, ApiResponse<()>))
    ensures
        reply.0 == status,
        reply.1.is_failure_with(status.value(), message@),
{
    let response = ApiResponse::<()> {
        success: false,
        data: None,
        error: Some(ApiErrorInfo { code: status.as_u16(), message: message.to_owned() }),
    };
    (status, response)
}

} // verus!
