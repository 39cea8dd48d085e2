//! The reply shapes of the service, and the one rule that turns a failure
//! into a reply.

use vstd::prelude::*;

verus! {

/// A finished HTTP reply: the status code and the body the service sends.
#[derive(Debug, Clone)]
pub struct HttpResponse {
    pub status: u16,
    pub body: String,
}

/// The uniform error of the request path: whatever failed, one description.
#[derive(Debug, Clone)]
pub struct AppError {
    pub message: String,
}

/// The body of every failed request: a fixed prefix and the description.
pub open spec fn error_body(message: Seq<char>) -> Seq<char> {
    "Something went wrong: "@ + message
}

impl AppError {
    /// Wrap a failure description.
    pub fn new(message: String) -> (r: AppError)
        ensures
            r.message@ == message@,
    {
        AppError { message }
    }

    /// The one conversion rule of the error path: any failure becomes a
    /// server error whose body describes the cause and is never empty.
    pub fn into_response(self) -> (r: HttpResponse)
        ensures
            r.status == crate::STATUS_INTERNAL_SERVER_ERROR,
            r.body@ == error_body(self.message@),
            r.body@.len() > 0,
    {
        let mut body = String::from_str("Something went wrong: ");
        body.append(self.message.as_str());
        proof {
            reveal_strlit("Something went wrong: ");
        }
        HttpResponse { status: crate::STATUS_INTERNAL_SERVER_ERROR, body }
    }
}

} // verus!
