//! What the service answers over HTTP once an operation has ended.
//!
//! A result that an operation gave is answered with status 200 and the
//! result as the body. A failure is handed on as it is; the answer to it
//! has the status of the failure's kind and the failure's message as the
//! body.

use crate::error::MyError;
use vstd::prelude::*;

pub mod course;
pub mod teacher;

verus! {

/// An answer whose body goes out as JSON.
#[derive(Debug, Clone, PartialEq, Eq)]
pub struct JsonResponse<T> {
    pub status: u16,
    pub body: T,
}

/// What answers `outcome`: status 200 around what an operation gave, or
/// the operation's failure as it is.
pub open spec fn answered<T>(outcome: Result<T, MyError>) -> Result<JsonResponse<T>, MyError> {
    match outcome {
        Ok(body) => Ok(JsonResponse { status: 200, body }),
        Err(error) => Err(error),
    }
}

pub(crate) fn answer<T>(outcome: Result<T, MyError>) -> (response: Result<JsonResponse<T>, MyError>)
    ensures
        response == answered(outcome),
{
    match outcome {
        Ok(body) => Ok(JsonResponse { status: 200, body }),
        Err(error) => Err(error),
    }
}

/// The answer to a request that failed: 404 for an absent entity, 500 for
/// a failure of the store or of rendering, with the failure's message.
pub fn error_response(error: &MyError) -> (response: JsonResponse<String>)
    ensures
        response.status == error@.status_code(),
        response.body@ == error@.message(),
        error@ is NotFound ==> response.status == 404,
        !(error@ is NotFound) ==> response.status == 500,
{
    JsonResponse { status: error.status_code(), body: error.message() }
}

} // verus!
