//! The envelope every answer travels in: the data on success, the message
//! of the error otherwise.

use vstd::prelude::*;
use crate::register::RegisterError;
use crate::session::AuthError;

verus! {

/// An answer to a client: exactly one of `data` and `error` is set.
#[derive(Debug, Clone)]
pub struct JsonResponse<T> {
    pub data: Option<T>,
    pub error: Option<String>,
    pub meta: Option<String>,
}

impl<T> JsonResponse<T> {
    /// An answer carrying `value`.
    pub fn success(value: T) -> (r: Self)
        ensures
            r.data == Some(value),
            r.error is None,
            r.meta is None,
    {
        JsonResponse { data: Some(value), error: None, meta: None }
    }

    /// An answer carrying the error message `message`.
    pub fn failure(message: &str) -> (r: Self)
        ensures
            r.data is None,
            r.error is Some && r.error->Some_0@ == message@,
            r.meta is None,
    {
        JsonResponse { data: None, error: Some(message.to_owned()), meta: None }
    }

    /// The answer for the outcome of a session operation.
    pub fn from_auth(outcome: Result<T, AuthError>) -> (r: Self)
        ensures
            r.meta is None,
            match outcome {
                Ok(v) => r.data == Some(v) && r.error is None,
                Err(e) => r.data is None && r.error is Some && r.error->Some_0@ == e.text(),
            },
    {
        match outcome {
            Ok(v) => JsonResponse::success(v),
            Err(e) => JsonResponse::failure(e.message()),
        }
    }

    /// The answer for the outcome of a registration step.
    pub fn from_register(outcome: Result<T, RegisterError>) -> (r: Self)
        ensures
            r.meta is None,
            match outcome {
                Ok(v) => r.data == Some(v) && r.error is None,
                Err(e) => r.data is None && r.error is Some && r.error->Some_0@ == e.text(),
            },
    {
        match outcome {
            Ok(v) => JsonResponse::success(v),
            Err(e) => JsonResponse::failure(e.message()),
        }
    }
}

} // verus!
