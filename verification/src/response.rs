//! The response envelope handed to transport-facing callers: a message
//! and an optional payload.

use vstd::prelude::*;

verus! {

#[derive(Debug)]
pub struct ApiResponse<T> {
    pub message: String,
    pub data: Option<T>,
}

impl<T> ApiResponse<T> {
    /// An envelope carrying a payload.
    pub fn success(message: &str, data: T) -> (r: Self)
        ensures
            r.message@ == message@,
            r.data == Some(data),
    {
        ApiResponse { message: message.to_owned(), data: Some(data) }
    }

    /// An envelope carrying only a message.
    pub fn error(message: &str) -> (r: Self)
        ensures
            r.message@ == message@,
            r.data is None,
    {
        ApiResponse { message: message.to_owned(), data: None }
    }
}

} // verus!
