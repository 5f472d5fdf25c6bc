//! Telling a well-shaped response from everything else.

use vstd::prelude::*;
use crate::common::errors::HttpError;

verus! {

/// Classifies a response whose body has been read as `text`.
///
/// `decoded` is the body decoded into the expected shape, or `None` when
/// it does not have that shape. A decoded body is handed on as it is; any
/// other body becomes a decode failure that carries the status code and
/// the raw text.
pub fn response_or_error_text<T>(status: u16, text: String, decoded: Option<T>) -> (outcome: Result<
    T,
    HttpError,
>)
    ensures
        match decoded {
            Some(value) => outcome == Ok::<T, HttpError>(value),
            None => outcome == Err::<T, HttpError>(
                HttpError::JsonError { status: status as usize, message: text },
            ),
        },
{
    match decoded {
        Some(value) => Ok(value),
        None => Err(HttpError::JsonError { status: status as usize, message: text }),
    }
}

} // verus!
