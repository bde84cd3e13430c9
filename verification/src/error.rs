//! The errors that every operation can return, and the reading of a response
//! status.

use vstd::prelude::*;

verus! {

/// An error of an operation on the API.
#[derive(Debug)]
pub enum WorkOsError<E> {
    /// An error that is specific to the operation.
    Operation(E),
    /// The API key was not accepted.
    Unauthorized,
    /// A URL could not be built.
    UrlParseError(url::ParseError),
    /// The request failed with a status that tells no more.
    RequestError {
        /// The status of the response.
        status: u16,
    },
}

/// The result of an operation on the API.
pub type WorkOsResult<T, E> = Result<T, WorkOsError<E>>;

/// The status that stands for a rejected API key.
pub const UNAUTHORIZED: u16 = 401;

/// The first status that stands for a failure.
pub const FIRST_FAILURE: u16 = 400;

/// What a response status means: `None` where the response is to be read,
/// else the error that stands for the status.
pub open spec fn status_error<E>(status: u16) -> Option<WorkOsError<E>> {
    if status == UNAUTHORIZED {
        Some(WorkOsError::Unauthorized)
    } else if status >= FIRST_FAILURE {
        Some(WorkOsError::RequestError { status })
    } else {
        None
    }
}

/// Reads a response status: a rejected key is told apart from every other
/// failure, and a status under 400 lets the response through.
pub fn check_status<E>(status: u16) -> (r: WorkOsResult<(), E>)
    ensures
        match status_error::<E>(status) {
            Some(e) => r == Err::<(), WorkOsError<E>>(e),
            None => r is Ok,
        },
{
    if status == UNAUTHORIZED {
        Err(WorkOsError::Unauthorized)
    } else if status >= FIRST_FAILURE {
        Err(WorkOsError::RequestError { status })
    } else {
        Ok(())
    }
}

} // verus!
