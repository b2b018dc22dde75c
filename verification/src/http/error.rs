//! How an exchange fails.

use vstd::prelude::*;

verus! {

/// What the transport reports of an exchange that did not succeed.
#[derive(Clone, Debug, PartialEq, Eq)]
pub enum HttpError {
    /// The remote service refused the request: a value out of its bounds, a
    /// permission that is missing, a reference to what does not exist.
    ValidationRejected { status: u16, message: String },
    /// The exchange could not be completed or its answer could not be read.
    TransportFailure { message: String },
}

/// The one kind of error that an execution returns: the transport's own
/// report, wrapped once and otherwise untouched.
#[derive(Clone, Debug, PartialEq, Eq)]
pub enum Error {
    Http(HttpError),
}

impl Error {
    /// The transport's report that this error wraps.
    pub open spec fn cause(self) -> HttpError {
        match self {
            Error::Http(cause) => cause,
        }
    }

    /// The transport's report that this error wraps.
    pub fn into_cause(self) -> (cause: HttpError)
        ensures
            cause == self.cause(),
    {
        match self {
            Error::Http(cause) => cause,
        }
    }
}

/// What the caller gets for an outcome of the transport: the value of a
/// success as it is, the report of a failure wrapped as an [`Error`].
pub open spec fn settled<T>(outcome: Result<T, HttpError>) -> Result<T, Error> {
    match outcome {
        Ok(value) => Ok(value),
        Err(cause) => Err(Error::Http(cause)),
    }
}

/// Turns the transport's outcome into the caller's result.
pub fn settle<T>(outcome: Result<T, HttpError>) -> (result: Result<T, Error>)
    ensures
        result == settled(outcome),
{
    match outcome {
        Ok(value) => Ok(value),
        Err(cause) => Err(Error::Http(cause)),
    }
}

} // verus!
