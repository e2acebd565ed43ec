//! The ways in which a request can fail.

use vstd::prelude::*;

verus! {

/// The kind of a failure, as the client is told of it.
#[derive(Clone, Copy, Debug, PartialEq, Eq, Structural)]
pub enum ErrorKind {
    /// A form field that the request needs is missing.
    BadRequest,
    /// No handler stands under the method and path.
    NotFound,
    /// The server could not do its part: the template did not render, or
    /// the identifier drawn for a new record was already in use.
    Internal,
}

impl ErrorKind {
    /// The HTTP status that reports this kind.
    pub open spec fn spec_status(self) -> u16 {
        match self {
            ErrorKind::BadRequest => 400,
            ErrorKind::NotFound => 404,
            ErrorKind::Internal => 500,
        }
    }

    /// The HTTP status that reports this kind.
    #[verifier::when_used_as_spec(spec_status)]
    pub fn status(self) -> (code: u16)
        ensures
            code == self.spec_status(),
    {
        match self {
            ErrorKind::BadRequest => 400,
            ErrorKind::NotFound => 404,
            ErrorKind::Internal => 500,
        }
    }
}

} // verus!
