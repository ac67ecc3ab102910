//! The request error taxonomy: distinguishable, typed outcomes for the
//! caller.  Unrecognized event data is deliberately *not* an error — it
//! resolves to an unknown event and rendering proceeds.

use vstd::prelude::*;

verus! {

/// Why a rendering request cannot be served.
#[derive(Clone, Copy, PartialEq, Eq, Structural, Debug)]
pub enum Error {
    /// The requested log does not exist.
    NotFound,
    /// The mode key in the request names no supported mode.
    ModeNotFound,
    /// The game id in the request is not a well-formed identifier.
    InvalidGameId,
    /// The storage collaborator failed; not retried here.
    Backend,
}

impl Error {
    /// The user-facing message for this outcome.
    pub fn message(&self) -> (r: &'static str)
        ensures
            r@ == spec_error_message(*self),
    {
        match self {
            Error::NotFound => "Not found",
            Error::ModeNotFound => "Not found",
            Error::InvalidGameId => "Invalid game ID",
            Error::Backend => "Internal error. Please contact the server's administrators.",
        }
    }
}

/// The user-facing message for an error outcome.
pub open spec fn spec_error_message(e: Error) -> Seq<char> {
    match e {
        Error::NotFound => "Not found"@,
        Error::ModeNotFound => "Not found"@,
        Error::InvalidGameId => "Invalid game ID"@,
        Error::Backend => "Internal error. Please contact the server's administrators."@,
    }
}

} // verus!
