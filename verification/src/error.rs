use vstd::prelude::*;

verus! {

/// Why language negotiation failed.
///
/// Every failure of the engine is one of these three kinds; none of them
/// carries a payload.  Each kind maps to a fixed HTTP status through
/// [`Error::status`].
#[derive(Debug, Clone, Copy, PartialEq, Eq, Structural)]
#[non_exhaustive]
pub enum Error {
    /// The `Accept-Language` header was malformed in a way that prevented any
    /// candidate extraction.  The current grammar tolerates malformed tokens
    /// by skipping them, so this kind is reserved for stricter parsing.
    BadRequest,
    /// Candidate languages existed, but none of them met the server's
    /// support weights.
    NotAcceptable,
    /// A URL segment was explicitly designated as the language slot, but the
    /// position does not exist or the segment is not a known code.
    NotFound,
}

/// The HTTP status code that each negotiation error maps to.
pub open spec fn spec_status(e: Error) -> u16 {
    match e {
        Error::BadRequest => 400,
        Error::NotAcceptable => 406,
        Error::NotFound => 404,
    }
}

impl Error {
    /// Returns the HTTP status code for the error:
    /// 400 Bad Request, 406 Not Acceptable, or 404 Not Found.
    pub fn status(&self) -> (s: u16)
        ensures
            s == spec_status(*self),
    {
        match self {
            Error::BadRequest => 400,
            Error::NotAcceptable => 406,
            Error::NotFound => 404,
        }
    }
}

} // verus!
