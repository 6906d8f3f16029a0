use vstd::prelude::*;

verus! {

/// Why a request to the service could not be made or did not succeed.
#[derive(Debug, Clone, PartialEq)]
pub enum HttpError {
    /// The service answered with a status outside `200..300`; the status
    /// code and the body of the answer.
    Status(u16, String),
    /// A header value holds a character that an HTTP header cannot carry.
    InvalidHeader,
}

} // verus!
