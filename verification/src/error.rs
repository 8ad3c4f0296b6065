//! The ways in which an operation of the engine can fail.

use vstd::prelude::*;

verus! {

/// Why an operation failed.
#[derive(Clone, Copy, Debug, PartialEq, Eq, Structural)]
pub enum Error {
    /// A URL could not be built, or local input/output failed.
    BackendError,
    /// The request did not reach the server or no answer came back.
    NetworkError,
    /// The answer was not JSON, or lacked a field that is needed.
    MalformedResponse,
    /// The server refused the credentials.
    AuthRejected,
    /// The server does not know what was asked for.
    NotFound,
    /// A media reference is not of the form `mxc://server/media`.
    MediaReferenceInvalid,
}

} // verus!
