//! Client-side workflow logic for the GameTorch animation service.
//!
//! The crate models the submit/poll/download workflow of the remote
//! rendering API as verified, side-effect-free decision functions; the
//! thin asynchronous shell that performs HTTP calls and sleeps lives
//! outside the library and only drives these functions.

use vstd::prelude::*;

pub mod cli;
pub mod json;
pub mod request;
pub mod text;
pub mod workflow;

verus! {

/// Failures surfaced by the workflow.
#[derive(Debug, PartialEq)]
pub enum ClientError {
    /// A request parameter is outside its allowed range.
    InvalidParameter,
    /// Two mutually exclusive parameters were both supplied.
    ConflictingParameter,
    /// A local file could not be read or written.
    IOError,
    /// The server could not be reached at all.
    TransportError,
    /// The server answered with a non-success HTTP status.
    RemoteError { status: u16, body: Vec<u8> },
    /// A JSON payload lacked an expected field.
    MalformedResponse,
    /// The job ended in the failed-and-refunded terminal state.
    JobFailedRefunded,
    /// The artifact never became available within the wait ceiling.
    Timeout,
}

} // verus!
