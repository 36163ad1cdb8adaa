//! The ways a sync run can fail. Each of them ends the run.

use vstd::prelude::*;

use serde_json::Error as JsonError;

verus! {

/// serde_json's parse error, carried through unread.
#[verifier::external_type_specification]
#[verifier::external_body]
pub struct ExJsonError(JsonError);

/// Why a run stopped.
#[derive(Debug, Clone, Copy, PartialEq, Eq, Structural)]
pub enum Error {
    /// A response body is not JSON, or lacks the field that was expected.
    SerError,
    /// A token exchange failed in transport.
    FetchError,
    /// A download or a file could not be written.
    IOError,
    /// The consumer of fetched pages went away.
    SendError,
    /// The redirect reached the listener without a code.
    AuthorizationFailed,
    /// The search endpoint answered with a status other than success.
    UnexpectedStatus(u16),
}

impl From<JsonError> for Error {
    fn from(err: JsonError) -> Error {
        Error::SerError
    }
}

impl vstd::std_specs::convert::FromSpecImpl<JsonError> for Error {
    open spec fn obeys_from_spec() -> bool {
        true
    }

    open spec fn from_spec(v: JsonError) -> Error {
        Error::SerError
    }
}

} // verus!
