//! The kinds of failure the control panel distinguishes.

use vstd::prelude::*;

verus! {

/// Why a request could not be served.
#[derive(Debug, Clone, PartialEq, Eq)]
pub enum PanelError {
    /// The request carried no session cookie, or not the current one.
    Unauthorized,
    /// The catalog holds no game under the requested identifier.
    GameNotFound,
    /// The operating system refused to start the executable; the text is
    /// what it reported.
    LaunchFailed(String),
    /// A shared component could not be locked.
    LockFailure,
    /// A value could not be written as JSON.
    SerializationFailure,
    /// A request body was not the JSON document the endpoint takes.
    MalformedRequestBody,
    /// The stored password hash is not a bcrypt hash.
    MalformedHash,
    /// A new password hash could not be produced.
    HashingFailed,
}

/// The HTTP status that answers a failure: 403 for a missing or wrong
/// session, 500 for everything else.
pub open spec fn status_of(e: PanelError) -> u16 {
    if e is Unauthorized {
        403
    } else {
        500
    }
}

impl PanelError {
    /// The HTTP status that answers this failure.
    pub fn status(&self) -> (code: u16)
        ensures
            code == status_of(*self),
    {
        match self {
            PanelError::Unauthorized => 403,
            _ => 500,
        }
    }
}

} // verus!
