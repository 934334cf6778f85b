//! The errors that end an authentication attempt.

use vstd::prelude::*;
use crate::info::{ErrorClass, ErrorKind};

verus! {

/// Why an attempt was refused outright. None of these leaves a trace in the
/// stored session.
#[derive(Clone, Copy, Debug, PartialEq, Eq, Structural)]
pub enum Error {
    /// The password proof names its user in a form the engine does not read.
    UnrecognizedIdentifier,
    /// The user named in the password proof is not a valid identity.
    InvalidUserId,
    /// The user named in the password proof is not the authenticated caller.
    UserMismatch,
    /// The proof names a session that is not stored.
    SessionNotFound,
}

impl Error {
    /// The class under which the error is reported.
    pub open spec fn spec_kind(self) -> ErrorClass {
        match self {
            Error::UnrecognizedIdentifier => ErrorClass::Unrecognized,
            Error::InvalidUserId => ErrorClass::InvalidParam,
            Error::UserMismatch => ErrorClass::Forbidden,
            Error::SessionNotFound => ErrorClass::Forbidden,
        }
    }

    /// The text with which the error is reported.
    pub open spec fn spec_message(self) -> Seq<char> {
        match self {
            Error::UnrecognizedIdentifier => "Identifier type not recognized."@,
            Error::InvalidUserId => "User ID is invalid."@,
            Error::UserMismatch => "User ID and access token mismatch."@,
            Error::SessionNotFound => "UIAA session does not exist."@,
        }
    }

    /// The class under which the error is reported.
    pub fn kind(self) -> (k: ErrorKind)
        ensures
            k@ == self.spec_kind(),
    {
        match self {
            Error::UnrecognizedIdentifier => ErrorKind::Unrecognized,
            Error::InvalidUserId => ErrorKind::InvalidParam,
            Error::UserMismatch => ErrorKind::Forbidden,
            Error::SessionNotFound => ErrorKind::Forbidden,
        }
    }

    pub fn message(self) -> (m: String)
        ensures
            m@ == self.spec_message(),
    {
        match self {
            Error::UnrecognizedIdentifier => "Identifier type not recognized.".to_owned(),
            Error::InvalidUserId => "User ID is invalid.".to_owned(),
            Error::UserMismatch => "User ID and access token mismatch.".to_owned(),
            Error::SessionNotFound => "UIAA session does not exist.".to_owned(),
        }
    }
}

} // verus!
