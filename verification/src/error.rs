//! Errors of the backend and the protocol adapters, their messages and their
//! stable codes.

use vstd::prelude::*;
use vstd::string::*;
use crate::ids::{hyphenated, session_id_text};

verus! {

/// An error of the backend or of a protocol adapter.
#[derive(Debug, Clone)]
pub enum OcError {
    UnsupportedProtocol(String),
    InvalidProfile(String),
    InvalidCommand(String),
    Connection(String),
    Authentication,
    Io(String),
    SessionNotFound(u128),
    OperationNotSupported(String),
    Internal(String),
}

/// The message of an error: what its `Display` writes.
pub open spec fn error_text(e: OcError) -> Seq<char> {
    match e {
        OcError::UnsupportedProtocol(s) => "unsupported protocol: "@ + s@,
        OcError::InvalidProfile(s) => "invalid connection profile: "@ + s@,
        OcError::InvalidCommand(s) => "invalid command: "@ + s@,
        OcError::Connection(s) => "connection failed: "@ + s@,
        OcError::Authentication => "authentication failed"@,
        OcError::Io(s) => "io error: "@ + s@,
        OcError::SessionNotFound(id) => "session not found: "@ + hyphenated(id),
        OcError::OperationNotSupported(s) => "operation not supported: "@ + s@,
        OcError::Internal(s) => "internal error: "@ + s@,
    }
}

/// The stable code that a response carries for an error.
pub open spec fn code_of(e: OcError) -> Seq<char> {
    match e {
        OcError::UnsupportedProtocol(_) => "unsupported_protocol"@,
        OcError::InvalidProfile(_) => "invalid_profile"@,
        OcError::InvalidCommand(_) => "invalid_command"@,
        OcError::Connection(_) => "connection_error"@,
        OcError::Authentication => "authentication_failed"@,
        OcError::Io(_) => "io_error"@,
        OcError::SessionNotFound(_) => "session_not_found"@,
        OcError::OperationNotSupported(_) => "operation_not_supported"@,
        OcError::Internal(_) => "internal_error"@,
    }
}

fn prefixed(prefix: &str, rest: &str) -> (r: String)
    ensures
        r@ == prefix@ + rest@,
{
    let mut r = String::from_str(prefix);
    r.append(rest);
    r
}

impl OcError {
    /// The error's message.
    pub fn message(&self) -> (r: String)
        ensures
            r@ == error_text(*self),
    {
        match self {
            OcError::UnsupportedProtocol(s) => prefixed("unsupported protocol: ", s.as_str()),
            OcError::InvalidProfile(s) => prefixed("invalid connection profile: ", s.as_str()),
            OcError::InvalidCommand(s) => prefixed("invalid command: ", s.as_str()),
            OcError::Connection(s) => prefixed("connection failed: ", s.as_str()),
            OcError::Authentication => String::from_str("authentication failed"),
            OcError::Io(s) => prefixed("io error: ", s.as_str()),
            OcError::SessionNotFound(id) => {
                let text = session_id_text(*id);
                prefixed("session not found: ", text.as_str())
            },
            OcError::OperationNotSupported(s) => prefixed(
                "operation not supported: ",
                s.as_str(),
            ),
            OcError::Internal(s) => prefixed("internal error: ", s.as_str()),
        }
    }
}

/// The stable code of an error.
pub fn error_code(error: &OcError) -> (r: &'static str)
    ensures
        r@ == code_of(*error),
{
    match error {
        OcError::UnsupportedProtocol(_) => "unsupported_protocol",
        OcError::InvalidProfile(_) => "invalid_profile",
        OcError::InvalidCommand(_) => "invalid_command",
        OcError::Connection(_) => "connection_error",
        OcError::Authentication => "authentication_failed",
        OcError::Io(_) => "io_error",
        OcError::SessionNotFound(_) => "session_not_found",
        OcError::OperationNotSupported(_) => "operation_not_supported",
        OcError::Internal(_) => "internal_error",
    }
}

} // verus!
