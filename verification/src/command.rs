//! The protocol-agnostic command contract between frontends and the backend.

use vstd::prelude::*;
use vstd::string::*;
use crate::error::{code_of, error_code, error_text, OcError};
use crate::types::{AppConfig, ConnectionProfile, ProtocolKind, RemoteEntry};

verus! {

/// A session is known by a 128-bit identifier (a UUID to frontends).
pub type SessionId = u128;

/// A command that a frontend sends to the backend.
pub enum UiCommand {
    Connect { profile: ConnectionProfile },
    Disconnect { session_id: SessionId },
    ListDirectory { session_id: SessionId, path: String },
    UploadFile { session_id: SessionId, local_path: String, remote_path: String },
    DownloadFile { session_id: SessionId, remote_path: String, local_path: String },
    DeletePath { session_id: SessionId, remote_path: String },
    RenamePath { session_id: SessionId, from: String, to: String },
    LoadConfig,
    SaveConfig { config: AppConfig },
    SupportedProtocols,
}

/// Which way a file went.
#[derive(Debug, Clone, Copy, PartialEq, Eq, Structural)]
pub enum TransferDirection {
    Upload,
    Download,
}

/// The backend's answer to a command.
pub enum UiResponse {
    Connected { session_id: SessionId, protocol: ProtocolKind, peer: String },
    Disconnected { session_id: SessionId },
    Directory { session_id: SessionId, path: String, entries: Vec<RemoteEntry> },
    TransferCompleted {
        session_id: SessionId,
        direction: TransferDirection,
        source: String,
        destination: String,
    },
    PathDeleted { session_id: SessionId, remote_path: String },
    PathRenamed { session_id: SessionId, from: String, to: String },
    Config { config: AppConfig },
    SupportedProtocols { protocols: Vec<ProtocolKind> },
    Success { message: String },
    Error { code: String, message: String },
}

/// `r` is the error response with the given code and message.
pub open spec fn is_error_response(r: UiResponse, code: Seq<char>, message: Seq<char>) -> bool {
    r matches UiResponse::Error { code: c, message: m } && c@ == code && m@ == message
}

/// `r` is the response that reports error `e`.
pub open spec fn reports(r: UiResponse, e: OcError) -> bool {
    is_error_response(r, code_of(e), error_text(e))
}

impl UiResponse {
    /// The error response with the given code and message.
    pub fn error(code: String, message: String) -> (r: UiResponse)
        ensures
            r == (UiResponse::Error { code, message }),
    {
        UiResponse::Error { code, message }
    }

    /// The response that reports `e`: its code and its message.
    pub fn from_error(e: &OcError) -> (r: UiResponse)
        ensures
            reports(r, *e),
    {
        UiResponse::error(String::from_str(error_code(e)), e.message())
    }
}

} // verus!
