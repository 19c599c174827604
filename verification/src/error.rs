//! Failure classification for the command channel.

use vstd::prelude::*;

verus! {

/// Errors from communicating with the dictation backend.
///
/// The kinds are deliberately distinct so a caller can pick a policy:
/// `BackendNotRunning` may trigger "start the backend" logic,
/// `ConnectionFailed` and `SendFailed` a retry or a transient-error message,
/// while `InvalidCommand` is a programmer error and never caused by the
/// environment.
#[derive(Debug, PartialEq, Eq)]
pub enum SocketError {
    /// Opening a connection to the endpoint failed or timed out; the
    /// payload describes the cause.
    ConnectionFailed(String),
    /// The connection was open, but writing or flushing the command failed
    /// or timed out; the payload describes the cause.
    SendFailed(String),
    /// Reading from the backend failed; the payload describes the cause.
    ReadFailed(String),
    /// The endpoint path does not exist: the backend was never started or
    /// has exited and cleaned up.
    BackendNotRunning,
    /// The command token is not one of the accepted set; the payload
    /// describes the rejected input.
    InvalidCommand(String),
}

/// Mathematical model of a [`SocketError`]: the same kinds, with each cause
/// as a sequence of characters.
pub enum ErrorModel {
    ConnectionFailed(Seq<char>),
    SendFailed(Seq<char>),
    ReadFailed(Seq<char>),
    BackendNotRunning,
    InvalidCommand(Seq<char>),
}

impl View for SocketError {
    type V = ErrorModel;

    open spec fn view(&self) -> ErrorModel {
        match self {
            SocketError::ConnectionFailed(c) => ErrorModel::ConnectionFailed(c@),
            SocketError::SendFailed(c) => ErrorModel::SendFailed(c@),
            SocketError::ReadFailed(c) => ErrorModel::ReadFailed(c@),
            SocketError::BackendNotRunning => ErrorModel::BackendNotRunning,
            SocketError::InvalidCommand(c) => ErrorModel::InvalidCommand(c@),
        }
    }
}

/// The description of an error, as [`SocketError::message`] renders it.
pub open spec fn message_spec(e: ErrorModel) -> Seq<char> {
    match e {
        ErrorModel::ConnectionFailed(c) => "Failed to connect to backend: "@ + c,
        ErrorModel::SendFailed(c) => "Failed to send command: "@ + c,
        ErrorModel::ReadFailed(c) => "Failed to read response: "@ + c,
        ErrorModel::BackendNotRunning => "Backend is not running or not responding"@,
        ErrorModel::InvalidCommand(c) => "Invalid command: "@ + c,
    }
}

impl SocketError {
    /// A short human-readable description: the error kind followed by its
    /// cause, fit for a non-fatal toast or log line.
    pub fn message(&self) -> (m: String)
        ensures
            m@ == message_spec(self@),
    {
        match self {
            SocketError::ConnectionFailed(c) => {
                String::from_str("Failed to connect to backend: ").concat(c.as_str())
            },
            SocketError::SendFailed(c) => {
                String::from_str("Failed to send command: ").concat(c.as_str())
            },
            SocketError::ReadFailed(c) => {
                String::from_str("Failed to read response: ").concat(c.as_str())
            },
            SocketError::BackendNotRunning => {
                String::from_str("Backend is not running or not responding")
            },
            SocketError::InvalidCommand(c) => {
                String::from_str("Invalid command: ").concat(c.as_str())
            },
        }
    }
}

} // verus!
