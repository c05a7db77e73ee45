//! Error taxonomy for session lifecycle, backend operations, configuration,
//! resources, and the event channel.

use vstd::prelude::*;
use vstd::string::StringExecFns;
use crate::text::{dec_rep, u64_to_dec};

verus! {

/// Result alias used throughout the crate.
pub type EtwResult<T> = Result<T, EtwError>;

/// Every failure the library reports. Lifecycle violations
/// (`SessionAlreadyRunning`, `SessionNotRunning`) are local precondition
/// failures; backend failures carry the backend's detail text; configuration
/// errors are rejected before any backend work; `FileNotFound` guards replay.
#[derive(Debug, Clone)]
pub enum EtwError {
    /// A session with the given name already exists.
    SessionExists(String),
    /// No session with the given name was found.
    SessionNotFound(String),
    /// The backend failed to start the trace.
    StartTraceFailed(String),
    /// The backend failed to stop the trace.
    StopTraceFailed(String),
    /// The backend refused a provider registration.
    EnableProviderFailed(String, String),
    /// The provider GUID string did not parse.
    InvalidProviderGuid(String),
    /// No provider with the given name was found.
    ProviderNotFound(String),
    /// A raw record could not be normalized.
    EventParseError(String),
    /// No schema was found for an event.
    SchemaNotFound(String, u16),
    /// The operation requires administrator privileges.
    PermissionDenied,
    /// An operating-system API call failed.
    WindowsError(String, u32),
    /// The event channel failed (disconnected).
    ChannelError(String),
    /// A bounded wait elapsed.
    Timeout(u64),
    /// The session is not running.
    SessionNotRunning,
    /// The session is already running.
    SessionAlreadyRunning,
    /// The configuration was rejected.
    InvalidConfig(String),
    /// Events were dropped because the channel was full.
    BufferOverflow(u64),
    /// An internal invariant was violated.
    Internal(String),
    /// A trace-data-helper API call failed.
    TdhError(String),
    /// The replay file does not exist.
    FileNotFound(String),
    /// The replay file is not a valid trace file.
    InvalidFileFormat(String),
}

/// The display text of each error.
pub open spec fn message_spec(e: EtwError) -> Seq<char> {
    match e {
        EtwError::SessionExists(name) => "ETW session '"@ + name@ + "' already exists"@,
        EtwError::SessionNotFound(name) => "ETW session '"@ + name@ + "' not found"@,
        EtwError::StartTraceFailed(detail) => "Failed to start ETW trace: "@ + detail@,
        EtwError::StopTraceFailed(detail) => "Failed to stop ETW trace: "@ + detail@,
        EtwError::EnableProviderFailed(guid, detail) => "Failed to enable provider "@ + guid@
            + ": "@ + detail@,
        EtwError::InvalidProviderGuid(guid) => "Invalid provider GUID: "@ + guid@,
        EtwError::ProviderNotFound(name) => "Provider '"@ + name@ + "' not found"@,
        EtwError::EventParseError(detail) => "Failed to parse event: "@ + detail@,
        EtwError::SchemaNotFound(provider, id) => "Schema not found for event (provider: "@
            + provider@ + ", id: "@ + dec_rep(id as nat) + ")"@,
        EtwError::PermissionDenied => "Permission denied: ETW operations require administrator privileges"@,
        EtwError::WindowsError(detail, code) => "Windows API error: "@ + detail@ + " (code: "@
            + dec_rep(code as nat) + ")"@,
        EtwError::ChannelError(detail) => "Channel error: "@ + detail@,
        EtwError::Timeout(ms) => "Operation timed out after "@ + dec_rep(ms as nat) + "ms"@,
        EtwError::SessionNotRunning => "Session is not running"@,
        EtwError::SessionAlreadyRunning => "Session is already running"@,
        EtwError::InvalidConfig(detail) => "Invalid configuration: "@ + detail@,
        EtwError::BufferOverflow(count) => "Buffer overflow: "@ + dec_rep(count as nat)
            + " events lost"@,
        EtwError::Internal(detail) => "Internal error: "@ + detail@,
        EtwError::TdhError(detail) => "TDH API error: "@ + detail@,
        EtwError::FileNotFound(path) => "File not found: "@ + path@,
        EtwError::InvalidFileFormat(detail) => "Invalid file format: "@ + detail@,
    }
}

impl EtwError {
    /// The display text of the error.
    pub fn message(&self) -> (s: String)
        ensures
            s@ == message_spec(*self),
    {
        let mut s = String::new();
        match self {
            EtwError::SessionExists(name) => {
                s.append("ETW session '");
                s.append(name.as_str());
                s.append("' already exists");
            },
            EtwError::SessionNotFound(name) => {
                s.append("ETW session '");
                s.append(name.as_str());
                s.append("' not found");
            },
            EtwError::StartTraceFailed(detail) => {
                s.append("Failed to start ETW trace: ");
                s.append(detail.as_str());
            },
            EtwError::StopTraceFailed(detail) => {
                s.append("Failed to stop ETW trace: ");
                s.append(detail.as_str());
            },
            EtwError::EnableProviderFailed(guid, detail) => {
                s.append("Failed to enable provider ");
                s.append(guid.as_str());
                s.append(": ");
                s.append(detail.as_str());
            },
            EtwError::InvalidProviderGuid(guid) => {
                s.append("Invalid provider GUID: ");
                s.append(guid.as_str());
            },
            EtwError::ProviderNotFound(name) => {
                s.append("Provider '");
                s.append(name.as_str());
                s.append("' not found");
            },
            EtwError::EventParseError(detail) => {
                s.append("Failed to parse event: ");
                s.append(detail.as_str());
            },
            EtwError::SchemaNotFound(provider, id) => {
                s.append("Schema not found for event (provider: ");
                s.append(provider.as_str());
                s.append(", id: ");
                let digits = u64_to_dec(*id as u64);
                s.append(digits.as_str());
                s.append(")");
            },
            EtwError::PermissionDenied => {
                s.append("Permission denied: ETW operations require administrator privileges");
            },
            EtwError::WindowsError(detail, code) => {
                s.append("Windows API error: ");
                s.append(detail.as_str());
                s.append(" (code: ");
                let digits = u64_to_dec(*code as u64);
                s.append(digits.as_str());
                s.append(")");
            },
            EtwError::ChannelError(detail) => {
                s.append("Channel error: ");
                s.append(detail.as_str());
            },
            EtwError::Timeout(ms) => {
                s.append("Operation timed out after ");
                let digits = u64_to_dec(*ms);
                s.append(digits.as_str());
                s.append("ms");
            },
            EtwError::SessionNotRunning => {
                s.append("Session is not running");
            },
            EtwError::SessionAlreadyRunning => {
                s.append("Session is already running");
            },
            EtwError::InvalidConfig(detail) => {
                s.append("Invalid configuration: ");
                s.append(detail.as_str());
            },
            EtwError::BufferOverflow(count) => {
                s.append("Buffer overflow: ");
                let digits = u64_to_dec(*count);
                s.append(digits.as_str());
                s.append(" events lost");
            },
            EtwError::Internal(detail) => {
                s.append("Internal error: ");
                s.append(detail.as_str());
            },
            EtwError::TdhError(detail) => {
                s.append("TDH API error: ");
                s.append(detail.as_str());
            },
            EtwError::FileNotFound(path) => {
                s.append("File not found: ");
                s.append(path.as_str());
            },
            EtwError::InvalidFileFormat(detail) => {
                s.append("Invalid file format: ");
                s.append(detail.as_str());
            },
        }
        s
    }
}

} // verus!
