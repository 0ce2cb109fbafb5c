//! Error taxonomy of the session engine.
//!
//! Each layer has its own error type; a lower layer's error converts into
//! the next layer's through `From` without being reinterpreted.  Every
//! variant carries plain values, and every type renders itself to a fixed
//! message through `message`, whose text is pinned by a spec function.

use vstd::prelude::*;
use vstd::string::*;

use crate::text::dec_str;
use crate::text::u64_to_string;

verus! {

/// What can go wrong while talking to the debugger process.
#[derive(Debug, Clone)]
pub enum CdbError {
    /// The debugger executable was found in none of the known locations.
    ExecutableNotFound,
    /// The process could not be spawned, or one of its pipes could not be
    /// acquired; carries the underlying description.
    ProcessStartFailed(String),
    /// A command, or the startup handshake, did not finish within the bound;
    /// carries that bound in seconds.
    CommandTimeout(u64),
    /// Writing a command to the input pipe failed.
    CommandSendFailed(String),
    /// The output stream ended before the expected marker or sentinel.
    ProcessTerminated,
    /// Any other stream fault, by its description.
    IoError(String),
}

/// The message text of a [`CdbError`].
pub open spec fn cdb_error_message(e: CdbError) -> Seq<char> {
    match e {
        CdbError::ExecutableNotFound => "CDB executable not found"@,
        CdbError::ProcessStartFailed(s) => "Failed to start CDB process: "@ + s@,
        CdbError::CommandTimeout(secs) => "Command timeout after "@ + dec_str(secs as nat)
            + "s"@,
        CdbError::CommandSendFailed(s) => "Failed to send command: "@ + s@,
        CdbError::ProcessTerminated => "CDB process terminated unexpectedly"@,
        CdbError::IoError(s) => "I/O error: "@ + s@,
    }
}

impl CdbError {
    /// Render the error as its fixed message.
    pub fn message(&self) -> (r: String)
        ensures
            r@ == cdb_error_message(*self),
    {
        match self {
            CdbError::ExecutableNotFound => String::from_str("CDB executable not found"),
            CdbError::ProcessStartFailed(s) => {
                let mut r = String::from_str("Failed to start CDB process: ");
                r.append(s.as_str());
                r
            },
            CdbError::CommandTimeout(secs) => {
                let mut r = String::from_str("Command timeout after ");
                let d = u64_to_string(*secs);
                r.append(d.as_str());
                r.append("s");
                proof {
                    assert(r@ =~= cdb_error_message(*self));
                }
                r
            },
            CdbError::CommandSendFailed(s) => {
                let mut r = String::from_str("Failed to send command: ");
                r.append(s.as_str());
                r
            },
            CdbError::ProcessTerminated => String::from_str(
                "CDB process terminated unexpectedly",
            ),
            CdbError::IoError(s) => {
                let mut r = String::from_str("I/O error: ");
                r.append(s.as_str());
                r
            },
        }
    }
}

/// What can go wrong while managing sessions.
#[derive(Debug, Clone)]
pub enum SessionError {
    /// No session is stored under the requested key.
    SessionNotFound(String),
    /// Creating a new session failed for the wrapped reason.
    CreationFailed(CdbError),
    /// The dump file to open does not exist.
    DumpFileNotFound(String),
    /// The session key cannot be acted on; also reported when a close
    /// finds the session still shared.
    InvalidSessionId(String),
}

/// The message text of a [`SessionError`].
pub open spec fn session_error_message(e: SessionError) -> Seq<char> {
    match e {
        SessionError::SessionNotFound(s) => "Session not found: "@ + s@,
        SessionError::CreationFailed(c) => "Failed to create session: "@ + cdb_error_message(
            c,
        ),
        SessionError::DumpFileNotFound(p) => "Dump file not found: "@ + p@,
        SessionError::InvalidSessionId(s) => "Invalid session ID: "@ + s@,
    }
}

impl SessionError {
    /// Render the error as its fixed message.
    pub fn message(&self) -> (r: String)
        ensures
            r@ == session_error_message(*self),
    {
        match self {
            SessionError::SessionNotFound(s) => {
                let mut r = String::from_str("Session not found: ");
                r.append(s.as_str());
                r
            },
            SessionError::CreationFailed(c) => {
                let mut r = String::from_str("Failed to create session: ");
                let m = c.message();
                r.append(m.as_str());
                r
            },
            SessionError::DumpFileNotFound(p) => {
                let mut r = String::from_str("Dump file not found: ");
                r.append(p.as_str());
                r
            },
            SessionError::InvalidSessionId(s) => {
                let mut r = String::from_str("Invalid session ID: ");
                r.append(s.as_str());
                r
            },
        }
    }
}

impl From<CdbError> for SessionError {
    /// A session that could not be created wraps the process-level cause.
    fn from(e: CdbError) -> (r: SessionError)
        ensures
            r == SessionError::CreationFailed(e),
    {
        SessionError::CreationFailed(e)
    }
}

impl vstd::std_specs::convert::FromSpecImpl<CdbError> for SessionError {
    open spec fn obeys_from_spec() -> bool {
        true
    }

    open spec fn from_spec(e: CdbError) -> SessionError {
        SessionError::CreationFailed(e)
    }
}

/// What can go wrong while handling one tool call.
#[derive(Debug, Clone)]
pub enum ToolError {
    /// The parameters handed to the tool are invalid.
    InvalidParams(String),
    /// A session-level error, wrapped unchanged.
    SessionError(SessionError),
    /// A process-level error, wrapped unchanged.
    CdbError(CdbError),
    /// An internal fault of the tool itself.
    InternalError(String),
    /// A filesystem fault, by its description.
    FileSystemError(String),
}

/// The message text of a [`ToolError`].
pub open spec fn tool_error_message(e: ToolError) -> Seq<char> {
    match e {
        ToolError::InvalidParams(s) => "Invalid parameters: "@ + s@,
        ToolError::SessionError(s) => "Session error: "@ + session_error_message(s),
        ToolError::CdbError(c) => "CDB error: "@ + cdb_error_message(c),
        ToolError::InternalError(s) => "Internal error: "@ + s@,
        ToolError::FileSystemError(s) => "File system error: "@ + s@,
    }
}

impl ToolError {
    /// Render the error as its fixed message.
    pub fn message(&self) -> (r: String)
        ensures
            r@ == tool_error_message(*self),
    {
        match self {
            ToolError::InvalidParams(s) => {
                let mut r = String::from_str("Invalid parameters: ");
                r.append(s.as_str());
                r
            },
            ToolError::SessionError(e) => {
                let mut r = String::from_str("Session error: ");
                let m = e.message();
                r.append(m.as_str());
                r
            },
            ToolError::CdbError(e) => {
                let mut r = String::from_str("CDB error: ");
                let m = e.message();
                r.append(m.as_str());
                r
            },
            ToolError::InternalError(s) => {
                let mut r = String::from_str("Internal error: ");
                r.append(s.as_str());
                r
            },
            ToolError::FileSystemError(s) => {
                let mut r = String::from_str("File system error: ");
                r.append(s.as_str());
                r
            },
        }
    }
}

impl From<SessionError> for ToolError {
    /// A session error surfaces from a tool unchanged.
    fn from(e: SessionError) -> (r: ToolError)
        ensures
            r == ToolError::SessionError(e),
    {
        ToolError::SessionError(e)
    }
}

impl vstd::std_specs::convert::FromSpecImpl<SessionError> for ToolError {
    open spec fn obeys_from_spec() -> bool {
        true
    }

    open spec fn from_spec(e: SessionError) -> ToolError {
        ToolError::SessionError(e)
    }
}

impl From<CdbError> for ToolError {
    /// A process-level error surfaces from a tool unchanged.
    fn from(e: CdbError) -> (r: ToolError)
        ensures
            r == ToolError::CdbError(e),
    {
        ToolError::CdbError(e)
    }
}

impl vstd::std_specs::convert::FromSpecImpl<CdbError> for ToolError {
    open spec fn obeys_from_spec() -> bool {
        true
    }

    open spec fn from_spec(e: CdbError) -> ToolError {
        ToolError::CdbError(e)
    }
}

} // verus!
