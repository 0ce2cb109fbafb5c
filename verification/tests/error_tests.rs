use mcp_windbg_rs::error::{CdbError, SessionError, ToolError};

#[test]
fn test_cdb_error_display() {
    let err = CdbError::ExecutableNotFound;
    assert_eq!(err.message(), "CDB executable not found");

    let err = CdbError::CommandTimeout(30);
    assert_eq!(err.message(), "Command timeout after 30s");
}

#[test]
fn test_session_error_from_cdb_error() {
    let cdb_err = CdbError::ProcessStartFailed("test error".to_string());
    let session_err: SessionError = cdb_err.into();
    assert!(matches!(session_err, SessionError::CreationFailed(_)));
}

#[test]
fn test_tool_error_from_session_error() {
    let session_err = SessionError::SessionNotFound("test-session".to_string());
    let tool_err: ToolError = session_err.into();
    assert!(matches!(tool_err, ToolError::SessionError(_)));
}

#[test]
fn test_tool_error_from_cdb_error() {
    let cdb_err = CdbError::ProcessTerminated;
    let tool_err: ToolError = cdb_err.into();
    assert!(matches!(tool_err, ToolError::CdbError(_)));
}

#[test]
fn test_cdb_error_messages() {
    assert_eq!(
        CdbError::ProcessStartFailed("no such file".to_string()).message(),
        "Failed to start CDB process: no such file"
    );
    assert_eq!(
        CdbError::CommandSendFailed("broken pipe".to_string()).message(),
        "Failed to send command: broken pipe"
    );
    assert_eq!(
        CdbError::ProcessTerminated.message(),
        "CDB process terminated unexpectedly"
    );
    assert_eq!(
        CdbError::IoError("interrupted".to_string()).message(),
        "I/O error: interrupted"
    );
    assert_eq!(CdbError::CommandTimeout(0).message(), "Command timeout after 0s");
    assert_eq!(
        CdbError::CommandTimeout(u64::MAX).message(),
        "Command timeout after 18446744073709551615s"
    );
}

#[test]
fn test_session_error_messages() {
    assert_eq!(
        SessionError::SessionNotFound("k".to_string()).message(),
        "Session not found: k"
    );
    assert_eq!(
        SessionError::CreationFailed(CdbError::ExecutableNotFound).message(),
        "Failed to create session: CDB executable not found"
    );
    assert_eq!(
        SessionError::DumpFileNotFound("a.dmp".to_string()).message(),
        "Dump file not found: a.dmp"
    );
    assert_eq!(
        SessionError::InvalidSessionId("Session still in use: k".to_string()).message(),
        "Invalid session ID: Session still in use: k"
    );
}

#[test]
fn test_tool_error_messages() {
    assert_eq!(
        ToolError::InvalidParams("bad".to_string()).message(),
        "Invalid parameters: bad"
    );
    assert_eq!(
        ToolError::SessionError(SessionError::SessionNotFound("k".to_string())).message(),
        "Session error: Session not found: k"
    );
    assert_eq!(
        ToolError::CdbError(CdbError::ProcessTerminated).message(),
        "CDB error: CDB process terminated unexpectedly"
    );
    assert_eq!(
        ToolError::InternalError("oops".to_string()).message(),
        "Internal error: oops"
    );
    assert_eq!(
        ToolError::FileSystemError("denied".to_string()).message(),
        "File system error: denied"
    );
}
