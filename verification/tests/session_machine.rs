use mcp_windbg_rs::cdb::{CdbSession, SessionKind, SessionState, WaitOutcome};
use mcp_windbg_rs::error::CdbError;
use mcp_windbg_rs::protocol::{read_until_marker, StreamEnd};

fn dump_session() -> CdbSession {
    let (session, plan) = CdbSession::new_dump(
        &"crash.dmp".to_string(),
        None,
        Some("cdb.exe".to_string()),
        None,
        30,
        120,
        false,
    )
    .unwrap();
    assert_eq!(plan.executable, "cdb.exe");
    session
}

fn ready_session() -> CdbSession {
    let mut session = dump_session();
    let lines = vec!["CDB_READY".to_string()];
    session.wait_for_ready(&lines, StreamEnd::Open).unwrap();
    session
}

#[test]
fn test_placeholder() {
    assert!(true);
}

#[test]
fn test_new_dump_spawn_plan() {
    let (session, plan) = CdbSession::new_dump(
        &"crash.dmp".to_string(),
        Some("/abs/crash.dmp".to_string()),
        Some("cdb.exe".to_string()),
        Some("srv*".to_string()),
        30,
        120,
        false,
    )
    .unwrap();
    assert_eq!(session.session_id(), "/abs/crash.dmp");
    assert_eq!(plan.args, vec!["-z", "crash.dmp", "-c", ".echo CDB_READY"]);
    assert_eq!(plan.symbols_path, Some("srv*".to_string()));
}

#[test]
fn test_new_dump_key_falls_back_to_given_path() {
    let session = dump_session();
    assert_eq!(session.session_id(), "crash.dmp");
}

#[test]
fn test_new_remote_spawn_plan() {
    let (session, plan) = CdbSession::new_remote(
        &"tcp:Port=5005".to_string(),
        Some("cdb.exe".to_string()),
        None,
        30,
        120,
        false,
    )
    .unwrap();
    assert_eq!(session.session_id(), "tcp:Port=5005");
    assert_eq!(plan.args, vec!["-remote", "tcp:Port=5005", "-c", ".echo CDB_READY"]);
}

#[test]
fn test_new_dump_without_executable() {
    let r = CdbSession::new_dump(&"crash.dmp".to_string(), None, None, None, 30, 120, false);
    assert!(matches!(r, Err(CdbError::ExecutableNotFound)));
}

#[test]
fn test_wait_for_ready_sees_sentinel() {
    let mut session = dump_session();
    let lines = vec![
        "Microsoft (R) Windows Debugger".to_string(),
        "Loading Dump File".to_string(),
        "CDB_READY".to_string(),
    ];
    assert!(session.wait_for_ready(&lines, StreamEnd::Open).is_ok());
}

#[test]
fn test_wait_for_ready_eof_is_process_terminated() {
    let mut session = dump_session();
    let lines = vec!["partial banner".to_string()];
    let r = session.wait_for_ready(&lines, StreamEnd::Eof);
    assert!(matches!(r, Err(CdbError::ProcessTerminated)));
}

#[test]
fn test_wait_for_ready_timeout_uses_startup_bound() {
    let mut session = dump_session();
    let lines: Vec<String> = Vec::new();
    let r = session.wait_for_ready(&lines, StreamEnd::TimedOut);
    match r {
        Err(CdbError::CommandTimeout(secs)) => assert_eq!(secs, 120),
        other => panic!("expected CommandTimeout, got {:?}", other),
    }
}

#[test]
fn test_scenario_open_dump_and_send_lastevent() {
    // Open a file-backed session for crash.dmp, send .lastevent; the
    // process emits two lines and then the marker line: the result is
    // exactly those two lines.
    let mut session = ready_session();
    let (payload, marker) = session.begin_command(".lastevent");
    assert!(payload.starts_with(".lastevent\n.echo "));
    assert!(payload.ends_with("\n"));
    assert!(payload.contains(&marker));
    let lines = vec![
        "Last event: Access violation".to_string(),
        "  debugger time: Sat Oct 11".to_string(),
        marker.clone(),
    ];
    let out = session.complete_command(&lines, StreamEnd::Open).unwrap();
    assert_eq!(
        out,
        vec![
            "Last event: Access violation".to_string(),
            "  debugger time: Sat Oct 11".to_string(),
        ]
    );
}

#[test]
fn test_send_command_empty_output() {
    let mut session = ready_session();
    let (_payload, marker) = session.begin_command("g");
    let lines = vec![marker.clone()];
    let out = session.complete_command(&lines, StreamEnd::Open).unwrap();
    assert!(out.is_empty());
}

#[test]
fn test_send_command_single_line_output() {
    let mut session = ready_session();
    let (_payload, marker) = session.begin_command("r");
    let lines = vec!["rax=0000000000000000".to_string(), format!("echo {}", marker)];
    let out = session.complete_command(&lines, StreamEnd::Open).unwrap();
    assert_eq!(out, vec!["rax=0000000000000000".to_string()]);
}

#[test]
fn test_send_command_multiline_with_blank_lines() {
    let mut session = ready_session();
    let (_payload, marker) = session.begin_command("lm");
    let lines = vec![
        "start             end".to_string(),
        "".to_string(),
        "ntdll   \t ".to_string(),
        "".to_string(),
        marker.clone(),
        "stray line after marker".to_string(),
    ];
    let out = session.complete_command(&lines, StreamEnd::Open).unwrap();
    // Blank lines are preserved, trailing whitespace is trimmed, and the
    // marker line plus everything after it is discarded.
    assert_eq!(
        out,
        vec![
            "start             end".to_string(),
            "".to_string(),
            "ntdll".to_string(),
            "".to_string(),
        ]
    );
}

#[test]
fn test_command_timeout_never_partial_success() {
    let mut session = ready_session();
    let (_payload, _marker) = session.begin_command("!analyze -v");
    let lines = vec!["some output the command produced".to_string()];
    let r = session.complete_command(&lines, StreamEnd::TimedOut);
    match r {
        Err(CdbError::CommandTimeout(secs)) => assert_eq!(secs, 30),
        other => panic!("expected CommandTimeout, got {:?}", other),
    }
}

#[test]
fn test_command_eof_is_process_terminated() {
    let mut session = ready_session();
    let (_payload, _marker) = session.begin_command("kb");
    let lines = vec!["partial".to_string()];
    let r = session.complete_command(&lines, StreamEnd::Eof);
    assert!(matches!(r, Err(CdbError::ProcessTerminated)));
    assert_eq!(session.state, SessionState::ClosedUnexpected);
}

#[test]
fn test_markers_are_fresh_per_command() {
    let mut session = ready_session();
    let (_p1, m1) = session.begin_command("r");
    let lines = vec![m1.clone()];
    session.complete_command(&lines, StreamEnd::Open).unwrap();
    let (_p2, m2) = session.begin_command("r");
    assert_ne!(m1, m2);
}

#[test]
fn test_read_until_marker_requires_marker_substring() {
    let marker = "COMMAND_COMPLETED_MARKER_7".to_string();
    let lines = vec![
        "plain".to_string(),
        format!("prefix {} suffix", marker),
        "after".to_string(),
    ];
    let out = read_until_marker(&marker, 30, &lines, StreamEnd::Open).unwrap();
    assert_eq!(out, vec!["plain".to_string()]);
}

#[test]
fn test_shutdown_clean_exit_returns_status() {
    let mut session = ready_session();
    let quit = session.begin_shutdown();
    assert_eq!(quit, "q\n");
    assert_eq!(session.state, SessionState::Closing);
    let r = session.shutdown(WaitOutcome::Exited(Some(0)));
    assert_eq!(r.unwrap(), Some(0));
    assert_eq!(session.state, SessionState::ClosedClean);
}

#[test]
fn test_shutdown_passes_nonzero_status_through() {
    let mut session = ready_session();
    let _ = session.begin_shutdown();
    assert_eq!(session.shutdown(WaitOutcome::Exited(Some(3))).unwrap(), Some(3));
    let mut session = ready_session();
    let _ = session.begin_shutdown();
    // A process ended by a signal has no exit code.
    assert_eq!(session.shutdown(WaitOutcome::Exited(None)).unwrap(), None);
}

#[test]
fn test_shutdown_remote_detaches_before_quit() {
    let (mut session, _plan) = CdbSession::new_remote(
        &"tcp:Port=5005".to_string(),
        Some("cdb.exe".to_string()),
        None,
        30,
        120,
        false,
    )
    .unwrap();
    let quit = session.begin_shutdown();
    assert_eq!(quit, "\u{2}q\n");
    assert_eq!(quit.as_bytes(), &[0x02, b'q', b'\n']);
}

#[test]
fn test_shutdown_wait_timeout_reports_grace_period() {
    let mut session = ready_session();
    let _ = session.begin_shutdown();
    let r = session.shutdown(WaitOutcome::TimedOut);
    match r {
        Err(CdbError::CommandTimeout(secs)) => assert_eq!(secs, 5),
        other => panic!("expected CommandTimeout, got {:?}", other),
    }
    assert_eq!(session.state, SessionState::ClosedForced);
}

#[test]
fn test_shutdown_wait_failure_forces_kill() {
    let mut session = ready_session();
    let _ = session.begin_shutdown();
    let r = session.shutdown(WaitOutcome::WaitFailed("wait interrupted".to_string()));
    match r {
        Err(CdbError::ProcessStartFailed(m)) => {
            assert_eq!(m, "Failed to terminate process: wait interrupted")
        }
        other => panic!("expected ProcessStartFailed, got {:?}", other),
    }
    assert_eq!(session.state, SessionState::ClosedForced);
}

#[test]
fn test_spawn_failed_kills_session_before_handshake() {
    let mut session = dump_session();
    let e = session.spawn_failed("no such executable".to_string());
    match e {
        CdbError::ProcessStartFailed(m) => assert_eq!(m, "no such executable"),
        other => panic!("expected ProcessStartFailed, got {:?}", other),
    }
    assert_eq!(session.state, SessionState::ClosedUnexpected);
}

#[test]
fn test_command_stream_fault_is_io_error() {
    let mut session = ready_session();
    let (_payload, _marker) = session.begin_command("kb");
    let lines = vec!["partial".to_string()];
    let r = session.complete_command(&lines, StreamEnd::Failed("interrupted".to_string()));
    match r {
        Err(CdbError::IoError(m)) => assert_eq!(m, "interrupted"),
        other => panic!("expected IoError, got {:?}", other),
    }
    // A faulted stream is reported, not auto-evicted.
    assert_eq!(session.state, SessionState::Ready);
}

#[test]
fn test_handshake_stream_fault_is_io_error() {
    let mut session = dump_session();
    let lines: Vec<String> = Vec::new();
    let r = session.wait_for_ready(&lines, StreamEnd::Failed("bad pipe".to_string()));
    match r {
        Err(CdbError::IoError(m)) => assert_eq!(m, "bad pipe"),
        other => panic!("expected IoError, got {:?}", other),
    }
    assert_eq!(session.state, SessionState::ReadyWait);
}

#[test]
fn test_send_failed_keeps_session_usable() {
    let mut session = ready_session();
    let (_payload, _marker) = session.begin_command("r");
    let e = session.send_failed("broken pipe".to_string());
    assert!(matches!(e, CdbError::CommandSendFailed(_)));
    assert_eq!(session.state, SessionState::Ready);
    assert_eq!(session.kind, SessionKind::Dump);
}
