use mcp_windbg_rs::error::SessionError;
use mcp_windbg_rs::session::{SessionGrant, SessionManager};

fn manager() -> SessionManager {
    SessionManager::new(30, 120, false)
}

fn create_dump_session(m: &mut SessionManager, path: &str) -> (String, SessionGrant) {
    m.get_or_create_dump_session(
        &path.to_string(),
        true,
        Some(format!("/abs/{}", path)),
        Some("cdb.exe".to_string()),
        None,
    )
    .unwrap()
}

#[test]
fn test_session_manager_new() {
    let manager = SessionManager::new(30, 120, false);
    assert_eq!(manager.active_session_count(), 0);
}

#[test]
fn test_active_session_count() {
    let manager = SessionManager::new(30, 120, false);
    let count = manager.active_session_count();
    assert_eq!(count, 0);
}

#[test]
fn test_get_or_create_dump_session_file_not_found() {
    let mut manager = manager();
    let result = manager.get_or_create_dump_session(
        &"nonexistent.dmp".to_string(),
        false,
        None,
        Some("cdb.exe".to_string()),
        None,
    );

    assert!(result.is_err());
    match result.unwrap_err() {
        SessionError::DumpFileNotFound(_) => {}
        _ => panic!("Expected DumpFileNotFound error"),
    }
    assert_eq!(manager.active_session_count(), 0);
}

#[test]
fn test_close_session_not_found() {
    let mut manager = manager();
    let result = manager.close_session(&"nonexistent".to_string());

    assert!(result.is_err());
    match result.unwrap_err() {
        SessionError::SessionNotFound(_) => {}
        _ => panic!("Expected SessionNotFound error"),
    }
}

#[test]
fn test_close_all_sessions_empty() {
    let mut manager = manager();
    let removed = manager.close_all_sessions();
    assert!(removed.is_empty());
    assert_eq!(manager.active_session_count(), 0);
}

#[test]
fn test_scenario_close_never_opened_is_not_found() {
    // closeSession("never-opened") comes back NotFound, and the registry
    // size does not change.
    let mut manager = manager();
    let before = manager.active_session_count();
    let result = manager.close_session(&"never-opened".to_string());
    assert!(matches!(result, Err(SessionError::SessionNotFound(_))));
    assert_eq!(manager.active_session_count(), before);
}

#[test]
fn test_scenario_two_creates_share_one_session() {
    // Two get-or-create calls for the same canonical path observe the same
    // session identity; only the first one spawns.
    let mut manager = manager();
    let (key1, grant1) = create_dump_session(&mut manager, "crash.dmp");
    let (key2, grant2) = create_dump_session(&mut manager, "crash.dmp");
    assert_eq!(key1, "/abs/crash.dmp");
    assert_eq!(key1, key2);
    assert!(matches!(grant1, SessionGrant::Created(_, _)));
    assert!(matches!(grant2, SessionGrant::Existing));
    assert_eq!(manager.active_session_count(), 1);
}

#[test]
fn test_created_session_carries_defaults() {
    let mut manager = manager();
    let (key, grant) = create_dump_session(&mut manager, "crash.dmp");
    match grant {
        SessionGrant::Created(session, plan) => {
            assert_eq!(session.session_id(), key);
            assert_eq!(session.timeout_secs, 30);
            assert_eq!(session.init_timeout_secs, 120);
            assert_eq!(plan.executable, "cdb.exe");
            assert_eq!(plan.args, vec!["-z", "crash.dmp", "-c", ".echo CDB_READY"]);
        }
        SessionGrant::Existing => panic!("expected a created session"),
    }
}

#[test]
fn test_get_or_create_without_executable() {
    let mut manager = manager();
    let r = manager.get_or_create_dump_session(
        &"crash.dmp".to_string(),
        true,
        None,
        None,
        None,
    );
    assert!(matches!(r, Err(SessionError::CreationFailed(_))));
    assert_eq!(manager.active_session_count(), 0);
}

#[test]
fn test_remote_session_key_is_raw_connection_string() {
    let mut manager = manager();
    let (key, grant) = manager
        .get_or_create_remote_session(
            &"tcp:Port=5005,Server=192.168.0.100".to_string(),
            Some("cdb.exe".to_string()),
            None,
        )
        .unwrap();
    assert_eq!(key, "tcp:Port=5005,Server=192.168.0.100");
    assert!(matches!(grant, SessionGrant::Created(_, _)));
    let (key2, grant2) = manager
        .get_or_create_remote_session(
            &"tcp:Port=5005,Server=192.168.0.100".to_string(),
            Some("cdb.exe".to_string()),
            None,
        )
        .unwrap();
    assert_eq!(key, key2);
    assert!(matches!(grant2, SessionGrant::Existing));
}

#[test]
fn test_close_while_shared_is_in_use_and_session_stays() {
    let mut manager = manager();
    let (key, _grant) = create_dump_session(&mut manager, "crash.dmp");
    // The creating caller still holds its handle: the close is refused.
    let r = manager.close_session(&key);
    match r {
        Err(SessionError::InvalidSessionId(m)) => {
            assert_eq!(m, format!("Session still in use: {}", key))
        }
        other => panic!("expected InvalidSessionId, got {:?}", other),
    }
    // The session remains reachable under its key.
    assert_eq!(manager.active_session_count(), 1);
    let (_key2, grant2) = create_dump_session(&mut manager, "crash.dmp");
    assert!(matches!(grant2, SessionGrant::Existing));
}

#[test]
fn test_close_after_release_succeeds() {
    let mut manager = manager();
    let (key, _grant) = create_dump_session(&mut manager, "crash.dmp");
    manager.release_session(&key);
    assert!(manager.close_session(&key).is_ok());
    assert_eq!(manager.active_session_count(), 0);
}

#[test]
fn test_active_count_tracks_creates_and_closes() {
    let mut manager = manager();
    assert_eq!(manager.active_session_count(), 0);
    let (key_a, _) = create_dump_session(&mut manager, "a.dmp");
    assert_eq!(manager.active_session_count(), 1);
    let (key_b, _) = create_dump_session(&mut manager, "b.dmp");
    assert_eq!(manager.active_session_count(), 2);
    // A reuse does not change the count.
    let _ = create_dump_session(&mut manager, "a.dmp");
    assert_eq!(manager.active_session_count(), 2);
    // A refused close does not change the count.
    assert!(manager.close_session(&key_b).is_err());
    assert_eq!(manager.active_session_count(), 2);
    // Releasing every handle lets the closes go through, one key each.
    manager.release_session(&key_a);
    manager.release_session(&key_a);
    manager.release_session(&key_b);
    assert!(manager.close_session(&key_a).is_ok());
    assert_eq!(manager.active_session_count(), 1);
    assert!(manager.close_session(&key_b).is_ok());
    assert_eq!(manager.active_session_count(), 0);
}

#[test]
fn test_close_all_skips_shared_sessions() {
    let mut manager = manager();
    let (key_a, _) = create_dump_session(&mut manager, "a.dmp");
    let (_key_b, _) = create_dump_session(&mut manager, "b.dmp");
    // Release only a's handle: close-all may close a but must keep b.
    manager.release_session(&key_a);
    let removed = manager.close_all_sessions();
    assert_eq!(removed, vec![key_a.clone()]);
    assert_eq!(manager.active_session_count(), 1);
    let r = manager.close_session(&key_a);
    assert!(matches!(r, Err(SessionError::SessionNotFound(_))));
    let (_k, grant) = create_dump_session(&mut manager, "b.dmp");
    assert!(matches!(grant, SessionGrant::Existing));
}
