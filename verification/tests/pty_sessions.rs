use agent_runtime::pty::PtyManager;

#[test]
fn test_pty_manager_create_session() {
    let mut manager = PtyManager::new();

    let result = manager.create(None, None, None, None, 24, 80);

    assert!(result.is_ok(), "Failed to create PTY session: {:?}", result.err());
    let session_id = result.unwrap();
    assert!(!session_id.is_empty(), "Session ID should not be empty");

    let sessions = manager.list();
    assert_eq!(sessions.len(), 1, "Should have exactly one session");
    assert_eq!(sessions[0].session_id, session_id);

    let _ = manager.kill(&session_id);
}

#[test]
fn test_pty_manager_multiple_sessions() {
    let mut manager = PtyManager::new();

    let session1 = manager.create(None, None, None, None, 24, 80).unwrap();
    let session2 = manager.create(None, None, None, None, 24, 80).unwrap();

    assert_ne!(session1, session2, "Session IDs should be unique");

    let sessions = manager.list();
    assert_eq!(sessions.len(), 2, "Should have two sessions");

    let kill_result = manager.kill(&session1);
    assert!(kill_result.is_ok());

    let sessions = manager.list();
    assert_eq!(sessions.len(), 1, "Should have one session after kill");
    assert_eq!(sessions[0].session_id, session2);

    let _ = manager.kill(&session2);
}

#[test]
fn test_pty_manager_kill_nonexistent() {
    let mut manager = PtyManager::new();

    let result = manager.kill("nonexistent-session-id");
    assert!(result.is_err(), "Should fail to kill nonexistent session");
}

#[test]
fn test_pty_manager_read_nonexistent() {
    let mut manager = PtyManager::new();

    let result = manager.read("nonexistent-session-id");
    assert!(result.is_err(), "Should fail to read from nonexistent session");
}

#[test]
fn test_pty_manager_resize() {
    let mut manager = PtyManager::new();

    let session_id = manager.create(None, None, None, None, 24, 80).unwrap();

    let resize_result = manager.resize(&session_id, 48, 120);
    assert!(resize_result.is_ok(), "Failed to resize PTY: {:?}", resize_result.err());

    let _ = manager.kill(&session_id);
}

#[test]
fn test_pty_session_info() {
    let mut manager = PtyManager::new();

    let session_id = manager
        .create(Some("/bin/sh".to_string()), None, Some("/tmp".to_string()), None, 30, 100)
        .unwrap();

    let sessions = manager.list();
    assert_eq!(sessions.len(), 1);

    let info = &sessions[0];
    assert_eq!(info.session_id, session_id);
    assert_eq!(info.cwd, "/tmp");
    assert!(info.command.contains("sh") || info.command.contains("cmd"));

    let _ = manager.kill(&session_id);
}

#[test]
fn pty_ids_are_minted_from_the_counter() {
    let mut manager = PtyManager::new();
    let first = manager.create(None, None, None, None, 24, 80).unwrap();
    assert_eq!(first, "pty-1");
    let second = manager.create(None, None, None, None, 24, 80).unwrap();
    assert_eq!(second, "pty-2");
    let _ = manager.kill(&first);
    let _ = manager.kill(&second);
}

#[test]
fn pty_kill_forgets_only_the_killed_id() {
    let mut manager = PtyManager::new();
    let a = manager.create(None, None, None, None, 24, 80).unwrap();
    let b = manager.create(None, None, None, None, 24, 80).unwrap();
    let c = manager.create(None, None, None, None, 24, 80).unwrap();
    assert!(manager.kill(&b).is_ok());
    let ids: Vec<String> = manager.list().into_iter().map(|s| s.session_id).collect();
    assert_eq!(ids, vec![a.clone(), c.clone()]);
    assert!(manager.kill(&b).is_err(), "killing a closed id must fail");
    let _ = manager.kill(&a);
    let _ = manager.kill(&c);
}

#[test]
fn pty_write_unknown_session_reports_not_found() {
    let mut manager = PtyManager::new();
    let err = manager.write("pty-99", "echo hi\n").unwrap_err();
    assert_eq!(err, "PTY session not found: pty-99");
    let err = manager.read("pty-99").unwrap_err();
    assert_eq!(err, "PTY session not found: pty-99");
    let err = manager.resize("pty-99", 10, 10).unwrap_err();
    assert_eq!(err, "PTY session not found: pty-99");
}
