use agent_runtime::registry::DistributionType;
use agent_runtime::state_store::InstalledAgentsState;

#[test]
fn mark_installed_records_the_requested_version() {
    let mut state = InstalledAgentsState::default();
    state.mark_installed(
        "codex",
        "2.0.1",
        DistributionType::Binary,
        Some("/data/acp-agents/codex/2.0.1/codex".to_string()),
        None,
    );
    assert!(state.is_installed("codex"));
    assert_eq!(state.get_installed_version("codex"), Some("2.0.1".to_string()));
    let info = state.get_installed_info("codex").unwrap();
    assert_eq!(info.agent_id, "codex");
    assert_eq!(info.version, "2.0.1");
    assert_eq!(info.dist_type, DistributionType::Binary);
    assert_eq!(info.binary_path, Some("/data/acp-agents/codex/2.0.1/codex".to_string()));
    assert_eq!(info.package, None);
}

#[test]
fn reinstall_replaces_the_record() {
    let mut state = InstalledAgentsState::default();
    state.mark_installed("codex", "1.0.0", DistributionType::Npx, None, Some("pkg".to_string()));
    state.mark_installed("codex", "1.1.0", DistributionType::Npx, None, Some("pkg".to_string()));
    assert_eq!(state.get_all_installed().len(), 1);
    assert_eq!(state.get_installed_version("codex"), Some("1.1.0".to_string()));
}

#[test]
fn uninstall_removes_the_record() {
    let mut state = InstalledAgentsState::default();
    state.mark_installed("codex", "1.0.0", DistributionType::Npx, None, Some("pkg".to_string()));
    state.mark_installed("aider", "3.0.0", DistributionType::Uvx, None, Some("aider".to_string()));
    state.uninstall("codex");
    assert!(!state.is_installed("codex"));
    assert!(state.get_installed_info("codex").is_none());
    assert!(state.is_installed("aider"), "other agents are untouched");
    state.uninstall("codex");
    assert!(!state.is_installed("codex"), "uninstalling an absent agent is not an error");
}

#[test]
fn has_update_only_when_installed_and_different() {
    let mut state = InstalledAgentsState::default();
    assert!(!state.has_update("codex", "2.0.0"), "not installed means no update");
    state.mark_installed("codex", "2.0.0", DistributionType::Binary, None, None);
    assert!(!state.has_update("codex", "2.0.0"), "equal versions mean no update");
    assert!(state.has_update("codex", "2.1.0"), "a different version is an update");
}

#[test]
fn timestamps_come_from_the_clock() {
    let mut state = InstalledAgentsState::default();
    state.mark_installed("codex", "1.0.0", DistributionType::Binary, None, None);
    let info = state.get_installed_info("codex").unwrap();
    // An RFC 3339 timestamp of the current era, not an echo of any input.
    assert!(info.installed_at.starts_with("20"));
    assert!(info.installed_at.contains('T'));
}
