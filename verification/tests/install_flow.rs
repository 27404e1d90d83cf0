use agent_runtime::install::{
    ArchiveKind, InstallCommand, InstallEvent, InstallFlow, archive_filename, classify_archive,
    has_suffix_ci, strip_dot_slash,
};

#[test]
fn archives_are_classified_by_extension() {
    assert_eq!(classify_archive("agent.zip"), ArchiveKind::Zip);
    assert_eq!(classify_archive("agent.tar.gz"), ArchiveKind::TarGz);
    assert_eq!(classify_archive("agent.tgz"), ArchiveKind::TarGz);
    assert_eq!(classify_archive("agent.tar.bz2"), ArchiveKind::TarBz2);
    assert_eq!(classify_archive("agent.tbz2"), ArchiveKind::TarBz2);
    assert_eq!(classify_archive("agent.tar"), ArchiveKind::Tar);
    assert_eq!(classify_archive("agent"), ArchiveKind::Raw);
    assert_eq!(classify_archive("Agent.ZIP"), ArchiveKind::Zip, "sniffing ignores case");
    assert_eq!(classify_archive("a.TAR.GZ"), ArchiveKind::TarGz);
}

#[test]
fn suffix_matching_is_case_insensitive_on_the_name_side() {
    assert!(has_suffix_ci("ARCHIVE.ZIP", ".zip"));
    assert!(has_suffix_ci("archive.zip", ".zip"));
    assert!(!has_suffix_ci("archive.zip2", ".zip"));
    assert!(!has_suffix_ci("zip", ".zip"));
}

#[test]
fn the_archive_filename_comes_from_the_url() {
    assert_eq!(
        archive_filename("https://example.com/releases/agent-v2.tar.gz"),
        "agent-v2.tar.gz"
    );
    assert_eq!(
        archive_filename("https://example.com/dl/agent.zip?v=2"),
        "agent.zip"
    );
    assert_eq!(archive_filename("bare-name"), "bare-name");
    assert_eq!(archive_filename("https://example.com/dir/"), "");
}

#[test]
fn entry_points_lose_a_leading_dot_slash() {
    assert_eq!(strip_dot_slash("./codex-acp"), "codex-acp");
    assert_eq!(strip_dot_slash("codex-acp"), "codex-acp");
    assert_eq!(strip_dot_slash("./"), "");
    assert_eq!(strip_dot_slash("."), ".");
}

#[test]
fn an_existing_install_short_circuits_the_flow() {
    let (mut flow, first) = InstallFlow::start(
        "/base/codex/1.0".to_string(),
        "/base/.downloads/codex/1.0".to_string(),
        "https://example.com/codex.tar.gz".to_string(),
        Some("./codex".to_string()),
    );
    match first {
        InstallCommand::ProbeExisting { install_dir, cmd } => {
            assert_eq!(install_dir, "/base/codex/1.0");
            assert_eq!(cmd, Some("./codex".to_string()));
        }
        _ => panic!("the flow must start by probing"),
    }
    let r = flow.step(InstallEvent::ExistingExe(Some("/base/codex/1.0/codex".to_string())));
    match r {
        InstallCommand::Finish { outcome } => {
            assert_eq!(outcome, Ok("/base/codex/1.0/codex".to_string()));
        }
        _ => panic!("an existing executable must finish the flow without a download"),
    }
}

#[test]
fn the_full_install_flow_walks_every_step() {
    let (mut flow, _probe) = InstallFlow::start(
        "/base/codex/1.0".to_string(),
        "/base/.downloads/codex/1.0".to_string(),
        "https://example.com/codex.tar.gz".to_string(),
        None,
    );
    match flow.step(InstallEvent::ExistingExe(None)) {
        InstallCommand::MakeDirs { download_dir, install_dir } => {
            assert_eq!(download_dir, "/base/.downloads/codex/1.0");
            assert_eq!(install_dir, "/base/codex/1.0");
        }
        _ => panic!("a fresh install must create its directories"),
    }
    match flow.step(InstallEvent::DirsMade(Ok(()))) {
        InstallCommand::Download { url, download_dir } => {
            assert_eq!(url, "https://example.com/codex.tar.gz");
            assert_eq!(download_dir, "/base/.downloads/codex/1.0");
        }
        _ => panic!("after directories come the download"),
    }
    match flow.step(InstallEvent::Downloaded(Ok(
        "/base/.downloads/codex/1.0/codex.tar.gz".to_string(),
    ))) {
        InstallCommand::Extract { archive_path, install_dir } => {
            assert_eq!(archive_path, "/base/.downloads/codex/1.0/codex.tar.gz");
            assert_eq!(install_dir, "/base/codex/1.0");
        }
        _ => panic!("after the download comes extraction"),
    }
    match flow.step(InstallEvent::Extracted(Ok(()))) {
        InstallCommand::Locate { install_dir, cmd } => {
            assert_eq!(install_dir, "/base/codex/1.0");
            assert_eq!(cmd, None);
        }
        _ => panic!("after extraction the entry point is located"),
    }
    match flow.step(InstallEvent::Located(Some("/base/codex/1.0/codex".to_string()))) {
        InstallCommand::Prepare { exe } => assert_eq!(exe, "/base/codex/1.0/codex"),
        _ => panic!("a located entry point is prepared"),
    }
    match flow.step(InstallEvent::Prepared(Ok(()))) {
        InstallCommand::RemoveDir { dir } => assert_eq!(dir, "/base/.downloads/codex/1.0"),
        _ => panic!("staging is cleaned up on success"),
    }
    match flow.step(InstallEvent::CleanedUp) {
        InstallCommand::Finish { outcome } => {
            assert_eq!(outcome, Ok("/base/codex/1.0/codex".to_string()));
        }
        _ => panic!("the flow finishes with the executable path"),
    }
}

#[test]
fn a_failed_download_aborts_the_install() {
    let (mut flow, _probe) = InstallFlow::start(
        "/base/a/1".to_string(),
        "/base/.downloads/a/1".to_string(),
        "https://example.com/a.zip".to_string(),
        None,
    );
    flow.step(InstallEvent::ExistingExe(None));
    flow.step(InstallEvent::DirsMade(Ok(())));
    match flow.step(InstallEvent::Downloaded(Err("Download failed with status: 404".to_string())))
    {
        InstallCommand::Finish { outcome } => {
            assert_eq!(outcome, Err("Download failed with status: 404".to_string()));
        }
        _ => panic!("a failed download must abort the flow"),
    }
}

#[test]
fn a_missing_entry_point_aborts_the_install() {
    let (mut flow, _probe) = InstallFlow::start(
        "/base/a/1".to_string(),
        "/base/.downloads/a/1".to_string(),
        "https://example.com/a.zip".to_string(),
        None,
    );
    flow.step(InstallEvent::ExistingExe(None));
    flow.step(InstallEvent::DirsMade(Ok(())));
    flow.step(InstallEvent::Downloaded(Ok("/base/.downloads/a/1/a.zip".to_string())));
    flow.step(InstallEvent::Extracted(Ok(())));
    match flow.step(InstallEvent::Located(None)) {
        InstallCommand::Finish { outcome } => {
            assert_eq!(outcome, Err("Could not find executable in extracted archive".to_string()));
        }
        _ => panic!("a missing entry point must abort the flow"),
    }
}

#[test]
fn a_repeated_install_returns_the_same_path_without_a_second_download() {
    // First install: the full sequence, ending at the resolved path.
    let (mut first, _probe) = InstallFlow::start(
        "/base/codex/1.0".to_string(),
        "/base/.downloads/codex/1.0".to_string(),
        "https://example.com/codex.tar.gz".to_string(),
        Some("codex".to_string()),
    );
    first.step(InstallEvent::ExistingExe(None));
    first.step(InstallEvent::DirsMade(Ok(())));
    first.step(InstallEvent::Downloaded(Ok("/base/.downloads/codex/1.0/codex.tar.gz".to_string())));
    first.step(InstallEvent::Extracted(Ok(())));
    first.step(InstallEvent::Located(Some("/base/codex/1.0/codex".to_string())));
    first.step(InstallEvent::Prepared(Ok(())));
    let first_path = match first.step(InstallEvent::CleanedUp) {
        InstallCommand::Finish { outcome: Ok(p) } => p,
        _ => panic!("the first install must succeed"),
    };

    // Second install of the same (agent, version), serialized after
    // the first: the probe finds the first install's executable and
    // the flow finishes at once — no directory creation, no download,
    // no extraction — with the same path.
    let (mut second, _probe) = InstallFlow::start(
        "/base/codex/1.0".to_string(),
        "/base/.downloads/codex/1.0".to_string(),
        "https://example.com/codex.tar.gz".to_string(),
        Some("codex".to_string()),
    );
    match second.step(InstallEvent::ExistingExe(Some(first_path.clone()))) {
        InstallCommand::Finish { outcome } => assert_eq!(outcome, Ok(first_path)),
        _ => panic!("the repeated install must short-circuit"),
    }
}
