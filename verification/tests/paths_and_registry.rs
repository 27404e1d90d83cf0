use agent_runtime::paths::{AcpPaths, platform_string};
use agent_runtime::registry::{
    AcpAgentEntry, AcpDistribution, BinaryInfo, DistributionType, NpxDistribution, UvxDistribution,
};

fn entry(dist: AcpDistribution) -> AcpAgentEntry {
    AcpAgentEntry {
        id: "demo".to_string(),
        name: "Demo".to_string(),
        version: "1.0.0".to_string(),
        description: String::new(),
        icon: None,
        homepage: None,
        repository: None,
        authors: Vec::new(),
        license: None,
        distribution: dist,
    }
}

#[test]
fn paths_follow_the_layout() {
    let p = AcpPaths::with_base_dir("/data/acp-agents".to_string());
    assert_eq!(p.base_dir(), "/data/acp-agents");
    assert_eq!(p.agent_dir("codex"), "/data/acp-agents/codex");
    assert_eq!(p.agent_version_dir("codex", "1.2.3"), "/data/acp-agents/codex/1.2.3");
    assert_eq!(p.downloads_dir(), "/data/acp-agents/.downloads");
    assert_eq!(p.agent_download_dir("codex", "1.2.3"), "/data/acp-agents/.downloads/codex/1.2.3");
    assert_eq!(p.runtimes_dir(), "/data/acp-agents/.runtimes");
    assert_eq!(p.runtime_dir("node", "20"), "/data/acp-agents/.runtimes/node/20");
    assert_eq!(p.icons_dir(), "/data/acp-agents/.icons");
    assert_eq!(p.registry_cache_path(), "/data/acp-agents/registry.json");
    assert_eq!(p.installed_state_path(), "/data/acp-agents/installed.json");
}

#[test]
fn paths_new_ends_in_the_agents_directory() {
    let p = AcpPaths::new();
    assert!(p.base_dir().ends_with("/acp-agents"));
}

#[test]
fn platform_string_canonicalises_the_os() {
    assert_eq!(platform_string("macos", "aarch64"), "darwin-aarch64");
    assert_eq!(platform_string("linux", "x86_64"), "linux-x86_64");
    assert_eq!(platform_string("windows", "x86"), "windows-x86");
}

#[test]
fn dist_type_probes_npx_then_uvx_then_binary() {
    let npx = NpxDistribution {
        package: "pkg-a".to_string(),
        args: vec!["--acp".to_string()],
        env: Vec::new(),
    };
    let uvx = UvxDistribution { package: "pkg-b".to_string(), args: Vec::new(), env: Vec::new() };
    let both = AcpDistribution { npx: Some(npx), uvx: Some(uvx), binary: None };
    assert_eq!(both.dist_type(), Some(DistributionType::Npx));
    let uvx2 = UvxDistribution { package: "pkg-b".to_string(), args: Vec::new(), env: Vec::new() };
    let uvx_only = AcpDistribution { npx: None, uvx: Some(uvx2), binary: None };
    assert_eq!(uvx_only.dist_type(), Some(DistributionType::Uvx));
    let bin_only = AcpDistribution { npx: None, uvx: None, binary: Some(Vec::new()) };
    assert_eq!(bin_only.dist_type(), Some(DistributionType::Binary));
    let none = AcpDistribution { npx: None, uvx: None, binary: None };
    assert_eq!(none.dist_type(), None);
}

#[test]
fn get_command_builds_the_runner_invocation() {
    let npx = NpxDistribution {
        package: "my-agent".to_string(),
        args: vec!["--acp".to_string(), "-v".to_string()],
        env: Vec::new(),
    };
    let e = entry(AcpDistribution { npx: Some(npx), uvx: None, binary: None });
    let (cmd, args) = e.get_command(None).unwrap();
    assert_eq!(cmd, "npx");
    assert_eq!(args, vec!["-y", "my-agent", "--acp", "-v"]);

    let uvx = UvxDistribution {
        package: "py-agent".to_string(),
        args: vec!["serve".to_string()],
        env: Vec::new(),
    };
    let e = entry(AcpDistribution { npx: None, uvx: Some(uvx), binary: None });
    let (cmd, args) = e.get_command(None).unwrap();
    assert_eq!(cmd, "uvx");
    assert_eq!(args, vec!["py-agent", "serve"]);

    let e = entry(AcpDistribution { npx: None, uvx: None, binary: Some(Vec::new()) });
    let (cmd, args) = e.get_command(Some("/opt/agents/bin/agent")).unwrap();
    assert_eq!(cmd, "/opt/agents/bin/agent");
    assert!(args.is_empty());
    assert!(e.get_command(None).is_none());
}

#[test]
fn binary_platform_lookup() {
    let info = BinaryInfo {
        archive: "https://example.com/agent-linux.tar.gz".to_string(),
        cmd: Some("./agent".to_string()),
        sha256: None,
    };
    let e = entry(AcpDistribution {
        npx: None,
        uvx: None,
        binary: Some(vec![("linux-x86_64".to_string(), info)]),
    });
    assert!(e.has_binary_for_platform("linux-x86_64"));
    assert!(!e.has_binary_for_platform("darwin-aarch64"));
    let found = e.get_binary_info("linux-x86_64").unwrap();
    assert_eq!(found.archive, "https://example.com/agent-linux.tar.gz");
    assert!(e.get_binary_info("windows-x86_64").is_none());
}

#[test]
fn get_package_prefers_npx() {
    let npx = NpxDistribution { package: "a".to_string(), args: Vec::new(), env: Vec::new() };
    let uvx = UvxDistribution { package: "b".to_string(), args: Vec::new(), env: Vec::new() };
    let e = entry(AcpDistribution { npx: Some(npx), uvx: Some(uvx), binary: None });
    assert_eq!(e.get_package(), Some("a".to_string()));
    let e = entry(AcpDistribution { npx: None, uvx: None, binary: None });
    assert_eq!(e.get_package(), None);
}
