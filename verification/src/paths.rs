//! Installation paths: deterministic on-disk locations for agent
//! binaries, download staging, runtimes, icons and state files, all
//! computed from one base directory.
//!
//! Layout under the base directory:
//!   - agent binaries: `{base}/{agentId}/{version}/`
//!   - downloads: `{base}/.downloads/{agentId}/{version}/`
//!   - runtimes: `{base}/.runtimes/{runtime}/{version}/`
//!   - icons: `{base}/.icons/`
//!   - registry cache: `{base}/registry.json`
//!   - installed state: `{base}/installed.json`

use vstd::prelude::*;
use crate::strutil::str_eq;

verus! {

/// A path below `base`, formed by appending `/` and the segment.
pub open spec fn path_join(base: Seq<char>, seg: Seq<char>) -> Seq<char> {
    base + seq!['/'] + seg
}

/// Paths manager for local agent installation.  The view of an
/// `AcpPaths` value is the character sequence of its base directory.
pub struct AcpPaths {
    base_dir: String,
}

impl View for AcpPaths {
    type V = Seq<char>;

    closed spec fn view(&self) -> Seq<char> {
        self.base_dir@
    }
}

/// Appends one path segment below `base`.
fn join_one(base: &String, seg: &str) -> (r: String)
    ensures
        r@ == path_join(base@, seg@),
{
    let mut s = base.clone();
    s.append("/");
    s.append(seg);
    proof {
        reveal_strlit("/");
        assert(s@ =~= path_join(base@, seg@));
    }
    s
}

/// Relies on `dirs::data_local_dir` for the platform data directory;
/// converts the result to a plain string.
#[verifier::external_body]
fn data_local_dir_string() -> (r: Option<String>) {
    dirs::data_local_dir().map(|p| p.to_string_lossy().to_string())
}

impl AcpPaths {
    /// Creates a paths manager rooted in the system data directory
    /// (falling back to the current directory), under `acp-agents`.
    pub fn new() -> (r: Self)
        ensures
            exists|d: Seq<char>| r@ == path_join(d, "acp-agents"@),
    {
        let base: String = match data_local_dir_string() {
            Option::Some(d) => d,
            Option::None => ".".to_owned(),
        };
        let joined = join_one(&base, "acp-agents");
        proof {
            assert(joined@ == path_join(base@, "acp-agents"@));
        }
        AcpPaths { base_dir: joined }
    }

    /// Creates a paths manager over a caller-chosen base directory.
    pub fn with_base_dir(base_dir: String) -> (r: Self)
        ensures
            r@ == base_dir@,
    {
        AcpPaths { base_dir }
    }

    /// The base directory for all agent data.
    pub fn base_dir(&self) -> (r: &String)
        ensures
            r@ == self@,
    {
        &self.base_dir
    }

    /// The directory for a specific agent.
    pub fn agent_dir(&self, agent_id: &str) -> (r: String)
        ensures
            r@ == path_join(self@, agent_id@),
    {
        join_one(&self.base_dir, agent_id)
    }

    /// The directory for a specific agent version.
    pub fn agent_version_dir(&self, agent_id: &str, version: &str) -> (r: String)
        ensures
            r@ == path_join(path_join(self@, agent_id@), version@),
    {
        let d = self.agent_dir(agent_id);
        join_one(&d, version)
    }

    /// The download staging directory.
    pub fn downloads_dir(&self) -> (r: String)
        ensures
            r@ == path_join(self@, ".downloads"@),
    {
        join_one(&self.base_dir, ".downloads")
    }

    /// The download staging directory for a specific agent version.
    pub fn agent_download_dir(&self, agent_id: &str, version: &str) -> (r: String)
        ensures
            r@ == path_join(path_join(path_join(self@, ".downloads"@), agent_id@), version@),
    {
        let d = self.downloads_dir();
        let d2 = join_one(&d, agent_id);
        join_one(&d2, version)
    }

    /// The runtimes directory.
    pub fn runtimes_dir(&self) -> (r: String)
        ensures
            r@ == path_join(self@, ".runtimes"@),
    {
        join_one(&self.base_dir, ".runtimes")
    }

    /// The directory for a specific runtime version.
    pub fn runtime_dir(&self, runtime: &str, version: &str) -> (r: String)
        ensures
            r@ == path_join(path_join(path_join(self@, ".runtimes"@), runtime@), version@),
    {
        let d = self.runtimes_dir();
        let d2 = join_one(&d, runtime);
        join_one(&d2, version)
    }

    /// The icons directory.
    pub fn icons_dir(&self) -> (r: String)
        ensures
            r@ == path_join(self@, ".icons"@),
    {
        join_one(&self.base_dir, ".icons")
    }

    /// The path of the registry cache file.
    pub fn registry_cache_path(&self) -> (r: String)
        ensures
            r@ == path_join(self@, "registry.json"@),
    {
        join_one(&self.base_dir, "registry.json")
    }

    /// The path of the installed-agents state file.
    pub fn installed_state_path(&self) -> (r: String)
        ensures
            r@ == path_join(self@, "installed.json"@),
    {
        join_one(&self.base_dir, "installed.json")
    }
}

impl Default for AcpPaths {
    /// The paths manager rooted in the system data directory.
    fn default() -> (r: Self)
        ensures
            exists|d: Seq<char>| r@ == path_join(d, "acp-agents"@),
    {
        AcpPaths::new()
    }
}

/// The canonical name of an operating system, as used in platform
/// target strings.
pub open spec fn canonical_os(os: Seq<char>) -> Seq<char> {
    if os == "macos"@ {
        "darwin"@
    } else {
        os
    }
}

/// The platform target string `os-arch`, with the operating-system
/// name canonicalised.
pub open spec fn platform_target(os: Seq<char>, arch: Seq<char>) -> Seq<char> {
    canonical_os(os) + seq!['-'] + arch
}

/// Builds the platform target string for a given operating system and
/// architecture, e.g. `darwin-aarch64` or `linux-x86_64`.
pub fn platform_string(os: &str, arch: &str) -> (r: String)
    ensures
        r@ == platform_target(os@, arch@),
{
    let os_name: String = if str_eq(os, "macos") {
        "darwin".to_owned()
    } else {
        os.to_owned()
    };
    let mut s = os_name;
    s.append("-");
    s.append(arch);
    proof {
        reveal_strlit("-");
        assert(s@ =~= platform_target(os@, arch@));
    }
    s
}

} // verus!
