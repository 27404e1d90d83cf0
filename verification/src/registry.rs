//! Registry model: the in-memory representation of the remote catalog
//! of agents, each with a distribution descriptor — a package-manager
//! invocation, or per-platform binary archives with entry point and
//! checksum — together with the record kept for each installed agent.

use vstd::prelude::*;

verus! {

/// The root registry containing all available agents.
pub struct AcpRegistry {
    pub version: Option<String>,
    pub agents: Vec<AcpAgentEntry>,
}

/// An agent entry in the registry.
pub struct AcpAgentEntry {
    pub id: String,
    pub name: String,
    pub version: String,
    pub description: String,
    pub icon: Option<String>,
    pub homepage: Option<String>,
    pub repository: Option<String>,
    pub authors: Vec<String>,
    pub license: Option<String>,
    pub distribution: AcpDistribution,
}

/// Distribution information for an agent: at most one of the three
/// shapes is meaningful, probed in the order npx, uvx, binary.
pub struct AcpDistribution {
    pub npx: Option<NpxDistribution>,
    pub uvx: Option<UvxDistribution>,
    /// Platform target string, e.g. `linux-x86_64`, to binary info.
    pub binary: Option<Vec<(String, BinaryInfo)>>,
}

/// A distribution run through the npm package runner.
pub struct NpxDistribution {
    pub package: String,
    pub args: Vec<String>,
    pub env: Vec<(String, String)>,
}

/// A distribution run through the Python package runner.
pub struct UvxDistribution {
    pub package: String,
    pub args: Vec<String>,
    pub env: Vec<(String, String)>,
}

/// The kind of distribution an agent was installed from.
#[derive(Clone, Copy, PartialEq, Eq, Structural, Debug)]
pub enum DistributionType {
    Npx,
    Uvx,
    Binary,
}

/// Binary distribution info for a specific platform.
pub struct BinaryInfo {
    /// Archive URL to download.
    pub archive: String,
    /// Command to run after extraction.
    pub cmd: Option<String>,
    pub sha256: Option<String>,
}

/// The record kept for one installed agent.
pub struct InstalledAgentInfo {
    pub agent_id: String,
    pub version: String,
    pub dist_type: DistributionType,
    pub installed_at: String,
    /// Path of the installed binary (binary kind).
    pub binary_path: Option<String>,
    /// Package name (npx/uvx kind).
    pub package: Option<String>,
}

/// Whether the association list holds an entry under `key`.
pub open spec fn assoc_contains(s: Seq<(String, BinaryInfo)>, key: Seq<char>) -> bool {
    exists|i: int| 0 <= i < s.len() && s[i].0@ == key
}

impl AcpDistribution {
    /// The distribution type implied by which shape is present.
    pub open spec fn spec_dist_type(self) -> Option<DistributionType> {
        if self.npx is Some {
            Some(DistributionType::Npx)
        } else if self.uvx is Some {
            Some(DistributionType::Uvx)
        } else if self.binary is Some {
            Some(DistributionType::Binary)
        } else {
            None
        }
    }

    /// The distribution type: npx, then uvx, then binary.
    pub fn dist_type(&self) -> (r: Option<DistributionType>)
        ensures
            r == self.spec_dist_type(),
    {
        if self.npx.is_some() {
            Some(DistributionType::Npx)
        } else if self.uvx.is_some() {
            Some(DistributionType::Uvx)
        } else if self.binary.is_some() {
            Some(DistributionType::Binary)
        } else {
            None
        }
    }
}

impl AcpAgentEntry {
    /// The distribution type for this agent.
    pub fn dist_type(&self) -> (r: Option<DistributionType>)
        ensures
            r == self.distribution.spec_dist_type(),
    {
        self.distribution.dist_type()
    }

    /// The command line that runs this agent: the package runner with
    /// the package and its fixed arguments, or the resolved binary.
    pub fn get_command(&self, binary_path: Option<&str>) -> (r: Option<(String, Vec<String>)>)
        ensures
            self.distribution.npx matches Some(npx) ==> (r matches Some(c) && c.0@ == "npx"@
                && c.1.deep_view() == seq!["-y"@, npx.package@] + npx.args.deep_view()),
            match self.distribution.uvx {
                Some(uvx) => self.distribution.npx is None ==> (r matches Some(c) && c.0@
                    == "uvx"@ && c.1.deep_view() == seq![uvx.package@] + uvx.args.deep_view()),
                None => true,
            },
            self.distribution.npx is None && self.distribution.uvx is None
                && self.distribution.binary is Some ==> match binary_path {
                Some(p) => r matches Some(c) && c.0@ == p@ && c.1.deep_view()
                    == Seq::<Seq<char>>::empty(),
                None => r is None,
            },
            self.distribution.spec_dist_type() is None ==> r is None,
    {
        if let Option::Some(npx) = &self.distribution.npx {
            let mut cmd_args: Vec<String> = Vec::new();
            cmd_args.push("-y".to_owned());
            cmd_args.push(npx.package.clone());
            let mut i: usize = 0;
            while i < npx.args.len()
                invariant
                    i <= npx.args.len(),
                    cmd_args.deep_view() == seq!["-y"@, npx.package@] + npx.args.deep_view()
                        .subrange(0, i as int),
                decreases npx.args.len() - i,
            {
                let ghost pre = cmd_args.deep_view();
                cmd_args.push(npx.args[i].clone());
                proof {
                    assert(cmd_args.deep_view() =~= pre.push(npx.args@[i as int]@));
                    assert(npx.args.deep_view().subrange(0, i + 1) =~= npx.args.deep_view()
                        .subrange(0, i as int).push(npx.args@[i as int]@));
                    assert(cmd_args.deep_view() =~= seq!["-y"@, npx.package@]
                        + npx.args.deep_view().subrange(0, i + 1));
                }
                i += 1;
            }
            proof {
                assert(npx.args.deep_view().subrange(0, npx.args@.len() as int) =~= npx.args
                    .deep_view());
            }
            return Some(("npx".to_owned(), cmd_args));
        }
        if let Option::Some(uvx) = &self.distribution.uvx {
            let mut cmd_args: Vec<String> = Vec::new();
            cmd_args.push(uvx.package.clone());
            let mut i: usize = 0;
            while i < uvx.args.len()
                invariant
                    i <= uvx.args.len(),
                    cmd_args.deep_view() == seq![uvx.package@] + uvx.args.deep_view().subrange(
                        0,
                        i as int,
                    ),
                decreases uvx.args.len() - i,
            {
                let ghost pre = cmd_args.deep_view();
                cmd_args.push(uvx.args[i].clone());
                proof {
                    assert(cmd_args.deep_view() =~= pre.push(uvx.args@[i as int]@));
                    assert(uvx.args.deep_view().subrange(0, i + 1) =~= uvx.args.deep_view()
                        .subrange(0, i as int).push(uvx.args@[i as int]@));
                    assert(cmd_args.deep_view() =~= seq![uvx.package@] + uvx.args.deep_view()
                        .subrange(0, i + 1));
                }
                i += 1;
            }
            proof {
                assert(uvx.args.deep_view().subrange(0, uvx.args@.len() as int) =~= uvx.args
                    .deep_view());
            }
            return Some(("uvx".to_owned(), cmd_args));
        }
        if self.distribution.binary.is_some() {
            let path: &str = match binary_path {
                Option::Some(p) => p,
                Option::None => {
                    return None;
                },
            };
            let empty: Vec<String> = Vec::new();
            proof {
                assert(empty.deep_view() =~= Seq::<Seq<char>>::empty());
            }
            return Some((path.to_owned(), empty));
        }
        None
    }

    /// Whether this agent ships a binary for the given platform.
    pub fn has_binary_for_platform(&self, platform: &str) -> (r: bool)
        ensures
            r == match self.distribution.binary {
                Some(b) => assoc_contains(b@, platform@),
                None => false,
            },
    {
        match &self.distribution.binary {
            Option::None => false,
            Option::Some(b) => {
                let mut i: usize = 0;
                while i < b.len()
                    invariant
                        i <= b.len(),
                        self.distribution.binary == Some(*b),
                        forall|j: int| 0 <= j < i ==> (#[trigger] b@[j]).0@ != platform@,
                    decreases b.len() - i,
                {
                    if crate::strutil::str_eq(b[i].0.as_str(), platform) {
                        proof {
                            assert(b@[i as int].0@ == platform@);
                        }
                        return true;
                    }
                    i += 1;
                }
                false
            },
        }
    }

    /// The binary info for a specific platform, if any.
    pub fn get_binary_info(&self, platform: &str) -> (r: Option<&BinaryInfo>)
        ensures
            r is Some <==> (self.distribution.binary matches Some(b) && assoc_contains(
                b@,
                platform@,
            )),
            r matches Some(info) ==> (self.distribution.binary matches Some(b) && exists|i: int|
                0 <= i < b@.len() && b@[i].0@ == platform@ && b@[i].1 == *info),
    {
        match &self.distribution.binary {
            Option::None => None,
            Option::Some(b) => {
                let mut i: usize = 0;
                while i < b.len()
                    invariant
                        i <= b.len(),
                        self.distribution.binary == Some(*b),
                        forall|j: int| 0 <= j < i ==> (#[trigger] b@[j]).0@ != platform@,
                    decreases b.len() - i,
                {
                    if crate::strutil::str_eq(b[i].0.as_str(), platform) {
                        proof {
                            assert(b@[i as int].0@ == platform@);
                        }
                        return Some(&b[i].1);
                    }
                    i += 1;
                }
                None
            },
        }
    }

    /// The package name for npx/uvx distributions.
    pub fn get_package(&self) -> (r: Option<String>)
        ensures
            self.distribution.npx matches Some(npx) ==> (r matches Some(p) && p@ == npx.package@),
            match self.distribution.uvx {
                Some(uvx) => self.distribution.npx is None ==> (r matches Some(p) && p@
                    == uvx.package@),
                None => true,
            },
            self.distribution.npx is None && self.distribution.uvx is None ==> r is None,
    {
        if let Option::Some(npx) = &self.distribution.npx {
            return Some(npx.package.clone());
        }
        if let Option::Some(uvx) = &self.distribution.uvx {
            return Some(uvx.package.clone());
        }
        None
    }
}

} // verus!
