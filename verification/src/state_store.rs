//! Installation state: the durable mapping from agent id to installed
//! version, kind and path.  This module holds the in-memory state and
//! its mutations; loading and flushing the backing file is the
//! caller's side of the write-through contract.

use vstd::prelude::*;
use crate::registry::{DistributionType, InstalledAgentInfo};
use crate::strutil::str_eq;

verus! {

/// Relies on `chrono::Utc::now().to_rfc3339`: the current time as an
/// RFC 3339 string.  Nothing is promised of the value.
#[verifier::external_body]
pub fn now_rfc3339() -> (r: String) {
    chrono::Utc::now().to_rfc3339()
}

/// State of all installed agents: one record per agent id.
pub struct InstalledAgentsState {
    pub agents: Vec<InstalledAgentInfo>,
}

impl Default for InstalledAgentsState {
    /// An empty state, as a fresh installation starts with.
    fn default() -> (r: Self)
        ensures
            r.agents@.len() == 0,
            r.wf(),
    {
        let r = InstalledAgentsState { agents: Vec::new() };
        r
    }
}

impl InstalledAgentsState {
    /// Well-formedness: agent ids are unique keys.
    pub open spec fn wf(self) -> bool {
        forall|i: int, j: int|
            0 <= i < j < self.agents@.len() ==> (#[trigger] self.agents@[i]).agent_id@ != (
            #[trigger] self.agents@[j]).agent_id@
    }

    /// Whether a record exists for `id`.
    pub open spec fn contains_agent(self, id: Seq<char>) -> bool {
        exists|i: int| 0 <= i < self.agents@.len() && (#[trigger] self.agents@[i]).agent_id@ == id
    }

    /// The index of the record for `id`.
    pub open spec fn idx_of(self, id: Seq<char>) -> int {
        choose|i: int| 0 <= i < self.agents@.len() && (#[trigger] self.agents@[i]).agent_id@ == id
    }

    /// The record stored for `id`.
    pub open spec fn info_of(self, id: Seq<char>) -> InstalledAgentInfo {
        self.agents@[self.idx_of(id)]
    }

    /// Under well-formedness, any slot holding `id` is the slot
    /// `info_of` reads.
    pub proof fn lemma_info_at(self, i: int)
        requires
            self.wf(),
            0 <= i < self.agents@.len(),
        ensures
            self.contains_agent(self.agents@[i].agent_id@),
            self.info_of(self.agents@[i].agent_id@) == self.agents@[i],
    {
        let id = self.agents@[i].agent_id@;
        assert(self.contains_agent(id));
        let k = self.idx_of(id);
        if k != i {
            assert(self.agents@[k].agent_id@ == id);
            assert(false);
        }
    }

    fn find_agent(&self, agent_id: &str) -> (r: Option<usize>)
        ensures
            r matches Some(i) ==> i < self.agents@.len() && self.agents@[i as int].agent_id@
                == agent_id@,
            r is None ==> !self.contains_agent(agent_id@),
    {
        let mut i: usize = 0;
        while i < self.agents.len()
            invariant
                i <= self.agents.len(),
                forall|j: int| 0 <= j < i ==> (#[trigger] self.agents@[j]).agent_id@ != agent_id@,
            decreases self.agents.len() - i,
        {
            if str_eq(self.agents[i].agent_id.as_str(), agent_id) {
                return Some(i);
            }
            i += 1;
        }
        None
    }

    /// Whether an agent is installed.
    pub fn is_installed(&self, agent_id: &str) -> (r: bool)
        ensures
            r == self.contains_agent(agent_id@),
    {
        self.find_agent(agent_id).is_some()
    }

    /// The installed version of an agent, if any.
    pub fn get_installed_version(&self, agent_id: &str) -> (r: Option<String>)
        requires
            self.wf(),
        ensures
            r is Some <==> self.contains_agent(agent_id@),
            r matches Some(v) ==> v@ == self.info_of(agent_id@).version@,
    {
        match self.find_agent(agent_id) {
            Option::Some(i) => {
                proof {
                    self.lemma_info_at(i as int);
                }
                Some(self.agents[i].version.clone())
            },
            Option::None => None,
        }
    }

    /// A copy of the record for an installed agent, if any.
    pub fn get_installed_info(&self, agent_id: &str) -> (r: Option<InstalledAgentInfo>)
        requires
            self.wf(),
        ensures
            r is Some <==> self.contains_agent(agent_id@),
            r matches Some(info) ==> info == self.info_of(agent_id@),
    {
        match self.find_agent(agent_id) {
            Option::Some(i) => {
                proof {
                    self.lemma_info_at(i as int);
                }
                Some(clone_info(&self.agents[i]))
            },
            Option::None => None,
        }
    }

    /// Copies of all installed records, in storage order.
    pub fn get_all_installed(&self) -> (r: Vec<InstalledAgentInfo>)
        ensures
            r@.len() == self.agents@.len(),
            forall|i: int| 0 <= i < r@.len() ==> #[trigger] r@[i] == self.agents@[i],
    {
        let mut r: Vec<InstalledAgentInfo> = Vec::new();
        let mut i: usize = 0;
        while i < self.agents.len()
            invariant
                i <= self.agents.len(),
                r@.len() == i,
                forall|j: int| 0 <= j < i ==> #[trigger] r@[j] == self.agents@[j],
            decreases self.agents.len() - i,
        {
            r.push(clone_info(&self.agents[i]));
            i += 1;
        }
        r
    }

    /// Records an agent as installed, replacing any existing record
    /// for the same id.  The new record carries the requested version
    /// verbatim; the timestamp is the wall clock's and is the one
    /// field nothing is promised of.  Records of other agents are
    /// untouched.
    pub fn mark_installed(
        &mut self,
        agent_id: &str,
        version: &str,
        dist_type: DistributionType,
        binary_path: Option<String>,
        package: Option<String>,
    )
        requires
            old(self).wf(),
        ensures
            final(self).wf(),
            final(self).contains_agent(agent_id@),
            final(self).info_of(agent_id@).agent_id@ == agent_id@,
            final(self).info_of(agent_id@).version@ == version@,
            final(self).info_of(agent_id@).dist_type == dist_type,
            final(self).info_of(agent_id@).binary_path == binary_path,
            final(self).info_of(agent_id@).package == package,
            forall|k: Seq<char>|
                k != agent_id@ ==> (#[trigger] final(self).contains_agent(k) <==> old(
                    self,
                ).contains_agent(k)),
            forall|k: Seq<char>|
                k != agent_id@ && old(self).contains_agent(k) ==> #[trigger] final(self).info_of(k)
                    == old(self).info_of(k),
    {
        let ghost pre = *self;
        let info = InstalledAgentInfo {
            agent_id: agent_id.to_owned(),
            version: version.to_owned(),
            dist_type,
            installed_at: now_rfc3339(),
            binary_path,
            package,
        };
        match self.find_agent(agent_id) {
            Option::Some(i) => {
                set_info(&mut self.agents, i, info);
                proof {
                    assert forall|p: int|
                        0 <= p < self.agents@.len() implies (#[trigger] self.agents@[p]).agent_id@
                        == pre.agents@[p].agent_id@ by {}
                    assert(self.wf());
                    self.lemma_info_at(i as int);
                    assert forall|k: Seq<char>|
                        k != agent_id@ implies (#[trigger] self.contains_agent(k) <==> pre
                        .contains_agent(k)) by {
                        if self.contains_agent(k) {
                            let j = self.idx_of(k);
                            assert(pre.agents@[j].agent_id@ == k);
                        }
                        if pre.contains_agent(k) {
                            let j = pre.idx_of(k);
                            assert(self.agents@[j].agent_id@ == k);
                        }
                    }
                    assert forall|k: Seq<char>|
                        k != agent_id@ && pre.contains_agent(k) implies #[trigger] self.info_of(k)
                        == pre.info_of(k) by {
                        assert(self.contains_agent(k));
                        let j = self.idx_of(k);
                        assert(self.agents@[j].agent_id@ == k);
                        assert(j != i);
                        assert(self.agents@[j] == pre.agents@[j]);
                        pre.lemma_info_at(j);
                    }
                }
            },
            Option::None => {
                self.agents.push(info);
                proof {
                    let n = self.agents@.len() - 1;
                    assert(self.agents@[n].agent_id@ == agent_id@);
                    assert(self.wf()) by {
                        assert forall|p: int, q: int|
                            0 <= p < q < self.agents@.len() implies (
                        #[trigger] self.agents@[p]).agent_id@ != (
                        #[trigger] self.agents@[q]).agent_id@ by {
                            if q == n {
                                assert(self.agents@[p] == pre.agents@[p]);
                                if self.agents@[p].agent_id@ == agent_id@ {
                                    assert(pre.contains_agent(agent_id@));
                                }
                            }
                        }
                    }
                    self.lemma_info_at(n);
                    assert forall|k: Seq<char>|
                        k != agent_id@ implies (#[trigger] self.contains_agent(k) <==> pre
                        .contains_agent(k)) by {
                        if self.contains_agent(k) {
                            let j = self.idx_of(k);
                            assert(j != n);
                            assert(pre.agents@[j].agent_id@ == k);
                        }
                        if pre.contains_agent(k) {
                            let j = pre.idx_of(k);
                            assert(self.agents@[j].agent_id@ == k);
                        }
                    }
                    assert forall|k: Seq<char>|
                        k != agent_id@ && pre.contains_agent(k) implies #[trigger] self.info_of(k)
                        == pre.info_of(k) by {
                        assert(self.contains_agent(k));
                        let j = self.idx_of(k);
                        assert(self.agents@[j].agent_id@ == k);
                        assert(j != n);
                        assert(self.agents@[j] == pre.agents@[j]);
                        pre.lemma_info_at(j);
                    }
                }
            },
        }
    }

    /// Removes the record for an agent; absence is not an error.
    /// Afterwards no record exists for the id, and records of other
    /// agents are untouched.
    pub fn uninstall(&mut self, agent_id: &str)
        requires
            old(self).wf(),
        ensures
            final(self).wf(),
            !final(self).contains_agent(agent_id@),
            forall|k: Seq<char>|
                k != agent_id@ ==> (#[trigger] final(self).contains_agent(k) <==> old(
                    self,
                ).contains_agent(k)),
            forall|k: Seq<char>|
                k != agent_id@ && old(self).contains_agent(k) ==> #[trigger] final(self).info_of(k)
                    == old(self).info_of(k),
    {
        let ghost pre = *self;
        if let Option::Some(i) = self.find_agent(agent_id) {
            self.agents.remove(i);
            proof {
                if self.contains_agent(agent_id@) {
                    let j = self.idx_of(agent_id@);
                    if j < i {
                        assert(pre.agents@[j].agent_id@ == agent_id@);
                        assert(j != i);
                        assert(false);
                    } else {
                        assert(pre.agents@[j + 1].agent_id@ == agent_id@);
                        assert(false);
                    }
                }
                assert forall|k: Seq<char>|
                    k != agent_id@ implies (#[trigger] self.contains_agent(k) <==> pre
                    .contains_agent(k)) by {
                    if pre.contains_agent(k) {
                        let j = pre.idx_of(k);
                        if j < i {
                            assert(self.agents@[j].agent_id@ == k);
                        } else {
                            assert(j != i);
                            assert(self.agents@[j - 1].agent_id@ == k);
                        }
                    }
                    if self.contains_agent(k) {
                        let j = self.idx_of(k);
                        if j < i {
                            assert(pre.agents@[j].agent_id@ == k);
                        } else {
                            assert(pre.agents@[j + 1].agent_id@ == k);
                        }
                    }
                }
                assert forall|k: Seq<char>|
                    k != agent_id@ && pre.contains_agent(k) implies #[trigger] self.info_of(k)
                    == pre.info_of(k) by {
                    assert(self.contains_agent(k));
                    let j = self.idx_of(k);
                    assert(self.agents@[j].agent_id@ == k);
                    if j < i {
                        assert(pre.agents@[j] == self.agents@[j]);
                        pre.lemma_info_at(j);
                    } else {
                        assert(pre.agents@[j + 1] == self.agents@[j]);
                        pre.lemma_info_at(j + 1);
                    }
                }
            }
        }
    }

    /// Whether a newer version is available: true exactly when the
    /// agent is installed and its recorded version differs from
    /// `latest_version`.  An agent that is not installed has no
    /// update.
    pub fn has_update(&self, agent_id: &str, latest_version: &str) -> (r: bool)
        requires
            self.wf(),
        ensures
            r == (self.contains_agent(agent_id@) && self.info_of(agent_id@).version@
                != latest_version@),
    {
        match self.find_agent(agent_id) {
            Option::Some(i) => {
                proof {
                    self.lemma_info_at(i as int);
                }
                !str_eq(self.agents[i].version.as_str(), latest_version)
            },
            Option::None => false,
        }
    }
}

fn set_info(v: &mut Vec<InstalledAgentInfo>, i: usize, info: InstalledAgentInfo)
    requires
        i < old(v).len(),
    ensures
        final(v)@ == old(v)@.update(i as int, info),
{
    let e = &mut v[i];
    *e = info;
}

/// A field-for-field copy of one installed record.
fn clone_info(info: &InstalledAgentInfo) -> (r: InstalledAgentInfo)
    ensures
        r == *info,
{
    InstalledAgentInfo {
        agent_id: info.agent_id.clone(),
        version: info.version.clone(),
        dist_type: info.dist_type,
        installed_at: info.installed_at.clone(),
        binary_path: clone_opt_string(&info.binary_path),
        package: clone_opt_string(&info.package),
    }
}

fn clone_opt_string(s: &Option<String>) -> (r: Option<String>)
    ensures
        r == *s,
{
    match s {
        Option::Some(x) => Some(x.clone()),
        Option::None => None,
    }
}

} // verus!
