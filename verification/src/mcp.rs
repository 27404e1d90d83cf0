//! MCP protocol gateway (Streamable-HTTP shape): transport-level
//! sessions keyed by the id carried in the session header, the
//! dispatch of the JSON-RPC methods, the rules for the event stream
//! and for session termination, and the standalone-server flag.

use vstd::prelude::*;
use crate::strutil::{str_concat, str_eq};
use crate::tools::{ToolArgs, ToolDef, ToolPlan, is_catalog, plan_matches, plan_tool, tool_catalog};

verus! {

/// One transport session: the header id it travels under and the
/// workspace it is keyed to.
pub struct McpSessionData {
    pub session_id: String,
    pub workspace_id: String,
}

/// A parsed MCP request, one variant per method.  The id minted for
/// `initialize` arrives as a field, so dispatch is a function of its
/// inputs.
pub enum McpRequest {
    Initialize { session_id: String, protocol_version: Option<String> },
    ToolsList,
    ToolsCall { name: String, args: ToolArgs },
    NotificationsInitialized,
    Unknown { method: String },
}

/// The response to one MCP request.
pub enum McpReply {
    InitializeResult { session_id: String, protocol_version: String },
    ToolsListResult { tools: Vec<ToolDef> },
    EmptyResult,
    RpcError { code: i64, message: String },
}

/// What the transport should do next: answer at once, or execute the
/// validated tool plan against the collaborator stores and wrap its
/// outcome as the result.
pub enum McpAction {
    Reply(McpReply),
    RunTool(ToolPlan),
}

/// The decision for a `GET` stream request: open the heartbeat
/// stream, or reject with the JSON-RPC-shaped error body.
pub enum StreamDecision {
    Stream,
    Reject { code: i64, message: String },
}

/// The decision for a `DELETE` request.
pub enum DeleteOutcome {
    NoContent,
    NotFound { message: String },
    BadRequest { message: String },
}

/// The MCP gateway's session store.
pub struct McpGateway {
    sessions: Vec<McpSessionData>,
}

impl McpGateway {
    /// The live transport sessions.
    pub closed spec fn spec_sessions(self) -> Seq<McpSessionData> {
        self.sessions@
    }

    /// Well-formedness: session ids are unique keys.
    pub open spec fn wf(self) -> bool {
        forall|i: int, j: int|
            0 <= i < j < self.spec_sessions().len() ==> (#[trigger] self.spec_sessions()[i]).session_id@
                != (#[trigger] self.spec_sessions()[j]).session_id@
    }

    /// Whether a session is live under `id`.
    pub open spec fn contains_session(self, id: Seq<char>) -> bool {
        exists|i: int|
            0 <= i < self.spec_sessions().len() && (#[trigger] self.spec_sessions()[i]).session_id@
                == id
    }

    /// The session stored under `id`.
    pub open spec fn session_of(self, id: Seq<char>) -> McpSessionData {
        self.spec_sessions()[choose|i: int|
            0 <= i < self.spec_sessions().len() && (#[trigger] self.spec_sessions()[i]).session_id@
                == id]
    }

    pub proof fn lemma_session_at(self, i: int)
        requires
            self.wf(),
            0 <= i < self.spec_sessions().len(),
        ensures
            self.contains_session(self.spec_sessions()[i].session_id@),
            self.session_of(self.spec_sessions()[i].session_id@) == self.spec_sessions()[i],
    {
        let id = self.spec_sessions()[i].session_id@;
        assert(self.contains_session(id));
        let k = choose|k: int|
            0 <= k < self.spec_sessions().len() && (#[trigger] self.spec_sessions()[k]).session_id@
                == id;
        if k != i {
            assert(self.spec_sessions()[k].session_id@ == id);
            assert(false);
        }
    }

    /// An empty gateway.
    pub fn new() -> (r: Self)
        ensures
            r.wf(),
            r.spec_sessions().len() == 0,
    {
        McpGateway { sessions: Vec::new() }
    }

    fn find_session(&self, id: &str) -> (r: Option<usize>)
        ensures
            r matches Some(i) ==> i < self.spec_sessions().len()
                && self.spec_sessions()[i as int].session_id@ == id@,
            r is None ==> !self.contains_session(id@),
    {
        let mut i: usize = 0;
        while i < self.sessions.len()
            invariant
                i <= self.sessions.len(),
                forall|j: int| 0 <= j < i ==> (#[trigger] self.spec_sessions()[j]).session_id@ != id@,
            decreases self.sessions.len() - i,
        {
            if str_eq(self.sessions[i].session_id.as_str(), id) {
                return Some(i);
            }
            i += 1;
        }
        None
    }

    /// Registers a transport session under `session_id`, keyed to the
    /// given workspace; an id already present keeps a single record.
    pub fn register_session(&mut self, session_id: String, workspace_id: String)
        requires
            old(self).wf(),
        ensures
            final(self).wf(),
            final(self).contains_session(session_id@),
            final(self).session_of(session_id@).session_id@ == session_id@,
            final(self).session_of(session_id@).workspace_id == workspace_id,
            forall|k: Seq<char>|
                k != session_id@ ==> (#[trigger] final(self).contains_session(k) <==> old(
                    self,
                ).contains_session(k)),
    {
        let ghost pre = *self;
        let found = self.find_session(session_id.as_str());
        let data = McpSessionData { session_id, workspace_id };
        match found {
            Option::Some(i) => {
                set_mcp_session(&mut self.sessions, i, data);
                proof {
                    assert forall|p: int|
                        0 <= p < self.spec_sessions().len() implies (#[trigger] self.spec_sessions()[p]).session_id@
                        == pre.spec_sessions()[p].session_id@ by {}
                    assert(self.wf());
                    assert(self.spec_sessions()[i as int].session_id@ == data.session_id@);
                    self.lemma_session_at(i as int);
                    assert forall|k: Seq<char>|
                        k != data.session_id@ implies (#[trigger] self.contains_session(k) <==> pre
                        .contains_session(k)) by {
                        if self.contains_session(k) {
                            let j = choose|j: int|
                                0 <= j < self.spec_sessions().len() && (#[trigger] self.spec_sessions()[j]).session_id@
                                    == k;
                            assert(pre.spec_sessions()[j].session_id@ == k);
                        }
                        if pre.contains_session(k) {
                            let j = choose|j: int|
                                0 <= j < pre.spec_sessions().len() && (#[trigger] pre.spec_sessions()[j]).session_id@
                                    == k;
                            assert(self.spec_sessions()[j].session_id@ == k);
                        }
                    }
                }
            },
            Option::None => {
                self.sessions.push(data);
                proof {
                    let n = self.spec_sessions().len() - 1;
                    assert(self.spec_sessions()[n].session_id@ == data.session_id@);
                    assert(self.wf()) by {
                        assert forall|p: int, q: int|
                            0 <= p < q < self.spec_sessions().len() implies (
                        #[trigger] self.spec_sessions()[p]).session_id@ != (
                        #[trigger] self.spec_sessions()[q]).session_id@ by {
                            if q == n {
                                assert(self.spec_sessions()[p] == pre.spec_sessions()[p]);
                                if self.spec_sessions()[p].session_id@ == data.session_id@ {
                                    assert(pre.contains_session(data.session_id@));
                                }
                            }
                        }
                    }
                    self.lemma_session_at(n);
                    assert forall|k: Seq<char>|
                        k != data.session_id@ implies (#[trigger] self.contains_session(k) <==> pre
                        .contains_session(k)) by {
                        if self.contains_session(k) {
                            let j = choose|j: int|
                                0 <= j < self.spec_sessions().len() && (#[trigger] self.spec_sessions()[j]).session_id@
                                    == k;
                            assert(j != n);
                            assert(pre.spec_sessions()[j].session_id@ == k);
                        }
                        if pre.contains_session(k) {
                            let j = choose|j: int|
                                0 <= j < pre.spec_sessions().len() && (#[trigger] pre.spec_sessions()[j]).session_id@
                                    == k;
                            assert(self.spec_sessions()[j].session_id@ == k);
                        }
                    }
                }
            },
        }
    }

    /// Dispatches one POST request.  `initialize` registers the fresh
    /// session id and echoes the requested protocol version (or the
    /// default); `tools/list` returns the catalog; `tools/call` hands
    /// back the validated plan; `notifications/initialized` is an
    /// acknowledged no-op; anything else is method-not-found.
    pub fn handle(&mut self, req: McpRequest) -> (r: McpAction)
        requires
            old(self).wf(),
        ensures
            final(self).wf(),
            match req {
                McpRequest::Initialize { session_id, protocol_version } => {
                    &&& final(self).contains_session(session_id@)
                    &&& final(self).session_of(session_id@).workspace_id@ == "default"@
                    &&& forall|k: Seq<char>|
                        k != session_id@ ==> (#[trigger] final(self).contains_session(k) <==> old(
                            self,
                        ).contains_session(k))
                    &&& r matches McpAction::Reply(rep) && (rep matches
                        McpReply::InitializeResult { session_id: rid, protocol_version: pv } && rid@
                        == session_id@ && pv@ == (match protocol_version {
                        Some(v) => v@,
                        None => "2024-11-05"@,
                    }))
                },
                McpRequest::ToolsList => {
                    &&& final(self).spec_sessions() == old(self).spec_sessions()
                    &&& r matches McpAction::Reply(rep) && (rep matches
                        McpReply::ToolsListResult { tools } && is_catalog(tools@))
                },
                McpRequest::ToolsCall { name, args } => {
                    &&& final(self).spec_sessions() == old(self).spec_sessions()
                    &&& r matches McpAction::RunTool(plan) && plan_matches(name@, args, plan)
                },
                McpRequest::NotificationsInitialized => {
                    &&& final(self).spec_sessions() == old(self).spec_sessions()
                    &&& r == McpAction::Reply(McpReply::EmptyResult)
                },
                McpRequest::Unknown { method } => {
                    &&& final(self).spec_sessions() == old(self).spec_sessions()
                    &&& r matches McpAction::Reply(rep) && (rep matches
                        McpReply::RpcError { code, message } && code == -32601 && message@
                        == "Method not found: "@ + method@)
                },
            },
    {
        match req {
            McpRequest::Initialize { session_id, protocol_version } => {
                let rid = session_id.clone();
                self.register_session(session_id, "default".to_owned());
                let pv: String = match protocol_version {
                    Option::Some(v) => v,
                    Option::None => "2024-11-05".to_owned(),
                };
                McpAction::Reply(
                    McpReply::InitializeResult { session_id: rid, protocol_version: pv },
                )
            },
            McpRequest::ToolsList => McpAction::Reply(
                McpReply::ToolsListResult { tools: tool_catalog() },
            ),
            McpRequest::ToolsCall { name, args } => McpAction::RunTool(
                plan_tool(name.as_str(), args),
            ),
            McpRequest::NotificationsInitialized => McpAction::Reply(McpReply::EmptyResult),
            McpRequest::Unknown { method } => McpAction::Reply(
                McpReply::RpcError {
                    code: -32601,
                    message: str_concat("Method not found: ", method.as_str()),
                },
            ),
        }
    }

    /// Decides a `GET` stream request: only a previously issued
    /// session id opens the heartbeat stream; an absent or unknown id
    /// is rejected with the JSON-RPC-shaped error.
    pub fn open_stream(&self, session_id: Option<&String>) -> (r: StreamDecision)
        ensures
            (match session_id {
                Some(sid) => self.contains_session(sid@),
                None => false,
            }) ==> r == StreamDecision::Stream,
            (match session_id {
                Some(sid) => !self.contains_session(sid@),
                None => true,
            }) ==> (r matches StreamDecision::Reject { code, message } && code == -32600 && message@
                == "No active session. Send an initialize POST request first."@),
    {
        let ok = match session_id {
            Option::Some(sid) => self.find_session(sid.as_str()).is_some(),
            Option::None => false,
        };
        if ok {
            StreamDecision::Stream
        } else {
            StreamDecision::Reject {
                code: -32600,
                message: "No active session. Send an initialize POST request first.".to_owned(),
            }
        }
    }

    /// Terminates a session: 204 for a live id, 404 for an unknown
    /// one, 400 when the header is missing.  Other sessions are
    /// untouched.
    pub fn delete_session(&mut self, session_id: Option<&String>) -> (r: DeleteOutcome)
        requires
            old(self).wf(),
        ensures
            final(self).wf(),
            match session_id {
                None => r matches DeleteOutcome::BadRequest { message } && message@
                    == "Missing Mcp-Session-Id header"@ && final(self).spec_sessions() == old(
                    self,
                ).spec_sessions(),
                Some(sid) => {
                    &&& (old(self).contains_session(sid@) ==> r == DeleteOutcome::NoContent)
                    &&& (!old(self).contains_session(sid@) ==> (r matches
                        DeleteOutcome::NotFound { message } && message@ == "Session not found"@
                        && final(self).spec_sessions() == old(self).spec_sessions()))
                    &&& !final(self).contains_session(sid@)
                    &&& forall|k: Seq<char>|
                        k != sid@ ==> (#[trigger] final(self).contains_session(k) <==> old(
                            self,
                        ).contains_session(k))
                    &&& forall|k: Seq<char>|
                        k != sid@ && old(self).contains_session(k)
                            ==> #[trigger] final(self).session_of(k) == old(self).session_of(k)
                },
            },
    {
        let ghost pre = *self;
        let sid: &String = match session_id {
            Option::Some(s) => s,
            Option::None => {
                return DeleteOutcome::BadRequest {
                    message: "Missing Mcp-Session-Id header".to_owned(),
                };
            },
        };
        match self.find_session(sid.as_str()) {
            Option::None => DeleteOutcome::NotFound { message: "Session not found".to_owned() },
            Option::Some(i) => {
                self.sessions.remove(i);
                proof {
                    assert(self.wf()) by {
                        assert forall|p: int, q: int|
                            0 <= p < q < self.spec_sessions().len() implies (
                        #[trigger] self.spec_sessions()[p]).session_id@ != (
                        #[trigger] self.spec_sessions()[q]).session_id@ by {
                            if p < i {
                                assert(self.spec_sessions()[p] == pre.spec_sessions()[p]);
                            } else {
                                assert(self.spec_sessions()[p] == pre.spec_sessions()[p + 1]);
                            }
                            if q < i {
                                assert(self.spec_sessions()[q] == pre.spec_sessions()[q]);
                            } else {
                                assert(self.spec_sessions()[q] == pre.spec_sessions()[q + 1]);
                            }
                        }
                    };
                    if self.contains_session(sid@) {
                        let j = choose|j: int|
                            0 <= j < self.spec_sessions().len() && (#[trigger] self.spec_sessions()[j]).session_id@
                                == sid@;
                        if j < i {
                            assert(pre.spec_sessions()[j].session_id@ == sid@);
                            assert(false);
                        } else {
                            assert(pre.spec_sessions()[j + 1].session_id@ == sid@);
                            assert(false);
                        }
                    }
                    assert forall|k: Seq<char>|
                        k != sid@ implies (#[trigger] self.contains_session(k) <==> pre
                        .contains_session(k)) by {
                        if pre.contains_session(k) {
                            let j = choose|j: int|
                                0 <= j < pre.spec_sessions().len() && (#[trigger] pre.spec_sessions()[j]).session_id@
                                    == k;
                            if j < i {
                                assert(self.spec_sessions()[j].session_id@ == k);
                            } else {
                                assert(j != i);
                                assert(self.spec_sessions()[j - 1].session_id@ == k);
                            }
                        }
                        if self.contains_session(k) {
                            let j = choose|j: int|
                                0 <= j < self.spec_sessions().len() && (#[trigger] self.spec_sessions()[j]).session_id@
                                    == k;
                            if j < i {
                                assert(pre.spec_sessions()[j].session_id@ == k);
                            } else {
                                assert(pre.spec_sessions()[j + 1].session_id@ == k);
                            }
                        }
                    }
                    assert forall|k: Seq<char>|
                        k != sid@ && pre.contains_session(k) implies #[trigger] self.session_of(k)
                        == pre.session_of(k) by {
                        assert(self.contains_session(k));
                        let j = choose|j: int|
                            0 <= j < self.spec_sessions().len() && (#[trigger] self.spec_sessions()[j]).session_id@
                                == k;
                        assert(self.spec_sessions()[j].session_id@ == k);
                        if j < i {
                            assert(pre.spec_sessions()[j] == self.spec_sessions()[j]);
                            self.lemma_session_at(j);
                            pre.lemma_session_at(j);
                        } else {
                            assert(pre.spec_sessions()[j + 1] == self.spec_sessions()[j]);
                            self.lemma_session_at(j);
                            pre.lemma_session_at(j + 1);
                        }
                    }
                }
                DeleteOutcome::NoContent
            },
        }
    }
}

fn set_mcp_session(v: &mut Vec<McpSessionData>, i: usize, data: McpSessionData)
    requires
        i < old(v).len(),
    ensures
        final(v)@ == old(v)@.update(i as int, data),
{
    let e = &mut v[i];
    *e = data;
}

/// The standalone-server flag: explicit state owned by one instance,
/// marking whether the embedded endpoint has been explicitly started.
pub struct McpServerFlag {
    running: bool,
}

impl McpServerFlag {
    /// Whether the server is marked running.
    pub closed spec fn is_running(self) -> bool {
        self.running
    }

    /// A fresh flag: not running.
    pub fn new() -> (r: Self)
        ensures
            !r.is_running(),
    {
        McpServerFlag { running: false }
    }

    /// Reads the flag.
    pub fn get_status(&self) -> (r: bool)
        ensures
            r == self.is_running(),
    {
        self.running
    }

    /// Marks the embedded endpoint as explicitly active.
    pub fn start_server(&mut self)
        ensures
            final(self).is_running(),
    {
        self.running = true;
    }

    /// Marks the standalone server as stopped.
    pub fn stop_server(&mut self)
        ensures
            !final(self).is_running(),
    {
        self.running = false;
    }
}

} // verus!
