//! The MCP tool catalog and the planning of tool calls.
//!
//! The catalog is fixed: ten tools over the collaborator stores.
//! Planning validates the call and applies argument defaults; the
//! stores themselves are outside collaborators, so a plan names the
//! store operation to perform and the caller reports its outcome back
//! through [`render_tool_outcome`].

use vstd::prelude::*;
use crate::strutil::{str_concat, str_eq};

verus! {

/// The JSON type of one schema property.
#[derive(Clone, Copy, PartialEq, Eq, Structural, Debug)]
pub enum PropKind {
    Str,
    StrArray,
}

/// One property of a tool's input schema.
pub struct SchemaProp {
    pub name: String,
    pub kind: PropKind,
    pub description: Option<String>,
    /// The admissible values, for an enumerated string property.
    pub enum_values: Option<Vec<String>>,
}

/// One tool of the catalog: name, description and input schema.
pub struct ToolDef {
    pub name: String,
    pub description: String,
    pub props: Vec<SchemaProp>,
    pub required: Vec<String>,
}

/// The status a task can be moved to.
#[derive(Clone, Copy, PartialEq, Eq, Structural, Debug)]
pub enum TaskStatus {
    Pending,
    InProgress,
    ReviewRequired,
    Completed,
    NeedsFix,
    Blocked,
    Cancelled,
}

/// The status a status string parses to, if any.
pub open spec fn task_status_of(s: Seq<char>) -> Option<TaskStatus> {
    if s == "PENDING"@ {
        Some(TaskStatus::Pending)
    } else if s == "IN_PROGRESS"@ {
        Some(TaskStatus::InProgress)
    } else if s == "REVIEW_REQUIRED"@ {
        Some(TaskStatus::ReviewRequired)
    } else if s == "COMPLETED"@ {
        Some(TaskStatus::Completed)
    } else if s == "NEEDS_FIX"@ {
        Some(TaskStatus::NeedsFix)
    } else if s == "BLOCKED"@ {
        Some(TaskStatus::Blocked)
    } else if s == "CANCELLED"@ {
        Some(TaskStatus::Cancelled)
    } else {
        None
    }
}

/// Parses a task status string; exactly the seven catalog values are
/// accepted.
pub fn parse_task_status(s: &str) -> (r: Option<TaskStatus>)
    ensures
        r == task_status_of(s@),
{
    if str_eq(s, "PENDING") {
        Some(TaskStatus::Pending)
    } else if str_eq(s, "IN_PROGRESS") {
        Some(TaskStatus::InProgress)
    } else if str_eq(s, "REVIEW_REQUIRED") {
        Some(TaskStatus::ReviewRequired)
    } else if str_eq(s, "COMPLETED") {
        Some(TaskStatus::Completed)
    } else if str_eq(s, "NEEDS_FIX") {
        Some(TaskStatus::NeedsFix)
    } else if str_eq(s, "BLOCKED") {
        Some(TaskStatus::Blocked)
    } else if str_eq(s, "CANCELLED") {
        Some(TaskStatus::Cancelled)
    } else {
        None
    }
}

/// The arguments a tool call may carry, already reduced to plain
/// optional strings.
pub struct ToolArgs {
    pub workspace_id: Option<String>,
    pub name: Option<String>,
    pub role: Option<String>,
    pub title: Option<String>,
    pub objective: Option<String>,
    pub content: Option<String>,
    pub note_id: Option<String>,
    pub task_id: Option<String>,
    pub status: Option<String>,
    pub scope: Option<String>,
}

/// What a validated tool call asks of the collaborator stores, with
/// all argument defaults applied; or the error a malformed call
/// reports as a tool-level result.
pub enum ToolPlan {
    ListAgents { workspace_id: String },
    CreateAgent { name: String, role: String, workspace_id: String },
    ListTasks { workspace_id: String },
    CreateTask { title: String, objective: String, workspace_id: String, scope: Option<String> },
    UpdateTaskStatus { task_id: String, status: TaskStatus, status_str: String },
    ListNotes { workspace_id: String },
    CreateNote { note_id: Option<String>, title: String, content: String, workspace_id: String },
    ReadNote { note_id: String, workspace_id: String },
    ListWorkspaces,
    ListSkills,
    Invalid { message: String },
}

/// The argument value, or the default where it is absent.
pub open spec fn or_default(v: Option<String>, d: Seq<char>) -> Seq<char> {
    match v {
        Some(s) => s@,
        None => d,
    }
}

fn or_default_str(v: Option<String>, d: &str) -> (r: String)
    ensures
        r@ == or_default(v, d@),
{
    match v {
        Option::Some(s) => s,
        Option::None => d.to_owned(),
    }
}

/// Validates one tool call and applies the defaults.  Unknown tool
/// names and invalid status values become an [`ToolPlan::Invalid`]
/// plan — a tool-level error, never a protocol-level one.
/// Whether `plan` is the correct plan for a call of tool `name`
/// with the given arguments.
pub open spec fn plan_matches(name: Seq<char>, args: ToolArgs, r: ToolPlan) -> bool {
    &&& name == "list_agents"@ ==> (r matches ToolPlan::ListAgents { workspace_id } && workspace_id@
            == or_default(args.workspace_id, "default"@))
    &&& name == "create_agent"@ ==> (r matches ToolPlan::CreateAgent { name: n, role, workspace_id }
            && n@ == or_default(args.name, "unnamed"@) && role@ == or_default(
            args.role,
            "CRAFTER"@,
        ) && workspace_id@ == or_default(args.workspace_id, "default"@))
    &&& name == "list_tasks"@ ==> (r matches ToolPlan::ListTasks { workspace_id } && workspace_id@
            == or_default(args.workspace_id, "default"@))
    &&& name == "create_task"@ ==> (r matches ToolPlan::CreateTask {
            title,
            objective,
            workspace_id,
            scope,
        } && title@ == or_default(args.title, "Untitled"@) && objective@ == or_default(
            args.objective,
            ""@,
        ) && workspace_id@ == or_default(args.workspace_id, "default"@) && scope == args.scope)
    &&& name == "update_task_status"@ ==> (match task_status_of(or_default(args.status, ""@)) {
            Some(st) => r matches ToolPlan::UpdateTaskStatus { task_id, status, status_str } && {
                &&& task_id@ == or_default(args.task_id, ""@)
                &&& status == st
                &&& status_str@ == or_default(args.status, ""@)
            },
            None => r matches ToolPlan::Invalid { message } && message@ == "Invalid status: "@
                + or_default(args.status, ""@),
        })
    &&& name == "list_notes"@ ==> (r matches ToolPlan::ListNotes { workspace_id } && workspace_id@
            == or_default(args.workspace_id, "default"@))
    &&& name == "create_note"@ ==> (r matches ToolPlan::CreateNote {
            note_id,
            title,
            content,
            workspace_id,
        } && note_id == args.note_id && title@ == or_default(args.title, "Untitled"@) && content@
            == or_default(args.content, ""@) && workspace_id@ == or_default(
            args.workspace_id,
            "default"@,
        ))
    &&& name == "read_note"@ ==> (r matches ToolPlan::ReadNote { note_id, workspace_id } && note_id@
            == or_default(args.note_id, ""@) && workspace_id@ == or_default(
            args.workspace_id,
            "default"@,
        ))
    &&& name == "list_workspaces"@ ==> r == ToolPlan::ListWorkspaces
    &&& name == "list_skills"@ ==> r == ToolPlan::ListSkills
    &&& (name != "list_agents"@ && name != "create_agent"@ && name != "list_tasks"@ && name
            != "create_task"@ && name != "update_task_status"@ && name != "list_notes"@ && name
            != "create_note"@ && name != "read_note"@ && name != "list_workspaces"@ && name
            != "list_skills"@) ==> (r matches ToolPlan::Invalid { message } && message@
            == "Unknown tool: "@ + name)
}

pub fn plan_tool(name: &str, args: ToolArgs) -> (r: ToolPlan)
    ensures
        plan_matches(name@, args, r),
{
    broadcast use vstd::string::group_string_axioms;

    proof {
        reveal_strlit("list_agents");
        reveal_strlit("create_agent");
        reveal_strlit("list_tasks");
        reveal_strlit("create_task");
        reveal_strlit("update_task_status");
        reveal_strlit("list_notes");
        reveal_strlit("create_note");
        reveal_strlit("read_note");
        reveal_strlit("list_workspaces");
        reveal_strlit("list_skills");
        assert("list_agents"@.len() == 11);
        assert("create_agent"@.len() == 12);
        assert("list_tasks"@.len() == 10);
        assert("create_task"@.len() == 11);
        assert("update_task_status"@.len() == 18);
        assert("list_notes"@.len() == 10);
        assert("create_note"@.len() == 11);
        assert("read_note"@.len() == 9);
        assert("list_workspaces"@.len() == 15);
        assert("list_skills"@.len() == 11);
        assert("list_agents"@[0] == 'l' && "list_agents"@[5] == 'a');
        assert("create_task"@[0] == 'c' && "create_task"@[7] == 't');
        assert("create_note"@[0] == 'c' && "create_note"@[7] == 'n');
        assert("list_skills"@[0] == 'l' && "list_skills"@[5] == 's');
        assert("list_tasks"@[5] == 't');
        assert("list_notes"@[5] == 'n');
    }
    let ToolArgs {
        workspace_id: a_workspace,
        name: a_name,
        role: a_role,
        title: a_title,
        objective: a_objective,
        content: a_content,
        note_id: a_note_id,
        task_id: a_task_id,
        status: a_status,
        scope: a_scope,
    } = args;
    if str_eq(name, "list_agents") {
        ToolPlan::ListAgents { workspace_id: or_default_str(a_workspace, "default") }
    } else if str_eq(name, "create_agent") {
        ToolPlan::CreateAgent {
            name: or_default_str(a_name, "unnamed"),
            role: or_default_str(a_role, "CRAFTER"),
            workspace_id: or_default_str(a_workspace, "default"),
        }
    } else if str_eq(name, "list_tasks") {
        ToolPlan::ListTasks { workspace_id: or_default_str(a_workspace, "default") }
    } else if str_eq(name, "create_task") {
        ToolPlan::CreateTask {
            title: or_default_str(a_title, "Untitled"),
            objective: or_default_str(a_objective, ""),
            workspace_id: or_default_str(a_workspace, "default"),
            scope: a_scope,
        }
    } else if str_eq(name, "update_task_status") {
        let status_str = or_default_str(a_status, "");
        match parse_task_status(status_str.as_str()) {
            Option::Some(status) => ToolPlan::UpdateTaskStatus {
                task_id: or_default_str(a_task_id, ""),
                status,
                status_str,
            },
            Option::None => ToolPlan::Invalid {
                message: str_concat("Invalid status: ", status_str.as_str()),
            },
        }
    } else if str_eq(name, "list_notes") {
        ToolPlan::ListNotes { workspace_id: or_default_str(a_workspace, "default") }
    } else if str_eq(name, "create_note") {
        ToolPlan::CreateNote {
            note_id: a_note_id,
            title: or_default_str(a_title, "Untitled"),
            content: or_default_str(a_content, ""),
            workspace_id: or_default_str(a_workspace, "default"),
        }
    } else if str_eq(name, "read_note") {
        ToolPlan::ReadNote {
            note_id: or_default_str(a_note_id, ""),
            workspace_id: or_default_str(a_workspace, "default"),
        }
    } else if str_eq(name, "list_workspaces") {
        ToolPlan::ListWorkspaces
    } else if str_eq(name, "list_skills") {
        ToolPlan::ListSkills
    } else {
        ToolPlan::Invalid { message: str_concat("Unknown tool: ", name) }
    }
}

/// One tool execution result: a single text content block, flagged as
/// an error or not.
pub struct ToolResult {
    pub is_error: bool,
    pub text: String,
}

/// A successful tool result carrying the given text.
pub fn tool_result_text(text: &str) -> (r: ToolResult)
    ensures
        !r.is_error,
        r.text@ == text@,
{
    ToolResult { is_error: false, text: text.to_owned() }
}

/// A failed tool result carrying the given message.
pub fn tool_result_error(msg: &str) -> (r: ToolResult)
    ensures
        r.is_error,
        r.text@ == msg@,
{
    ToolResult { is_error: true, text: msg.to_owned() }
}

/// Wraps a store outcome as a tool result: text on success, an error
/// block on failure — the call itself always succeeds at the
/// transport level.
pub fn render_tool_outcome(outcome: Result<String, String>) -> (r: ToolResult)
    ensures
        match outcome {
            Ok(text) => !r.is_error && r.text@ == text@,
            Err(msg) => r.is_error && r.text@ == msg@,
        },
{
    match outcome {
        Result::Ok(text) => ToolResult { is_error: false, text },
        Result::Err(msg) => ToolResult { is_error: true, text: msg },
    }
}

fn prop(name: &str, kind: PropKind, description: Option<&str>) -> (r: SchemaProp)
    ensures
        r.name@ == name@,
        r.kind == kind,
{
    SchemaProp {
        name: name.to_owned(),
        kind,
        description: match description {
            Option::Some(d) => Some(d.to_owned()),
            Option::None => None,
        },
        enum_values: None,
    }
}

fn strings(items: Vec<&str>) -> (r: Vec<String>)
    ensures
        r@.len() == items@.len(),
        forall|i: int| 0 <= i < r@.len() ==> (#[trigger] r@[i])@ == items@[i]@,
{
    let mut r: Vec<String> = Vec::new();
    let mut i: usize = 0;
    while i < items.len()
        invariant
            i <= items.len(),
            r@.len() == i,
            forall|j: int| 0 <= j < i ==> (#[trigger] r@[j])@ == items@[j]@,
        decreases items.len() - i,
    {
        r.push(items[i].to_owned());
        i += 1;
    }
    r
}

/// The catalog's fixed shape: ten tools, under these names and
/// descriptions, in listing order.
pub open spec fn is_catalog(tools: Seq<ToolDef>) -> bool {
    &&& tools.len() == 10
    &&& tools[0].name@ == "list_agents"@ && tools[0].description@
        == "List all agents in the workspace"@
    &&& tools[1].name@ == "create_agent"@ && tools[1].description@ == "Create a new agent"@
    &&& tools[2].name@ == "list_tasks"@ && tools[2].description@
        == "List all tasks in the workspace"@
    &&& tools[3].name@ == "create_task"@ && tools[3].description@ == "Create a new task"@
    &&& tools[4].name@ == "update_task_status"@ && tools[4].description@
        == "Update a task's status"@
    &&& tools[5].name@ == "list_notes"@ && tools[5].description@
        == "List all notes in the workspace"@
    &&& tools[6].name@ == "create_note"@ && tools[6].description@ == "Create or update a note"@
    &&& tools[7].name@ == "read_note"@ && tools[7].description@ == "Read a note by ID"@
    &&& tools[8].name@ == "list_workspaces"@ && tools[8].description@ == "List all workspaces"@
    &&& tools[9].name@ == "list_skills"@ && tools[9].description@
        == "List all discovered skills"@
}

/// The fixed tool catalog: ten tools, in listing order.
pub fn tool_catalog() -> (r: Vec<ToolDef>)
    ensures
        is_catalog(r@),
{
    let mut r: Vec<ToolDef> = Vec::new();
    let mut props: Vec<SchemaProp> = Vec::new();
    props.push(prop("workspaceId", PropKind::Str, Some("Workspace ID (default if omitted)")));
    r.push(
        ToolDef {
            name: "list_agents".to_owned(),
            description: "List all agents in the workspace".to_owned(),
            props,
            required: Vec::new(),
        },
    );
    let mut props: Vec<SchemaProp> = Vec::new();
    props.push(prop("name", PropKind::Str, Some("Agent name")));
    props.push(prop("role", PropKind::Str, Some("Agent role (CRAFTER, GATE, ROUTA, etc.)")));
    props.push(prop("workspaceId", PropKind::Str, None));
    r.push(
        ToolDef {
            name: "create_agent".to_owned(),
            description: "Create a new agent".to_owned(),
            props,
            required: strings(vec!["name", "role"]),
        },
    );
    let mut props: Vec<SchemaProp> = Vec::new();
    props.push(prop("workspaceId", PropKind::Str, None));
    r.push(
        ToolDef {
            name: "list_tasks".to_owned(),
            description: "List all tasks in the workspace".to_owned(),
            props,
            required: Vec::new(),
        },
    );
    let mut props: Vec<SchemaProp> = Vec::new();
    props.push(prop("title", PropKind::Str, None));
    props.push(prop("objective", PropKind::Str, None));
    props.push(prop("workspaceId", PropKind::Str, None));
    props.push(prop("scope", PropKind::Str, None));
    props.push(prop("acceptanceCriteria", PropKind::StrArray, None));
    r.push(
        ToolDef {
            name: "create_task".to_owned(),
            description: "Create a new task".to_owned(),
            props,
            required: strings(vec!["title", "objective"]),
        },
    );
    let mut props: Vec<SchemaProp> = Vec::new();
    props.push(prop("taskId", PropKind::Str, None));
    let mut status_prop = prop("status", PropKind::Str, None);
    status_prop.enum_values = Some(
        strings(
            vec![
                "PENDING",
                "IN_PROGRESS",
                "REVIEW_REQUIRED",
                "COMPLETED",
                "NEEDS_FIX",
                "BLOCKED",
                "CANCELLED",
            ],
        ),
    );
    props.push(status_prop);
    props.push(prop("agentId", PropKind::Str, None));
    r.push(
        ToolDef {
            name: "update_task_status".to_owned(),
            description: "Update a task's status".to_owned(),
            props,
            required: strings(vec!["taskId", "status", "agentId"]),
        },
    );
    let mut props: Vec<SchemaProp> = Vec::new();
    props.push(prop("workspaceId", PropKind::Str, None));
    r.push(
        ToolDef {
            name: "list_notes".to_owned(),
            description: "List all notes in the workspace".to_owned(),
            props,
            required: Vec::new(),
        },
    );
    let mut props: Vec<SchemaProp> = Vec::new();
    props.push(prop("noteId", PropKind::Str, None));
    props.push(prop("title", PropKind::Str, None));
    props.push(prop("content", PropKind::Str, None));
    props.push(prop("workspaceId", PropKind::Str, None));
    props.push(prop("type", PropKind::Str, None));
    r.push(
        ToolDef {
            name: "create_note".to_owned(),
            description: "Create or update a note".to_owned(),
            props,
            required: strings(vec!["title"]),
        },
    );
    let mut props: Vec<SchemaProp> = Vec::new();
    props.push(prop("noteId", PropKind::Str, None));
    props.push(prop("workspaceId", PropKind::Str, None));
    r.push(
        ToolDef {
            name: "read_note".to_owned(),
            description: "Read a note by ID".to_owned(),
            props,
            required: strings(vec!["noteId"]),
        },
    );
    r.push(
        ToolDef {
            name: "list_workspaces".to_owned(),
            description: "List all workspaces".to_owned(),
            props: Vec::new(),
            required: Vec::new(),
        },
    );
    r.push(
        ToolDef {
            name: "list_skills".to_owned(),
            description: "List all discovered skills".to_owned(),
            props: Vec::new(),
            required: Vec::new(),
        },
    );
    r
}

} // verus!
