use agent_runtime::bridge::{
    BridgeLine, BridgePayload, BridgeStep, PROMPT_TIMEOUT_SECS, bridge_eof_outcome, bridge_step,
    bridge_timeout_error, handshake_requests, spawn_failure_message,
};
use agent_runtime::tools::{
    TaskStatus, ToolArgs, ToolPlan, parse_task_status, plan_tool, render_tool_outcome,
    tool_catalog, tool_result_error, tool_result_text,
};

fn no_args() -> ToolArgs {
    ToolArgs {
        workspace_id: None,
        name: None,
        role: None,
        title: None,
        objective: None,
        content: None,
        note_id: None,
        task_id: None,
        status: None,
        scope: None,
    }
}

#[test]
fn handshake_writes_three_requests_in_order() {
    let reqs = handshake_requests("do the thing");
    assert_eq!(reqs.len(), 3);
    assert_eq!(reqs[0].id, 1);
    assert_eq!(reqs[0].method, "initialize");
    assert!(reqs[0].prompt.is_none());
    assert_eq!(reqs[1].id, 2);
    assert_eq!(reqs[1].method, "session/new");
    assert_eq!(reqs[2].id, 3);
    assert_eq!(reqs[2].method, "session/prompt");
    assert_eq!(reqs[2].prompt, Some("do the thing".to_string()));
}

#[test]
fn only_an_id_three_message_finishes_the_bridge() {
    let r = bridge_step(BridgeLine::NotJson);
    assert!(matches!(r, BridgeStep::Continue));
    let r = bridge_step(BridgeLine::Message {
        id: Some(1),
        payload: BridgePayload::ResultText("{}".to_string()),
    });
    assert!(matches!(r, BridgeStep::Continue), "id 1 never finishes the bridge");
    let r = bridge_step(BridgeLine::Message { id: None, payload: BridgePayload::Neither });
    assert!(matches!(r, BridgeStep::Continue));
    let r = bridge_step(BridgeLine::Message {
        id: Some(3),
        payload: BridgePayload::ResultText("{\"ok\":true}".to_string()),
    });
    match r {
        BridgeStep::Finish(Ok(out)) => assert_eq!(out, "{\"ok\":true}"),
        _ => panic!("an id-3 result must finish the bridge"),
    }
}

#[test]
fn an_id_three_error_fails_the_bridge() {
    let r = bridge_step(BridgeLine::Message {
        id: Some(3),
        payload: BridgePayload::ErrorMessage(Some("model overloaded".to_string())),
    });
    match r {
        BridgeStep::Finish(Err(e)) => assert_eq!(e, "Agent error: model overloaded"),
        _ => panic!("an id-3 error must fail the bridge"),
    }
    let r = bridge_step(BridgeLine::Message {
        id: Some(3),
        payload: BridgePayload::ErrorMessage(None),
    });
    match r {
        BridgeStep::Finish(Err(e)) => assert_eq!(e, "Agent error: unknown"),
        _ => panic!("an id-3 error without text still fails the bridge"),
    }
}

#[test]
fn bridge_edges_and_messages() {
    assert_eq!(PROMPT_TIMEOUT_SECS, 300, "the prompt ceiling is five minutes");
    assert_eq!(bridge_eof_outcome(), Ok(String::new()));
    assert_eq!(bridge_timeout_error(), "Agent response timeout (5 min)");
    assert_eq!(
        spawn_failure_message("opencode", "No such file or directory"),
        "Failed to spawn 'opencode': No such file or directory. Is it installed?"
    );
}

#[test]
fn task_status_parses_exactly_the_catalog_values() {
    assert_eq!(parse_task_status("PENDING"), Some(TaskStatus::Pending));
    assert_eq!(parse_task_status("IN_PROGRESS"), Some(TaskStatus::InProgress));
    assert_eq!(parse_task_status("REVIEW_REQUIRED"), Some(TaskStatus::ReviewRequired));
    assert_eq!(parse_task_status("COMPLETED"), Some(TaskStatus::Completed));
    assert_eq!(parse_task_status("NEEDS_FIX"), Some(TaskStatus::NeedsFix));
    assert_eq!(parse_task_status("BLOCKED"), Some(TaskStatus::Blocked));
    assert_eq!(parse_task_status("CANCELLED"), Some(TaskStatus::Cancelled));
    assert_eq!(parse_task_status("pending"), None);
    assert_eq!(parse_task_status(""), None);
}

#[test]
fn plan_tool_applies_defaults() {
    match plan_tool("list_agents", no_args()) {
        ToolPlan::ListAgents { workspace_id } => assert_eq!(workspace_id, "default"),
        _ => panic!("list_agents must plan a listing"),
    }
    let mut args = no_args();
    args.name = Some("helper".to_string());
    match plan_tool("create_agent", args) {
        ToolPlan::CreateAgent { name, role, workspace_id } => {
            assert_eq!(name, "helper");
            assert_eq!(role, "CRAFTER");
            assert_eq!(workspace_id, "default");
        }
        _ => panic!("create_agent must plan a creation"),
    }
    match plan_tool("create_task", no_args()) {
        ToolPlan::CreateTask { title, objective, workspace_id, scope } => {
            assert_eq!(title, "Untitled");
            assert_eq!(objective, "");
            assert_eq!(workspace_id, "default");
            assert_eq!(scope, None);
        }
        _ => panic!("create_task must plan a creation"),
    }
}

#[test]
fn plan_tool_validates_the_status() {
    let mut args = no_args();
    args.task_id = Some("t-1".to_string());
    args.status = Some("BLOCKED".to_string());
    match plan_tool("update_task_status", args) {
        ToolPlan::UpdateTaskStatus { task_id, status, status_str } => {
            assert_eq!(task_id, "t-1");
            assert_eq!(status, TaskStatus::Blocked);
            assert_eq!(status_str, "BLOCKED");
        }
        _ => panic!("a valid status must plan the update"),
    }
    let mut args = no_args();
    args.status = Some("ON_FIRE".to_string());
    match plan_tool("update_task_status", args) {
        ToolPlan::Invalid { message } => assert_eq!(message, "Invalid status: ON_FIRE"),
        _ => panic!("an invalid status is a tool-level error"),
    }
}

#[test]
fn plan_tool_rejects_unknown_tools_softly() {
    match plan_tool("launch_rockets", no_args()) {
        ToolPlan::Invalid { message } => assert_eq!(message, "Unknown tool: launch_rockets"),
        _ => panic!("unknown tools are tool-level errors"),
    }
}

#[test]
fn tool_results_wrap_outcomes() {
    let ok = tool_result_text("all good");
    assert!(!ok.is_error);
    assert_eq!(ok.text, "all good");
    let bad = tool_result_error("boom");
    assert!(bad.is_error);
    assert_eq!(bad.text, "boom");
    let r = render_tool_outcome(Ok("rows".to_string()));
    assert!(!r.is_error);
    assert_eq!(r.text, "rows");
    let r = render_tool_outcome(Err("store down".to_string()));
    assert!(r.is_error);
    assert_eq!(r.text, "store down");
}

#[test]
fn the_catalog_lists_the_ten_tools() {
    let tools = tool_catalog();
    let names: Vec<String> = tools.iter().map(|t| t.name.clone()).collect();
    assert_eq!(
        names,
        vec![
            "list_agents",
            "create_agent",
            "list_tasks",
            "create_task",
            "update_task_status",
            "list_notes",
            "create_note",
            "read_note",
            "list_workspaces",
            "list_skills",
        ]
    );
    assert_eq!(tools[1].required, vec!["name", "role"]);
    assert_eq!(tools[4].required, vec!["taskId", "status", "agentId"]);
}
