use agent_runtime::mcp::{
    DeleteOutcome, McpAction, McpGateway, McpReply, McpRequest, McpServerFlag, StreamDecision,
};
use agent_runtime::tools::{ToolArgs, ToolPlan};

fn no_args() -> ToolArgs {
    ToolArgs {
        workspace_id: None,
        name: None,
        role: None,
        title: None,
        objective: None,
        content: None,
        note_id: None,
        task_id: None,
        status: None,
        scope: None,
    }
}

#[test]
fn initialize_registers_the_session_and_get_streams_only_for_it() {
    let mut gw = McpGateway::new();
    let fresh = uuid::Uuid::new_v4().to_string();
    let r = gw.handle(McpRequest::Initialize {
        session_id: fresh.clone(),
        protocol_version: None,
    });
    match r {
        McpAction::Reply(McpReply::InitializeResult { session_id, protocol_version }) => {
            assert_eq!(session_id, fresh);
            assert_eq!(protocol_version, "2024-11-05");
        }
        _ => panic!("initialize must answer with the session id"),
    }
    assert!(matches!(gw.open_stream(Some(&fresh)), StreamDecision::Stream));
    match gw.open_stream(Some(&"some-other-id".to_string())) {
        StreamDecision::Reject { code, message } => {
            assert_eq!(code, -32600);
            assert_eq!(message, "No active session. Send an initialize POST request first.");
        }
        _ => panic!("a stream for an unknown session must be rejected"),
    }
    assert!(matches!(gw.open_stream(None), StreamDecision::Reject { .. }));
}

#[test]
fn initialize_twice_issues_two_distinct_live_ids() {
    let mut gw = McpGateway::new();
    let first = uuid::Uuid::new_v4().to_string();
    let second = uuid::Uuid::new_v4().to_string();
    assert_ne!(first, second, "freshly minted ids are previously unseen");
    gw.handle(McpRequest::Initialize { session_id: first.clone(), protocol_version: None });
    gw.handle(McpRequest::Initialize { session_id: second.clone(), protocol_version: None });
    assert!(matches!(gw.open_stream(Some(&first)), StreamDecision::Stream));
    assert!(matches!(gw.open_stream(Some(&second)), StreamDecision::Stream));
}

#[test]
fn initialize_echoes_a_requested_protocol_version() {
    let mut gw = McpGateway::new();
    let r = gw.handle(McpRequest::Initialize {
        session_id: "sid-1".to_string(),
        protocol_version: Some("2025-06-18".to_string()),
    });
    match r {
        McpAction::Reply(McpReply::InitializeResult { protocol_version, .. }) => {
            assert_eq!(protocol_version, "2025-06-18");
        }
        _ => panic!("initialize must answer"),
    }
}

#[test]
fn tools_list_returns_the_catalog() {
    let mut gw = McpGateway::new();
    let r = gw.handle(McpRequest::ToolsList);
    match r {
        McpAction::Reply(McpReply::ToolsListResult { tools }) => assert_eq!(tools.len(), 10),
        _ => panic!("tools/list must answer with the catalog"),
    }
}

#[test]
fn tools_call_hands_back_a_validated_plan() {
    let mut gw = McpGateway::new();
    let r = gw.handle(McpRequest::ToolsCall { name: "list_skills".to_string(), args: no_args() });
    match r {
        McpAction::RunTool(ToolPlan::ListSkills) => {}
        _ => panic!("tools/call must hand back the plan"),
    }
    let r = gw.handle(McpRequest::ToolsCall { name: "no_such_tool".to_string(), args: no_args() });
    match r {
        McpAction::RunTool(ToolPlan::Invalid { message }) => {
            assert_eq!(message, "Unknown tool: no_such_tool");
        }
        _ => panic!("an unknown tool is still a transport-level success"),
    }
}

#[test]
fn notifications_initialized_is_a_no_op() {
    let mut gw = McpGateway::new();
    let r = gw.handle(McpRequest::NotificationsInitialized);
    assert!(matches!(r, McpAction::Reply(McpReply::EmptyResult)));
}

#[test]
fn unknown_mcp_methods_are_method_not_found() {
    let mut gw = McpGateway::new();
    let r = gw.handle(McpRequest::Unknown { method: "resources/list".to_string() });
    match r {
        McpAction::Reply(McpReply::RpcError { code, message }) => {
            assert_eq!(code, -32601);
            assert_eq!(message, "Method not found: resources/list");
        }
        _ => panic!("unknown methods must be rejected"),
    }
}

#[test]
fn delete_terminates_exactly_the_live_session() {
    let mut gw = McpGateway::new();
    gw.handle(McpRequest::Initialize { session_id: "sid-9".to_string(), protocol_version: None });
    let sid = "sid-9".to_string();
    assert!(matches!(gw.delete_session(Some(&sid)), DeleteOutcome::NoContent));
    assert!(matches!(gw.open_stream(Some(&sid)), StreamDecision::Reject { .. }));
    match gw.delete_session(Some(&sid)) {
        DeleteOutcome::NotFound { message } => assert_eq!(message, "Session not found"),
        _ => panic!("deleting a dead session is not found"),
    }
    match gw.delete_session(None) {
        DeleteOutcome::BadRequest { message } => {
            assert_eq!(message, "Missing Mcp-Session-Id header");
        }
        _ => panic!("a delete without the header is a bad request"),
    }
}

#[test]
fn the_server_flag_tracks_start_and_stop() {
    let mut flag = McpServerFlag::new();
    assert!(!flag.get_status());
    flag.start_server();
    assert!(flag.get_status());
    flag.stop_server();
    assert!(!flag.get_status());
}
