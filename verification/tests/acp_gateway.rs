use agent_runtime::acp::{
    AcpAction, AcpGateway, AcpReply, AcpRequest, Preset, PromptBlock, concat_prompt,
};

fn preset(name: &str, command: &str) -> Preset {
    Preset {
        name: name.to_string(),
        description: format!("{} preset", name),
        command: command.to_string(),
        args: vec!["--acp".to_string()],
    }
}

fn gateway() -> AcpGateway {
    AcpGateway::new(vec![preset("banjo", "banjo"), preset("anchor", "anchor"), preset("cello", "cello")])
}

#[test]
fn initialize_echoes_the_protocol_version() {
    let mut gw = gateway();
    let r = gw.handle(AcpRequest::Initialize { protocol_version: 7 });
    match r {
        AcpAction::Reply(AcpReply::InitializeResult { protocol_version }) => {
            assert_eq!(protocol_version, 7);
        }
        _ => panic!("initialize must never fail"),
    }
}

#[test]
fn providers_are_sorted_available_first_then_by_name() {
    let mut gw = gateway();
    // banjo available, anchor unavailable, cello available
    let r = gw.handle(AcpRequest::ProvidersList { available: vec![true, false, true] });
    match r {
        AcpAction::Reply(AcpReply::ProvidersResult { providers }) => {
            let names: Vec<String> = providers.iter().map(|p| p.name.clone()).collect();
            assert_eq!(names, vec!["banjo", "cello", "anchor"]);
            assert!(providers[0].available && providers[1].available && !providers[2].available);
        }
        _ => panic!("providers/list must answer with the provider list"),
    }
}

#[test]
fn session_new_applies_defaults_and_uppercases_the_role() {
    let mut gw = gateway();
    let r = gw.handle(AcpRequest::SessionNew {
        session_id: "s-1".to_string(),
        cwd: None,
        provider: None,
        role: Some("crafter".to_string()),
    });
    match r {
        AcpAction::Reply(AcpReply::SessionNewResult { session_id, provider, role }) => {
            assert_eq!(session_id, "s-1");
            assert_eq!(provider, "opencode");
            assert_eq!(role, "CRAFTER");
        }
        _ => panic!("session/new must answer with the session"),
    }
    let r = gw.handle(AcpRequest::SessionNew {
        session_id: "s-2".to_string(),
        cwd: Some("/work".to_string()),
        provider: Some("banjo".to_string()),
        role: None,
    });
    match r {
        AcpAction::Reply(AcpReply::SessionNewResult { session_id, provider, role }) => {
            assert_eq!(session_id, "s-2");
            assert_eq!(provider, "banjo");
            assert_eq!(role, "CRAFTER");
        }
        _ => panic!("session/new must answer with the session"),
    }
}

#[test]
fn prompt_without_session_id_is_invalid_params() {
    let mut gw = gateway();
    let r = gw.handle(AcpRequest::SessionPrompt { session_id: None, prompt: Vec::new() });
    match r {
        AcpAction::Reply(AcpReply::RpcError { code, message }) => {
            assert_eq!(code, -32602);
            assert_eq!(message, "Missing sessionId");
        }
        _ => panic!("a prompt without a session id must be rejected"),
    }
}

#[test]
fn prompt_joins_text_blocks_and_targets_the_session_provider() {
    let mut gw = gateway();
    gw.handle(AcpRequest::SessionNew {
        session_id: "s-1".to_string(),
        cwd: None,
        provider: Some("banjo".to_string()),
        role: None,
    });
    let r = gw.handle(AcpRequest::SessionPrompt {
        session_id: Some("s-1".to_string()),
        prompt: vec![
            PromptBlock::Text("Hello".to_string()),
            PromptBlock::Other,
            PromptBlock::Text("World".to_string()),
        ],
    });
    match r {
        AcpAction::RunBridge { command, args, prompt } => {
            assert_eq!(command, "banjo");
            assert_eq!(args, vec!["--acp"]);
            assert_eq!(prompt, "Hello\nWorld");
        }
        _ => panic!("a resolvable provider must run the bridge"),
    }
}

#[test]
fn prompt_for_unknown_provider_is_an_error() {
    let mut gw = gateway();
    gw.handle(AcpRequest::SessionNew {
        session_id: "s-1".to_string(),
        cwd: None,
        provider: Some("nonesuch".to_string()),
        role: None,
    });
    let r = gw.handle(AcpRequest::SessionPrompt {
        session_id: Some("s-1".to_string()),
        prompt: vec![PromptBlock::Text("hi".to_string())],
    });
    match r {
        AcpAction::Reply(AcpReply::RpcError { code, message }) => {
            assert_eq!(code, -32000);
            assert_eq!(message, "Unknown provider: nonesuch");
        }
        _ => panic!("an unknown provider must be an error"),
    }
}

#[test]
fn prompt_for_unknown_session_uses_the_default_provider() {
    let mut gw = AcpGateway::new(vec![preset("opencode", "opencode")]);
    let r = gw.handle(AcpRequest::SessionPrompt {
        session_id: Some("never-created".to_string()),
        prompt: vec![PromptBlock::Text("hi".to_string())],
    });
    match r {
        AcpAction::RunBridge { command, .. } => assert_eq!(command, "opencode"),
        _ => panic!("the default provider must resolve"),
    }
}

#[test]
fn cancel_always_reports_cancelled() {
    let mut gw = gateway();
    let r = gw.handle(AcpRequest::SessionCancel { session_id: Some("missing".to_string()) });
    assert!(matches!(r, AcpAction::Reply(AcpReply::CancelResult)));
    let r = gw.handle(AcpRequest::SessionCancel { session_id: None });
    assert!(matches!(r, AcpAction::Reply(AcpReply::CancelResult)));
}

#[test]
fn session_load_is_not_supported() {
    let mut gw = gateway();
    let r = gw.handle(AcpRequest::SessionLoad);
    match r {
        AcpAction::Reply(AcpReply::RpcError { code, message }) => {
            assert_eq!(code, -32601);
            assert_eq!(message, "session/load not supported - create a new session instead");
        }
        _ => panic!("session/load must be rejected"),
    }
}

#[test]
fn set_mode_requires_both_ids() {
    let mut gw = gateway();
    let r = gw.handle(AcpRequest::SessionSetMode {
        session_id: Some("s".to_string()),
        mode_id: None,
    });
    match r {
        AcpAction::Reply(AcpReply::RpcError { code, message }) => {
            assert_eq!(code, -32602);
            assert_eq!(message, "Missing sessionId or modeId");
        }
        _ => panic!("set_mode without a mode must be rejected"),
    }
    let r = gw.handle(AcpRequest::SessionSetMode {
        session_id: Some("s".to_string()),
        mode_id: Some("plan".to_string()),
    });
    assert!(matches!(r, AcpAction::Reply(AcpReply::SetModeResult)));
}

#[test]
fn unknown_methods_are_method_not_found() {
    let mut gw = gateway();
    let r = gw.handle(AcpRequest::Extension { method: "_custom/thing".to_string() });
    match r {
        AcpAction::Reply(AcpReply::RpcError { code, message }) => {
            assert_eq!(code, -32601);
            assert_eq!(message, "Extension method not supported: _custom/thing");
        }
        _ => panic!("unhandled extension methods must be rejected"),
    }
    let r = gw.handle(AcpRequest::Unknown { method: "frobnicate".to_string() });
    match r {
        AcpAction::Reply(AcpReply::RpcError { code, message }) => {
            assert_eq!(code, -32601);
            assert_eq!(message, "Method not found: frobnicate");
        }
        _ => panic!("unknown methods must be rejected"),
    }
}

#[test]
fn concat_prompt_newline_joins_only_text_blocks() {
    let blocks = vec![
        PromptBlock::Text("Hello".to_string()),
        PromptBlock::Text("World".to_string()),
    ];
    assert_eq!(concat_prompt(&blocks), "Hello\nWorld");
    assert_eq!(concat_prompt(&Vec::new()), "");
    let blocks = vec![PromptBlock::Other, PromptBlock::Text("only".to_string()), PromptBlock::Other];
    assert_eq!(concat_prompt(&blocks), "only");
}

#[test]
fn prompt_outcome_maps_to_result_or_error() {
    let r = AcpGateway::prompt_outcome_reply(Ok("answer".to_string()));
    match r {
        AcpReply::PromptResult { output } => assert_eq!(output, "answer"),
        _ => panic!("a bridge success must be a prompt result"),
    }
    let r = AcpGateway::prompt_outcome_reply(Err("timeout".to_string()));
    match r {
        AcpReply::RpcError { code, message } => {
            assert_eq!(code, -32000);
            assert_eq!(message, "Agent process error: timeout");
        }
        _ => panic!("a bridge failure must be an error"),
    }
}
