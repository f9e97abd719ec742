use arena::desktop::{
    agent_setup, attempt_call, attempt_result, attempt_unanswered, delivered_file,
    delivered_result, forward_agent_event, forward_file_result, forward_query_result,
    parse_workspace, plan_download, plan_method, rejected_result, worker_credentials,
    worker_login_token, write_tools, AgentCommand, AgentEvent, Backend, DesktopCredentials,
    Effect, FileResult, LoginAttempt, LoginResult, login_token_from, result_from_compact,
};
use arena::protocol::{AgentStatus, ArenaMethod, ArenaResult, BackendEvent, FrontendCommand};
use arena::request::HttpMethod;

fn creds(workspace: Option<&str>) -> DesktopCredentials {
    DesktopCredentials {
        email: "me@x.com".to_string(),
        password: "pw".to_string(),
        workspace_id: workspace.map(|w| w.to_string()),
        base_url: "https://api.example.com/v1".to_string(),
    }
}

fn pairs(v: &[(&str, &str)]) -> Vec<(String, String)> {
    v.iter().map(|(a, b)| (a.to_string(), b.to_string())).collect()
}

#[test]
fn ready_connects_once() {
    let mut backend = Backend::new();
    let first: Vec<Effect<f64>> = backend.handle_command(FrontendCommand::Ready);
    assert_eq!(first, vec![Effect::Emit { event: BackendEvent::Connected }]);
    let second: Vec<Effect<f64>> = backend.handle_command(FrontendCommand::Ready);
    assert!(second.is_empty());
    assert!(backend.connected);
}

#[test]
fn login_defaults_the_base_url_and_requires_https() {
    let mut backend = Backend::new();
    let effects: Vec<Effect<f64>> = backend.handle_command(FrontendCommand::Login {
        email: "a".to_string(),
        password: "b".to_string(),
        workspace_id: None,
        base_url: Some(String::new()),
    });
    assert_eq!(
        effects,
        vec![Effect::AttemptLogin {
            attempt: LoginAttempt {
                email: "a".to_string(),
                password: "b".to_string(),
                workspace_id: None,
                base_url: "https://api.arenasolutions.com/v1".to_string(),
            }
        }]
    );
    let refused: Vec<Effect<f64>> = backend.handle_command(FrontendCommand::Login {
        email: "a".to_string(),
        password: "b".to_string(),
        workspace_id: None,
        base_url: Some("http://insecure".to_string()),
    });
    assert_eq!(
        refused,
        vec![Effect::Emit {
            event: BackendEvent::LoginFailure { message: "Base URL must use HTTPS".to_string() }
        }]
    );
}

#[test]
fn queries_wait_for_a_login() {
    let mut backend = Backend::new();
    let effects: Vec<Effect<f64>> = backend.handle_command(FrontendCommand::ArenaRequest {
        request_id: 4,
        method: ArenaMethod::GetItemCategories,
    });
    assert_eq!(
        effects,
        vec![Effect::Emit {
            event: BackendEvent::ArenaResponse {
                request_id: 4,
                result: ArenaResult::Error { message: "Not logged in".to_string() },
            }
        }]
    );
    let download: Vec<Effect<f64>> = backend.handle_command(FrontendCommand::DownloadFile {
        request_id: 5,
        item_guid: "I".to_string(),
        file_guid: "F".to_string(),
        file_name: "f".to_string(),
    });
    assert_eq!(
        download,
        vec![Effect::Emit {
            event: BackendEvent::FileError { request_id: 5, message: "Not logged in".to_string() }
        }]
    );
}

#[test]
fn a_successful_login_starts_the_workers() {
    let mut backend = Backend::new();
    let effects: Vec<Effect<f64>> = backend.handle_login_result(LoginResult::Success {
        email: "me@x.com".to_string(),
        password: "pw".to_string(),
        workspace_id: Some("42".to_string()),
        base_url: "https://api.example.com/v1".to_string(),
    });
    assert_eq!(effects.len(), 4);
    assert_eq!(effects[0], Effect::StartArenaWorker { credentials: creds(Some("42")) });
    match &effects[1] {
        Effect::StartAgent { setup } => {
            assert_eq!(setup.disallowed_tools, Some(write_tools()));
            assert_eq!(
                setup.env,
                pairs(&[
                    ("ARENA_EMAIL", "me@x.com"),
                    ("ARENA_PASSWORD", "pw"),
                    ("ARENA_BASE_URL", "https://api.example.com/v1"),
                    ("ARENA_WORKSPACE_ID", "42"),
                ])
            );
        }
        other => panic!("unexpected {other:?}"),
    }
    assert_eq!(effects[2], Effect::Emit { event: BackendEvent::LoginSuccess { workspace_name: None } });
    assert_eq!(
        effects[3],
        Effect::Emit { event: BackendEvent::StatusUpdate { status: AgentStatus::Idle } }
    );
    assert!(backend.arena_worker);
    assert!(!backend.agent_channel_free);
    let query: Vec<Effect<f64>> = backend.handle_command(FrontendCommand::ArenaRequest {
        request_id: 9,
        method: ArenaMethod::GetItemCategories,
    });
    assert_eq!(query, vec![Effect::RunQuery { request_id: 9, method: ArenaMethod::GetItemCategories }]);
}

#[test]
fn a_failed_login_is_reported() {
    let mut backend = Backend::new();
    let effects: Vec<Effect<f64>> =
        backend.handle_login_result(LoginResult::Failure { message: "nope".to_string() });
    assert_eq!(effects, vec![Effect::Emit { event: BackendEvent::LoginFailure { message: "nope".to_string() } }]);
    assert_eq!(backend, Backend::new());
}

#[test]
fn write_mode_restarts_the_agent() {
    let mut backend = Backend::new();
    let _: Vec<Effect<f64>> = backend.handle_login_result(LoginResult::Success {
        email: "e".to_string(),
        password: "p".to_string(),
        workspace_id: None,
        base_url: "https://b".to_string(),
    });
    let effects: Vec<Effect<f64>> = backend.handle_command(FrontendCommand::SetWriteMode { enabled: true });
    assert_eq!(effects.len(), 3);
    assert_eq!(effects[0], Effect::NewAgentChannel);
    match &effects[1] {
        Effect::StartAgent { setup } => assert_eq!(setup.disallowed_tools, None),
        other => panic!("unexpected {other:?}"),
    }
    assert_eq!(effects[2], Effect::Emit { event: BackendEvent::WriteModeChanged { enabled: true } });
    assert!(backend.write_mode);
}

#[test]
fn write_mode_without_a_user_starts_nothing() {
    let mut backend = Backend::new();
    let effects: Vec<Effect<f64>> = backend.handle_command(FrontendCommand::SetWriteMode { enabled: true });
    assert_eq!(
        effects,
        vec![
            Effect::NewAgentChannel,
            Effect::Emit { event: BackendEvent::WriteModeChanged { enabled: true } }
        ]
    );
}

#[test]
fn logout_forgets_everything() {
    let mut backend = Backend::new();
    let _: Vec<Effect<f64>> = backend.handle_login_result(LoginResult::Success {
        email: "e".to_string(),
        password: "p".to_string(),
        workspace_id: None,
        base_url: "https://b".to_string(),
    });
    let _: Vec<Effect<f64>> = backend.handle_command(FrontendCommand::SetWriteMode { enabled: true });
    let effects: Vec<Effect<f64>> = backend.handle_command(FrontendCommand::Logout);
    assert_eq!(effects, vec![Effect::StopArenaWorker, Effect::NewAgentChannel]);
    assert!(!backend.write_mode);
    assert!(!backend.arena_worker);
    assert_eq!(backend.credentials, None);
    assert!(backend.agent_channel_free);
}

#[test]
fn prompts_and_cancels_go_to_the_agent() {
    let mut backend = Backend::new();
    let effects: Vec<Effect<f64>> = backend.handle_command(FrontendCommand::SendPrompt {
        prompt: "hi".to_string(),
        session_id: Some("s".to_string()),
        model: None,
    });
    assert_eq!(
        effects,
        vec![
            Effect::Emit { event: BackendEvent::StatusUpdate { status: AgentStatus::Thinking } },
            Effect::ToAgent {
                command: AgentCommand::StartQuery {
                    prompt: "hi".to_string(),
                    session_id: Some("s".to_string()),
                    model: None
                }
            },
        ]
    );
    let cancel: Vec<Effect<f64>> = backend.handle_command(FrontendCommand::CancelRequest);
    assert_eq!(
        cancel,
        vec![
            Effect::ToAgent { command: AgentCommand::Cancel },
            Effect::Emit { event: BackendEvent::StatusUpdate { status: AgentStatus::Idle } },
        ]
    );
    let logs: Vec<Effect<f64>> = backend.handle_command(FrontendCommand::ReadLogs);
    assert!(logs.is_empty());
}

#[test]
fn the_agent_setup_withholds_write_tools() {
    let setup = agent_setup(&creds(None), false);
    assert_eq!(setup.disallowed_tools.as_ref().map(|t| t.len()), Some(19));
    assert!(setup.disallowed_tools.unwrap().contains(&"mcp__arena__delete_item".to_string()));
    assert_eq!(setup.mcp_config, "{\"mcpServers\":{\"arena\":{\"args\":[],\"command\":\"arena\"}}}");
    assert!(setup.system_prompt.starts_with("You have access to Arena PLM tools"));
    assert_eq!(setup.env.len(), 3);
    assert_eq!(agent_setup(&creds(None), true).disallowed_tools, None);
}

#[test]
fn agent_events_update_the_status() {
    let events: Vec<BackendEvent<f64>> =
        forward_agent_event(AgentEvent::SessionStarted { session_id: "s1".to_string() });
    assert_eq!(
        events,
        vec![
            BackendEvent::StreamingStarted { session_id: "s1".to_string() },
            BackendEvent::StatusUpdate { status: AgentStatus::Streaming },
        ]
    );
    let tool: Vec<BackendEvent<f64>> = forward_agent_event(AgentEvent::ToolUseStarted {
        tool_name: "search_items".to_string(),
        tool_id: "t1".to_string(),
    });
    assert_eq!(
        tool,
        vec![
            BackendEvent::StatusUpdate {
                status: AgentStatus::UsingTool { tool_name: "search_items".to_string() }
            },
            BackendEvent::ToolUseStarted {
                tool_name: "search_items".to_string(),
                tool_id: "t1".to_string()
            },
        ]
    );
    let done = forward_agent_event(AgentEvent::Complete {
        session_id: "s1".to_string(),
        total_cost_usd: Some(0.25),
        num_turns: 3,
    });
    assert_eq!(
        done,
        vec![
            BackendEvent::RequestComplete {
                session_id: "s1".to_string(),
                total_cost_usd: Some(0.25),
                num_turns: 3
            },
            BackendEvent::StatusUpdate { status: AgentStatus::Idle },
        ]
    );
    let failed: Vec<BackendEvent<f64>> = forward_agent_event(AgentEvent::Error { message: "bad".to_string() });
    assert_eq!(failed[1], BackendEvent::StatusUpdate { status: AgentStatus::Idle });
    let text: Vec<BackendEvent<f64>> = forward_agent_event(AgentEvent::TextDelta { text: "x".to_string() });
    assert_eq!(text, vec![BackendEvent::TextDelta { text: "x".to_string() }]);
}

#[test]
fn files_travel_in_base64() {
    let event: BackendEvent<f64> = forward_file_result(FileResult::Success {
        request_id: 3,
        file_name: "a.bin".to_string(),
        data: vec![0, 1, 2, 255],
        mime_type: "application/octet-stream".to_string(),
    });
    assert_eq!(
        event,
        BackendEvent::FileContent {
            request_id: 3,
            file_name: "a.bin".to_string(),
            data_base64: "AAEC/w==".to_string(),
            mime_type: "application/octet-stream".to_string(),
        }
    );
    let error: BackendEvent<f64> =
        forward_file_result(FileResult::Error { request_id: 4, message: "m".to_string() });
    assert_eq!(error, BackendEvent::FileError { request_id: 4, message: "m".to_string() });
    let answer: BackendEvent<f64> =
        forward_query_result(1, ArenaResult::Success { json: "{}".to_string() });
    assert_eq!(
        answer,
        BackendEvent::ArenaResponse { request_id: 1, result: ArenaResult::Success { json: "{}".to_string() } }
    );
}

#[test]
fn methods_become_requests() {
    let search = plan_method(ArenaMethod::SearchItems {
        number: None,
        name: Some("*bolt*".to_string()),
        description: None,
        category_guid: Some("C".to_string()),
        lifecycle_phase_guid: Some("P".to_string()),
        offset: Some(10),
        limit: Some(50),
    });
    assert_eq!(search.method, HttpMethod::Get);
    assert_eq!(search.path, "/items");
    assert_eq!(
        search.query,
        pairs(&[
            ("name", "*bolt*"),
            ("category.guid", "C"),
            ("lifecyclePhase.guid", "P"),
            ("offset", "10"),
            ("limit", "50"),
        ])
    );
    let item = plan_method(ArenaMethod::GetItem { guid: "G".to_string() });
    assert_eq!(item.path, "/items/G");
    assert_eq!(item.query, pairs(&[("responseview", "full")]));
    assert_eq!(plan_method(ArenaMethod::GetBom { guid: "G".to_string() }).path, "/items/G/bom");
    assert_eq!(plan_method(ArenaMethod::GetWhereUsed { guid: "G".to_string() }).path, "/items/G/whereused");
    assert_eq!(plan_method(ArenaMethod::GetChange { guid: "C".to_string() }).path, "/changes/C");
    assert_eq!(
        plan_method(ArenaMethod::GetChangeAffectedItems { guid: "C".to_string() }).path,
        "/changes/C/items"
    );
    assert_eq!(plan_method(ArenaMethod::GetItemFiles { guid: "G".to_string() }).path, "/items/G/files");
    assert_eq!(
        plan_method(ArenaMethod::GetItemRevisions { guid: "G".to_string() }).path,
        "/items/G/revisions"
    );
    assert_eq!(plan_method(ArenaMethod::GetLifecyclePhases).path, "/settings/items/lifecyclephases");
    assert_eq!(plan_method(ArenaMethod::GetItemCategories).path, "/settings/items/categories");
    let changes = plan_method(ArenaMethod::SearchChanges {
        number: Some("ECO-1".to_string()),
        title: None,
        lifecycle_status: Some("OPEN".to_string()),
        implementation_status: None,
        offset: None,
        limit: Some(-5),
    });
    assert_eq!(changes.path, "/changes");
    assert_eq!(
        changes.query,
        pairs(&[("number", "ECO-1"), ("lifecycleStatus.type", "OPEN"), ("limit", "-5")])
    );
    assert_eq!(plan_download("I", "F").path, "/items/I/files/F/content");
}

#[test]
fn workspaces_are_sent_as_numbers_when_they_parse() {
    assert_eq!(parse_workspace(&Some("123".to_string())), Some(123));
    assert_eq!(parse_workspace(&Some("-7".to_string())), Some(-7));
    assert_eq!(parse_workspace(&Some("abc".to_string())), None);
    assert_eq!(parse_workspace(&Some("".to_string())), None);
    assert_eq!(parse_workspace(&None), None);
    let worker = worker_credentials(&creds(Some("99")));
    assert_eq!(worker.workspace_id, Some(99));
    assert_eq!(worker.base_url, "https://api.example.com/v1");
}

#[test]
fn login_attempts_end_as_the_api_answers() {
    let attempt = LoginAttempt {
        email: "e".to_string(),
        password: "p".to_string(),
        workspace_id: Some("12".to_string()),
        base_url: "https://b".to_string(),
    };
    let call = attempt_call(&attempt);
    assert_eq!(call.url, "https://b/login");
    assert_eq!(call.request.workspace_id, Some(12));
    assert_eq!(
        attempt_result(attempt.clone(), 200, "200 OK", "{}"),
        LoginResult::Success {
            email: "e".to_string(),
            password: "p".to_string(),
            workspace_id: Some("12".to_string()),
            base_url: "https://b".to_string(),
        }
    );
    assert_eq!(
        attempt_result(attempt, 401, "401 Unauthorized", "bad password"),
        LoginResult::Failure { message: "Login failed (401 Unauthorized): bad password".to_string() }
    );
    assert_eq!(
        attempt_unanswered(true, "timed out"),
        LoginResult::Failure { message: "Connection failed: timed out".to_string() }
    );
    assert_eq!(
        attempt_unanswered(false, "tls"),
        LoginResult::Failure { message: "HTTP client error: tls".to_string() }
    );
}

#[test]
fn the_worker_reads_its_token_from_the_login_answer() {
    assert_eq!(
        worker_login_token(200, "200 OK", "{\"arenaSessionId\":\"tok\",\"workspaceId\":1}"),
        Ok("tok".to_string())
    );
    assert_eq!(
        worker_login_token(200, "200 OK", "{\"arenaSessionId\":5}"),
        Err("No session ID in response".to_string())
    );
    assert_eq!(
        worker_login_token(200, "200 OK", "not json"),
        Err("error decoding response body".to_string())
    );
    assert_eq!(
        worker_login_token(403, "403 Forbidden", "{}"),
        Err("Login failed: 403 Forbidden".to_string())
    );
}

#[test]
fn the_worker_answers_queries_with_compact_json() {
    assert_eq!(
        delivered_result("{ \"results\" : [ 1, 2 ] }"),
        ArenaResult::Success { json: "{\"results\":[1,2]}".to_string() }
    );
    assert_eq!(
        delivered_result("<html>"),
        ArenaResult::Error { message: "error decoding response body".to_string() }
    );
    assert_eq!(
        rejected_result("404 Not Found", "missing"),
        ArenaResult::Error { message: "Arena API error (404 Not Found): missing".to_string() }
    );
    assert_eq!(
        delivered_file(2, "f".to_string(), vec![1], None),
        FileResult::Success {
            request_id: 2,
            file_name: "f".to_string(),
            data: vec![1],
            mime_type: "application/octet-stream".to_string(),
        }
    );
}

#[test]
fn login_token_from_decoded_member() {
    assert_eq!(login_token_from(500, "500 Internal Server Error", Some(Some("T".to_string()))), Err("Login failed: 500 Internal Server Error".to_string()));
    assert_eq!(login_token_from(200, "200 OK", None), Err("error decoding response body".to_string()));
    assert_eq!(login_token_from(200, "200 OK", Some(None)), Err("No session ID in response".to_string()));
    assert_eq!(login_token_from(201, "201 Created", Some(Some("T".to_string()))), Ok("T".to_string()));
}

#[test]
fn result_from_compact_json() {
    assert_eq!(result_from_compact(Some("{}".to_string())), ArenaResult::Success { json: "{}".to_string() });
    assert_eq!(
        result_from_compact(None),
        ArenaResult::Error { message: "error decoding response body".to_string() }
    );
}
