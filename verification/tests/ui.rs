use arena::page::View;
use arena::protocol::{AgentStatus, ArenaResult, BackendEvent, FrontendCommand, RateLimitInfo};
use arena::registry::{FileData, PendingRequests};
use arena::ui::{
    apply_event, can_send, can_submit, delete_search, display_status, is_busy, send_prompt,
    session_label, shows_invitation, shows_stream, sign_in_label, sign_out, submit_login,
    toggle_write_mode, AppState, ChatState, Delivery, LoginState, MessageRole, SavedSearch,
    StatusDisplay, ToolUseBlock,
};

struct Front {
    app: AppState,
    chat: ChatState,
    login: LoginState,
    pending: PendingRequests<u8, u8>,
}

impl Front {
    fn new() -> Front {
        Front {
            app: AppState::new(),
            chat: ChatState::new(),
            login: LoginState::new(),
            pending: PendingRequests::new(),
        }
    }

    fn apply(&mut self, event: BackendEvent<f64>) -> Delivery<u8, u8> {
        apply_event(&mut self.app, &mut self.chat, &mut self.login, &mut self.pending, event)
    }
}

#[test]
fn status_labels_and_dots() {
    assert_eq!(StatusDisplay::Disconnected.label(), "Disconnected");
    assert_eq!(StatusDisplay::Idle.label(), "Ready");
    assert_eq!(StatusDisplay::Thinking.label(), "Thinking...");
    assert_eq!(StatusDisplay::Streaming.label(), "Streaming...");
    let tool = StatusDisplay::UsingTool { tool_name: "get_bom".to_string() };
    assert_eq!(tool.label(), "Using tool...");
    assert_eq!(tool.dot_class(), "bg-purple-500");
    assert_eq!(tool.detail(), " (get_bom)");
    assert_eq!(StatusDisplay::Idle.detail(), "");
    assert_eq!(StatusDisplay::Disconnected.dot_class(), "bg-red-500");
    assert_eq!(StatusDisplay::Idle.dot_class(), "bg-green-500");
    assert_eq!(StatusDisplay::Thinking.dot_class(), "bg-yellow-500");
    assert_eq!(StatusDisplay::Streaming.dot_class(), "bg-blue-500");
    assert_eq!(display_status(AgentStatus::Streaming), StatusDisplay::Streaming);
}

#[test]
fn the_front_end_starts_disconnected() {
    let app = AppState::new();
    assert_eq!(app.view, View::Chat);
    assert_eq!(app.status, StatusDisplay::Disconnected);
    assert!(!app.logged_in);
}

#[test]
fn login_events_update_the_form() {
    let mut front = Front::new();
    front.login.loading = true;
    assert!(matches!(
        front.apply(BackendEvent::LoginFailure { message: "Base URL must use HTTPS".to_string() }),
        Delivery::Nothing
    ));
    assert!(!front.login.loading);
    assert_eq!(front.login.error.as_deref(), Some("Base URL must use HTTPS"));
    front.apply(BackendEvent::LoginSuccess { workspace_name: None });
    assert!(front.app.logged_in);
    assert_eq!(front.app.status, StatusDisplay::Idle);
    assert_eq!(front.login, LoginState { error: None, loading: false });
}

#[test]
fn a_streamed_answer_becomes_a_message() {
    let mut front = Front::new();
    front.apply(BackendEvent::StreamingStarted { session_id: "s".to_string() });
    front.apply(BackendEvent::ThinkingDelta { text: "hm".to_string() });
    front.apply(BackendEvent::TextDelta { text: "Hel".to_string() });
    front.apply(BackendEvent::TextDelta { text: "lo".to_string() });
    front.apply(BackendEvent::ToolUseStarted { tool_name: "get_item".to_string(), tool_id: "t1".to_string() });
    front.apply(BackendEvent::ToolUseInputDelta { tool_id: "t1".to_string(), partial_json: "{\"g".to_string() });
    front.apply(BackendEvent::ToolUseInputDelta { tool_id: String::new(), partial_json: "uid\"}".to_string() });
    front.apply(BackendEvent::ToolUseFinished { tool_id: "t1".to_string() });
    assert_eq!(front.app.session_id.as_deref(), Some("s"));
    assert_eq!(front.chat.streaming_text, "Hello");
    front.apply(BackendEvent::RequestComplete { session_id: "s".to_string(), total_cost_usd: Some(0.5), num_turns: 1 });
    assert_eq!(front.chat.messages.len(), 1);
    let message = &front.chat.messages[0];
    assert_eq!(message.role, MessageRole::Assistant);
    assert_eq!(message.content, "Hello");
    assert_eq!(message.thinking, "hm");
    assert_eq!(
        message.tool_uses,
        vec![ToolUseBlock {
            tool_name: "get_item".to_string(),
            tool_id: "t1".to_string(),
            input_json: "{\"guid\"}".to_string(),
            finished: true,
        }]
    );
    assert!(front.chat.streaming_text.is_empty());
    assert!(front.chat.active_tools.is_empty());
}

#[test]
fn tool_updates_go_to_the_last_matching_call() {
    let mut front = Front::new();
    front.apply(BackendEvent::ToolUseStarted { tool_name: "a".to_string(), tool_id: "x".to_string() });
    front.apply(BackendEvent::ToolUseStarted { tool_name: "b".to_string(), tool_id: "y".to_string() });
    front.apply(BackendEvent::ToolUseFinished { tool_id: "x".to_string() });
    assert!(front.chat.active_tools[0].finished);
    assert!(!front.chat.active_tools[1].finished);
    front.apply(BackendEvent::ToolUseInputDelta { tool_id: "zzz".to_string(), partial_json: "1".to_string() });
    assert_eq!(front.chat.active_tools[0].input_json, "");
    assert_eq!(front.chat.active_tools[1].input_json, "");
    front.apply(BackendEvent::ToolUseFinished { tool_id: String::new() });
    assert!(front.chat.active_tools[1].finished);
}

#[test]
fn an_empty_answer_leaves_no_message() {
    let mut chat = ChatState::new();
    chat.finalize();
    assert!(chat.messages.is_empty());
}

#[test]
fn errors_end_the_answer_with_a_message() {
    let mut front = Front::new();
    front.apply(BackendEvent::TextDelta { text: "partial".to_string() });
    front.apply(BackendEvent::Error { message: "timeout".to_string() });
    assert_eq!(front.chat.messages.len(), 2);
    assert_eq!(front.chat.messages[0].content, "partial");
    assert_eq!(front.chat.messages[1].content, "Error: timeout");
    assert_eq!(front.chat.messages[1].role, MessageRole::Assistant);
}

#[test]
fn status_write_mode_logs_and_rate_limits() {
    let mut front = Front::new();
    front.apply(BackendEvent::Connected);
    assert_eq!(front.app.status, StatusDisplay::Idle);
    front.apply(BackendEvent::StatusUpdate { status: AgentStatus::UsingTool { tool_name: "t".to_string() } });
    assert_eq!(front.app.status, StatusDisplay::UsingTool { tool_name: "t".to_string() });
    front.apply(BackendEvent::WriteModeChanged { enabled: true });
    assert!(front.app.write_mode);
    front.apply(BackendEvent::LogContent { text: "a\n".to_string(), append: false });
    front.apply(BackendEvent::LogContent { text: "b\n".to_string(), append: true });
    assert_eq!(front.app.log_content, "a\nb\n");
    front.apply(BackendEvent::LogContent { text: "c".to_string(), append: false });
    assert_eq!(front.app.log_content, "c");
    let info = RateLimitInfo { requests_remaining: 5, request_limit: 10, reset_time: None };
    front.apply(BackendEvent::RateLimitUpdate { info: info.clone() });
    assert_eq!(front.app.rate_limit, Some(info));
    let before = front.chat.clone();
    front.apply(BackendEvent::TurnComplete { session_id: "s".to_string() });
    assert_eq!(front.chat, before);
}

#[test]
fn answers_reach_their_waiters() {
    let mut front = Front::new();
    front.pending.begin_arena_request(7, arena::protocol::ArenaMethod::GetItemCategories);
    front.pending.begin_download(8, "I".to_string(), "F".to_string(), "f".to_string());
    match front.apply(BackendEvent::ArenaResponse { request_id: 1, result: ArenaResult::Success { json: "[]".to_string() } }) {
        Delivery::Query { waiter, outcome } => {
            assert_eq!(waiter, 7);
            assert_eq!(outcome, Ok("[]".to_string()));
        }
        _ => panic!("expected the query's waiter"),
    }
    match front.apply(BackendEvent::FileContent {
        request_id: 2,
        file_name: "f".to_string(),
        data_base64: "AA==".to_string(),
        mime_type: "x/y".to_string(),
    }) {
        Delivery::Download { waiter, outcome } => {
            assert_eq!(waiter, 8);
            assert_eq!(
                outcome,
                Ok(FileData { file_name: "f".to_string(), data_base64: "AA==".to_string(), mime_type: "x/y".to_string() })
            );
        }
        _ => panic!("expected the download's waiter"),
    }
    assert!(matches!(
        front.apply(BackendEvent::FileError { request_id: 2, message: "late".to_string() }),
        Delivery::Nothing
    ));
}

#[test]
fn sending_a_prompt() {
    let mut chat = ChatState::new();
    chat.input_text = "   ".to_string();
    assert_eq!(send_prompt(&mut chat, None), None);
    assert!(chat.messages.is_empty());
    chat.input_text = "How many bolts?".to_string();
    let command = send_prompt(&mut chat, Some("s1".to_string()));
    assert_eq!(
        command,
        Some(FrontendCommand::SendPrompt {
            prompt: "How many bolts?".to_string(),
            session_id: Some("s1".to_string()),
            model: None,
        })
    );
    assert_eq!(chat.messages[0].role, MessageRole::User);
    assert_eq!(chat.messages[0].content, "How many bolts?");
    assert!(chat.input_text.is_empty());
}

#[test]
fn busy_agents_take_no_prompt() {
    assert!(!is_busy(&StatusDisplay::Idle));
    assert!(!is_busy(&StatusDisplay::Disconnected));
    assert!(is_busy(&StatusDisplay::Streaming));
    assert!(can_send("hi", &StatusDisplay::Idle));
    assert!(!can_send("hi", &StatusDisplay::Thinking));
    assert!(!can_send(" \n", &StatusDisplay::Idle));
    let chat = ChatState::new();
    assert!(shows_invitation(&chat, &StatusDisplay::Idle));
    assert!(!shows_invitation(&chat, &StatusDisplay::Thinking));
    assert!(shows_stream(&chat, &StatusDisplay::Thinking));
    assert!(!shows_stream(&chat, &StatusDisplay::Streaming));
}

#[test]
fn submitting_the_login_form() {
    let mut login = LoginState::new();
    assert!(!can_submit("", "pw", &login));
    assert_eq!(submit_login(&mut login, " ".to_string(), "pw".to_string(), String::new(), String::new()), None);
    assert!(!login.loading);
    let command = submit_login(
        &mut login,
        "me@x.com".to_string(),
        "pw".to_string(),
        "  ".to_string(),
        "https://host/v1".to_string(),
    );
    assert_eq!(
        command,
        Some(FrontendCommand::Login {
            email: "me@x.com".to_string(),
            password: "pw".to_string(),
            workspace_id: None,
            base_url: Some("https://host/v1".to_string()),
        })
    );
    assert!(login.loading);
    assert_eq!(sign_in_label(&login), "Signing in...");
    assert_eq!(submit_login(&mut login, "a".to_string(), "b".to_string(), String::new(), String::new()), None);
    assert_eq!(sign_in_label(&LoginState::new()), "Sign In");
}

#[test]
fn settings_actions() {
    let mut app = AppState::new();
    app.logged_in = true;
    app.write_mode = true;
    app.rate_limit = Some(RateLimitInfo { requests_remaining: 1, request_limit: 2, reset_time: None });
    assert_eq!(toggle_write_mode(&app), FrontendCommand::SetWriteMode { enabled: false });
    assert_eq!(sign_out(&mut app), FrontendCommand::Logout);
    assert!(!app.logged_in);
    assert_eq!(app.rate_limit, None);
    let search = |label: &str| SavedSearch { label: label.to_string(), view: "items".to_string(), query: "q".to_string() };
    let mut searches = vec![search("a"), search("b"), search("c")];
    delete_search(&mut searches, 1);
    assert_eq!(searches, vec![search("a"), search("c")]);
    delete_search(&mut searches, 5);
    assert_eq!(searches.len(), 2);
}

#[test]
fn session_labels_are_shortened() {
    assert_eq!(session_label("short"), "short");
    assert_eq!(session_label("0123456789abcdef"), "0123456789abcdef");
    assert_eq!(session_label("0123456789abcdefXYZ"), "0123456789abcdef...");
    assert_eq!(session_label("ééééééééééé"), "éééééééé...");
}
