use arena::session::{
    api_error_message, credentials_from_env, login_answer, login_body, login_call, login_credentials,
    login_failed_message, step, Credentials, ExchangeAction, ExchangeEvent, ExchangeState,
    RetryCheck, Session,
};
use arena::request::BodyValue;
use arena::types::{LoginRequest, LoginResponse};

fn creds() -> Credentials {
    Credentials {
        email: "me@x.com".to_string(),
        password: "pw".to_string(),
        workspace_id: Some(7),
        base_url: "https://api.example.com/v1".to_string(),
    }
}

fn begin(session: &mut Session, path: &str, check: RetryCheck) -> (ExchangeState, ExchangeAction) {
    step(session, ExchangeState::Start, ExchangeEvent::Begin { path: path.to_string() }, check)
}

#[test]
fn environment_credentials() {
    assert_eq!(credentials_from_env(None, Some("pw".to_string()), None, None), None);
    let c = credentials_from_env(Some("e".to_string()), Some("p".to_string()), Some("".to_string()), None).unwrap();
    assert_eq!(c.workspace_id, None);
    assert_eq!(c.base_url, "https://api.arenasolutions.com/v1");
    let c = credentials_from_env(
        Some("e".to_string()),
        Some("p".to_string()),
        Some("123456789".to_string()),
        Some("https://eu.example.com/v1".to_string()),
    )
    .unwrap();
    assert_eq!(c.workspace_id, Some(123456789));
    assert_eq!(c.base_url, "https://eu.example.com/v1");
    let bad = credentials_from_env(Some("e".to_string()), Some("p".to_string()), Some("x1".to_string()), None).unwrap();
    assert_eq!(bad.workspace_id, None);
}

#[test]
fn login_requests() {
    let call = login_call(&creds());
    assert_eq!(call.url, "https://api.example.com/v1/login");
    let body = login_body(&call.request);
    assert_eq!(
        body.fields,
        vec![
            ("email".to_string(), BodyValue::Str("me@x.com".to_string())),
            ("password".to_string(), BodyValue::Str("pw".to_string())),
            ("workspaceId".to_string(), BodyValue::Int(7)),
        ]
    );
    let no_workspace = login_body(&LoginRequest { email: "a".to_string(), password: "b".to_string(), workspace_id: None });
    assert_eq!(no_workspace.fields.len(), 2);
    let explicit = login_credentials("a".to_string(), "b".to_string(), None, None);
    assert_eq!(explicit.base_url, "https://api.arenasolutions.com/v1");
    assert_eq!(login_failed_message("401 Unauthorized", "bad"), "Login failed (401 Unauthorized): bad");
    assert_eq!(api_error_message("500 Internal Server Error", ""), "Arena API error (500 Internal Server Error): ");
}

#[test]
fn the_first_call_logs_in_and_later_calls_reuse_the_token() {
    let mut session = Session::new(Some(creds()));
    let (state, action) = begin(&mut session, "/items", RetryCheck::Checked);
    match &action {
        ExchangeAction::Login { call } => assert_eq!(call.url, "https://api.example.com/v1/login"),
        other => panic!("unexpected {other:?}"),
    }
    let (state, action) = step(&mut session, state, ExchangeEvent::LoggedIn { token: "T1".to_string() }, RetryCheck::Checked);
    assert_eq!(
        action,
        ExchangeAction::Send { url: "https://api.example.com/v1/items".to_string(), token: "T1".to_string() }
    );
    assert_eq!(session.token.as_deref(), Some("T1"));
    let (state, action) = step(&mut session, state, ExchangeEvent::Responded { status: 200 }, RetryCheck::Checked);
    assert_eq!(action, ExchangeAction::Deliver);
    assert!(matches!(state, ExchangeState::Finished));
    let (_, action) = begin(&mut session, "/changes", RetryCheck::Checked);
    assert_eq!(
        action,
        ExchangeAction::Send { url: "https://api.example.com/v1/changes".to_string(), token: "T1".to_string() }
    );
}

#[test]
fn a_refused_token_is_replaced_once() {
    let mut session = Session::new(Some(creds()));
    session.token = Some("OLD".to_string());
    let (state, _) = begin(&mut session, "/items/G", RetryCheck::Checked);
    let (state, action) = step(&mut session, state, ExchangeEvent::Responded { status: 401 }, RetryCheck::Checked);
    assert!(matches!(action, ExchangeAction::Login { .. }));
    assert_eq!(session.token, None);
    let (state, action) = step(&mut session, state, ExchangeEvent::LoggedIn { token: "NEW".to_string() }, RetryCheck::Checked);
    assert_eq!(
        action,
        ExchangeAction::Send { url: "https://api.example.com/v1/items/G".to_string(), token: "NEW".to_string() }
    );
    let (_, action) = step(&mut session, state, ExchangeEvent::Responded { status: 401 }, RetryCheck::Checked);
    assert_eq!(action, ExchangeAction::Reject);
}

#[test]
fn the_worker_hands_over_the_retry_whatever_its_status() {
    let mut session = Session::new(Some(creds()));
    session.token = Some("OLD".to_string());
    let (state, _) = begin(&mut session, "/x", RetryCheck::Unchecked);
    let (state, _) = step(&mut session, state, ExchangeEvent::Responded { status: 401 }, RetryCheck::Unchecked);
    let (state, _) = step(&mut session, state, ExchangeEvent::LoggedIn { token: "NEW".to_string() }, RetryCheck::Unchecked);
    let (_, action) = step(&mut session, state, ExchangeEvent::Responded { status: 500 }, RetryCheck::Unchecked);
    assert_eq!(action, ExchangeAction::Deliver);
}

#[test]
fn errors_end_the_exchange() {
    let mut nobody = Session::new(None);
    let (state, action) = begin(&mut nobody, "/items", RetryCheck::Checked);
    assert!(matches!(state, ExchangeState::Finished));
    assert_eq!(action, ExchangeAction::Fail { message: "Not logged in. Use the login tool first.".to_string() });
    let mut session = Session::new(Some(creds()));
    let (state, _) = begin(&mut session, "/items", RetryCheck::Checked);
    let (_, action) = step(&mut session, state, ExchangeEvent::LoginFailed { message: "Login failed (401 Unauthorized): no".to_string() }, RetryCheck::Checked);
    assert_eq!(action, ExchangeAction::Fail { message: "Login failed (401 Unauthorized): no".to_string() });
    session.token = Some("T".to_string());
    let (state, _) = begin(&mut session, "/items", RetryCheck::Checked);
    let (_, action) = step(&mut session, state, ExchangeEvent::Responded { status: 404 }, RetryCheck::Checked);
    assert_eq!(action, ExchangeAction::Reject);
}

#[test]
fn invalidation_keeps_a_newer_token() {
    let mut session = Session::new(Some(creds()));
    session.token = Some("NEWER".to_string());
    session.invalidate("STALE");
    assert_eq!(session.token.as_deref(), Some("NEWER"));
    session.invalidate("NEWER");
    assert_eq!(session.token, None);
}

#[test]
fn logout() {
    let mut session = Session::new(Some(creds()));
    assert_eq!(session.logout_call(), None);
    session.complete_login(creds(), "T".to_string());
    assert_eq!(session.logout_call(), Some(("https://api.example.com/v1/login".to_string(), "T".to_string())));
    session.logout();
    assert_eq!(session.credentials, None);
    assert_eq!(session.token, None);
    assert_eq!(Session::new(None).base_url(), Err("Not logged in. Use the login tool first.".to_string()));
}

#[test]
fn a_logout_during_a_call_fails_the_relogin() {
    let mut session = Session::new(Some(creds()));
    session.token = Some("OLD".to_string());
    let (state, _) = begin(&mut session, "/items", RetryCheck::Checked);
    session.logout();
    let (state, action) = step(&mut session, state, ExchangeEvent::Responded { status: 401 }, RetryCheck::Checked);
    assert!(matches!(state, ExchangeState::Finished));
    assert_eq!(
        action,
        ExchangeAction::Fail {
            message: "Not logged in. Use the login tool first with your Arena email, password, and optional workspace ID."
                .to_string()
        }
    );
}

#[test]
fn a_newer_token_is_used_for_the_retry() {
    let mut session = Session::new(Some(creds()));
    session.token = Some("OLD".to_string());
    let (state, _) = begin(&mut session, "/items", RetryCheck::Checked);
    session.credentials = None;
    session.token = Some("NEWER".to_string());
    let (_, action) = step(&mut session, state, ExchangeEvent::Responded { status: 401 }, RetryCheck::Checked);
    assert_eq!(
        action,
        ExchangeAction::Send { url: "https://api.example.com/v1/items".to_string(), token: "NEWER".to_string() }
    );
}

fn login_of(token: &str) -> LoginResponse {
    LoginResponse { arena_session_id: token.to_string(), workspace_id: Some(7), workspace_name: None }
}

#[test]
fn login_answers() {
    assert_eq!(login_answer(200, "200 OK", "{}", Some(login_of("T"))), Ok(login_of("T")));
    assert_eq!(
        login_answer(401, "401 Unauthorized", "bad", Some(login_of("T"))),
        Err("Login failed (401 Unauthorized): bad".to_string())
    );
    assert_eq!(
        login_answer(200, "200 OK", "x", None),
        Err("error decoding response body".to_string())
    );
}

#[test]
fn authentication_keeps_the_session_on_failure() {
    let mut session = Session::new(None);
    let failed = session.finish_authenticate(creds(), Err("Login failed (403 Forbidden): no".to_string()));
    assert_eq!(failed, Err("Login failed (403 Forbidden): no".to_string()));
    assert_eq!(session, Session::new(None));
    let done = session.finish_authenticate(creds(), Ok(login_of("T1")));
    assert_eq!(done, Ok(login_of("T1")));
    assert_eq!(session.credentials, Some(creds()));
    assert_eq!(session.token, Some("T1".to_string()));
}
