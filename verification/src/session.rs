//! The session with Arena: stored credentials, the session token, and the exchange that
//! sends one request with the token, logs in when there is none, and retries once after
//! the server answers 401.

use vstd::prelude::*;

use crate::request::{
    concat2, concat4, empty_body, opt_field, owned, push_field, BodyValue, BodyValueView,
    FieldsView, RequestBody,
};
use crate::text::{parse_i64, parse_int_spec, str_eq};
use crate::types::{LoginRequest, LoginResponse};

verus! {

/// The default base URL of the Arena REST API.
pub open spec fn default_base_url() -> Seq<char> {
    "https://api.arenasolutions.com/v1"@
}

/// The message given when a request is made before any login.
pub open spec fn not_logged_in_message() -> Seq<char> {
    "Not logged in. Use the login tool first."@
}

/// The message given when a login is needed during a call (after the API refused the
/// token) but the credentials are gone, because a logout came in between.
pub open spec fn relogin_without_credentials_message() -> Seq<char> {
    "Not logged in. Use the login tool first with your Arena email, password, and optional workspace ID."@
}

/// The message that the HTTP client gives when a response body is not the JSON expected.
pub open spec fn undecodable_body_message() -> Seq<char> {
    "error decoding response body"@
}

/// What a login needs: the account and where the API is.
#[derive(Clone, Debug, PartialEq, Eq)]
pub struct Credentials {
    pub email: String,
    pub password: String,
    pub workspace_id: Option<i64>,
    pub base_url: String,
}

/// The stored credentials and the current session token.
#[derive(Clone, Debug, PartialEq, Eq)]
pub struct Session {
    pub credentials: Option<Credentials>,
    pub token: Option<String>,
}

pub open spec fn opt_seq(o: Option<String>) -> Option<Seq<char>> {
    match o {
        Some(s) => Some(s@),
        None => None,
    }
}

/// The workspace of the environment: absent when unset or empty, and dropped when it is
/// not an `i64`.
pub open spec fn env_workspace(workspace_id: Option<Seq<char>>) -> Option<int> {
    match workspace_id {
        Some(w) => if w.len() == 0 {
            None
        } else {
            parse_int_spec(w)
        },
        None => None,
    }
}

/// Credentials from the values of `ARENA_EMAIL`, `ARENA_PASSWORD`, `ARENA_WORKSPACE_ID`
/// and `ARENA_BASE_URL`: none unless both the email and the password are set.
pub fn credentials_from_env(
    email: Option<String>,
    password: Option<String>,
    workspace_id: Option<String>,
    base_url: Option<String>,
) -> (res: Option<Credentials>)
    ensures
        res is Some <==> email is Some && password is Some,
        res matches Some(c) ==> {
            &&& c.email@ == email->0@
            &&& c.password@ == password->0@
            &&& match c.workspace_id {
                Some(w) => env_workspace(opt_seq(workspace_id)) == Some(w as int),
                None => env_workspace(opt_seq(workspace_id)) is None,
            }
            &&& c.base_url@ == match base_url {
                Some(b) => b@,
                None => default_base_url(),
            }
        },
{
    let email = match email {
        Some(e) => e,
        None => return None,
    };
    let password = match password {
        Some(p) => p,
        None => return None,
    };
    let workspace_id = match workspace_id {
        Some(w) => if w.as_str().is_empty() {
            None
        } else {
            parse_i64(w.as_str())
        },
        None => None,
    };
    let base_url = match base_url {
        Some(b) => b,
        None => owned("https://api.arenasolutions.com/v1"),
    };
    Some(Credentials { email, password, workspace_id, base_url })
}

/// The URL of the login endpoint under a base URL.
pub open spec fn login_url(base_url: Seq<char>) -> Seq<char> {
    base_url + "/login"@
}

/// The body of a login: email, password and, when given, the workspace.
pub open spec fn login_fields(email: Seq<char>, password: Seq<char>, workspace_id: Option<i64>) -> FieldsView {
    seq![("email"@, BodyValueView::Str(email)), ("password"@, BodyValueView::Str(password))]
        + opt_field(
        "workspaceId"@,
        match workspace_id {
            Some(w) => Some(BodyValueView::Int(w as int)),
            None => None,
        },
    )
}

/// The JSON body of a login request.
pub fn login_body(request: &LoginRequest) -> (res: RequestBody)
    ensures
        res@ == login_fields(request.email@, request.password@, request.workspace_id),
{
    let mut body = empty_body();
    push_field(&mut body, "email", BodyValue::Str(request.email.clone()));
    push_field(&mut body, "password", BodyValue::Str(request.password.clone()));
    match request.workspace_id {
        Some(w) => push_field(&mut body, "workspaceId", BodyValue::Int(w)),
        None => {},
    }
    assert(body@ =~= login_fields(request.email@, request.password@, request.workspace_id));
    body
}

/// A login to send: where, and with what.
#[derive(Clone, Debug, PartialEq, Eq)]
pub struct LoginCall {
    pub url: String,
    pub request: LoginRequest,
}

/// The login that the given credentials make.
pub fn login_call(credentials: &Credentials) -> (res: LoginCall)
    ensures
        res.url@ == login_url(credentials.base_url@),
        res.request.email@ == credentials.email@,
        res.request.password@ == credentials.password@,
        res.request.workspace_id == credentials.workspace_id,
{
    LoginCall {
        url: concat2(credentials.base_url.as_str(), "/login"),
        request: LoginRequest {
            email: credentials.email.clone(),
            password: credentials.password.clone(),
            workspace_id: credentials.workspace_id,
        },
    }
}

/// The credentials of an explicit login: the base URL defaults to the public API.
pub fn login_credentials(
    email: String,
    password: String,
    workspace_id: Option<i64>,
    base_url: Option<String>,
) -> (res: Credentials)
    ensures
        res.email@ == email@,
        res.password@ == password@,
        res.workspace_id == workspace_id,
        res.base_url@ == match base_url {
            Some(b) => b@,
            None => default_base_url(),
        },
{
    let base_url = match base_url {
        Some(b) => b,
        None => owned("https://api.arenasolutions.com/v1"),
    };
    Credentials { email, password, workspace_id, base_url }
}

/// The message of a refused login.
pub fn login_failed_message(status: &str, body: &str) -> (res: String)
    ensures
        res@ == "Login failed ("@ + status@ + "): "@ + body@,
{
    concat4("Login failed (", status, "): ", body)
}

/// The message of a request that the API refused.
pub fn api_error_message(status: &str, body: &str) -> (res: String)
    ensures
        res@ == "Arena API error ("@ + status@ + "): "@ + body@,
{
    concat4("Arena API error (", status, "): ", body)
}

/// Whether an HTTP status is a success (2xx).
pub open spec fn is_success(status: u16) -> bool {
    200 <= status < 300
}

impl Session {
    /// A session with the given credentials and no token yet.
    pub fn new(credentials: Option<Credentials>) -> (res: Session)
        ensures
            res.credentials == credentials,
            res.token is None,
    {
        Session { credentials, token: None }
    }

    /// The base URL of the stored credentials.
    pub fn base_url(&self) -> (res: Result<String, String>)
        ensures
            match self.credentials {
                Some(c) => res matches Ok(b) && b@ == c.base_url@,
                None => res matches Err(m) && m@ == not_logged_in_message(),
            },
    {
        match &self.credentials {
            Some(c) => Ok(c.base_url.clone()),
            None => Err(owned("Not logged in. Use the login tool first.")),
        }
    }

    /// Stores what a successful explicit login gives: the credentials and the token.
    pub fn complete_login(&mut self, credentials: Credentials, token: String)
        ensures
            final(self).credentials == Some(credentials),
            final(self).token == Some(token),
    {
        self.credentials = Some(credentials);
        self.token = Some(token);
    }

    /// Forgets the token `stale` after the API refused it; a newer token stays.
    pub fn invalidate(&mut self, stale: &str)
        ensures
            final(self).credentials == old(self).credentials,
            match old(self).token {
                Some(t) => if t@ == stale@ {
                    final(self).token is None
                } else {
                    final(self).token == old(self).token
                },
                None => final(self).token is None,
            },
    {
        let clear = match &self.token {
            Some(t) => str_eq(t.as_str(), stale),
            None => false,
        };
        if clear {
            self.token = None;
        }
    }

    /// The logout call to make, `(url, token)`: only when there are both credentials and a
    /// token.
    pub fn logout_call(&self) -> (res: Option<(String, String)>)
        ensures
            res is Some <==> self.credentials is Some && self.token is Some,
            res matches Some(call) ==> call.0@ == login_url(self.credentials->0.base_url@)
                && call.1@ == self.token->0@,
    {
        match (&self.credentials, &self.token) {
            (Some(c), Some(t)) => Some((concat2(c.base_url.as_str(), "/login"), t.clone())),
            _ => None,
        }
    }

    /// Forgets the credentials and the token.
    pub fn logout(&mut self)
        ensures
            final(self).credentials is None,
            final(self).token is None,
    {
        self.credentials = None;
        self.token = None;
    }
}

/// Where one exchange stands.
#[derive(Clone, Debug, PartialEq, Eq)]
pub enum ExchangeState {
    /// Not begun.
    Start,
    /// A login was asked for; `retried` tells whether this is the second attempt.
    AwaitLogin { url: String, retried: bool },
    /// The request was sent with `token`.
    AwaitResponse { url: String, token: String, retried: bool },
    /// Over.
    Finished,
}

/// What happened since the last step.
#[derive(Clone, Debug, PartialEq, Eq)]
pub enum ExchangeEvent {
    /// The caller wants `path` (under the base URL) requested.
    Begin { path: String },
    /// The login asked for gave this token.
    LoggedIn { token: String },
    /// The login asked for failed with this message.
    LoginFailed { message: String },
    /// The request was answered with this HTTP status.
    Responded { status: u16 },
}

/// What to do next.
#[derive(Clone, Debug, PartialEq, Eq)]
pub enum ExchangeAction {
    /// Log in with this call, then report `LoggedIn` or `LoginFailed`.
    Login { call: LoginCall },
    /// Send the request to `url` with the header `arena_session_id: token`.
    Send { url: String, token: String },
    /// Hand the last response to the caller.
    Deliver,
    /// Report the last response as an API error (see [`api_error_message`]).
    Reject,
    /// Fail with this message.
    Fail { message: String },
}

/// How an exchange treats the answer to its retry: the MCP server's client checks it like
/// the first answer; the desktop worker hands it over whatever its status.
#[derive(Clone, Copy, Debug, PartialEq, Eq, Structural)]
pub enum RetryCheck {
    Checked,
    Unchecked,
}

/// How many more times an exchange in `state` may send its request: two at the start, and
/// one after the first answer was 401.
pub open spec fn send_budget(state: ExchangeState) -> nat {
    match state {
        ExchangeState::Start => 2,
        ExchangeState::AwaitLogin { retried, .. } => if retried {
            1
        } else {
            2
        },
        ExchangeState::AwaitResponse { retried, .. } => if retried {
            0
        } else {
            1
        },
        ExchangeState::Finished => 0,
    }
}

/// `action` sends the request to `url` with `token`.
pub open spec fn sends(action: ExchangeAction, url: Seq<char>, token: Seq<char>) -> bool {
    match action {
        ExchangeAction::Send { url: u, token: t } => u@ == url && t@ == token,
        _ => false,
    }
}

/// `action` logs in with the credentials `c`.
pub open spec fn logs_in(action: ExchangeAction, c: Credentials) -> bool {
    match action {
        ExchangeAction::Login { call } => {
            &&& call.url@ == login_url(c.base_url@)
            &&& call.request.email@ == c.email@
            &&& call.request.password@ == c.password@
            &&& call.request.workspace_id == c.workspace_id
        },
        _ => false,
    }
}

/// `action` fails with `message`.
pub open spec fn fails_with(action: ExchangeAction, message: Seq<char>) -> bool {
    match action {
        ExchangeAction::Fail { message: m } => m@ == message,
        _ => false,
    }
}

/// `state` waits for the answer to a request to `url` sent with `token`.
pub open spec fn awaits_response(state: ExchangeState, url: Seq<char>, token: Seq<char>, retried: bool) -> bool {
    match state {
        ExchangeState::AwaitResponse { url: u, token: t, retried: r } => u@ == url && t@ == token
            && r == retried,
        _ => false,
    }
}

/// `state` waits for a login, after which the request goes to `url`.
pub open spec fn awaits_login(state: ExchangeState, url: Seq<char>, retried: bool) -> bool {
    match state {
        ExchangeState::AwaitLogin { url: u, retried: r } => u@ == url && r == retried,
        _ => false,
    }
}

/// The step that follows when the request to `url` needs a token: send with the stored
/// one, or log in when there is none.
pub open spec fn token_step(session: Session, url: Seq<char>, retried: bool, res: (ExchangeState, ExchangeAction)) -> bool {
    match session.token {
        Some(t) => awaits_response(res.0, url, t@, retried) && sends(res.1, url, t@),
        None => awaits_login(res.0, url, retried) && logs_in(res.1, session.credentials->0),
    }
}

/// The next step of an exchange that has a token or has to log in: send with the stored
/// token when there is one, and log in otherwise.
fn use_or_get_token(session: &Session, url: String, retried: bool) -> (res: (ExchangeState, ExchangeAction))
    requires
        session.credentials is Some || session.token is Some,
    ensures
        token_step(*session, url@, retried, res),
{
    match &session.token {
        Some(t) => {
            let u2 = url.clone();
            (
                ExchangeState::AwaitResponse { url, token: t.clone(), retried },
                ExchangeAction::Send { url: u2, token: t.clone() },
            )
        },
        None => {
            let call = match &session.credentials {
                Some(c) => login_call(c),
                None => {
                    proof {
                        assert(false);
                    }
                    return (ExchangeState::Finished, ExchangeAction::Deliver);
                },
            };
            (ExchangeState::AwaitLogin { url, retried }, ExchangeAction::Login { call })
        },
    }
}

/// One step of an exchange: what the session, the exchange and the caller do with `event`.
pub fn step(
    session: &mut Session,
    state: ExchangeState,
    event: ExchangeEvent,
    check: RetryCheck,
) -> (res: (ExchangeState, ExchangeAction))
    ensures
        // the credentials never change during an exchange
        final(session).credentials == old(session).credentials,
        // an exchange sends its request at most twice: each send uses up one of two
        send_budget(res.0) <= send_budget(state),
        res.1 is Send ==> send_budget(res.0) < send_budget(state),
        match (state, event) {
            (ExchangeState::Start, ExchangeEvent::Begin { path }) => {
                &&& final(session).token == old(session).token
                &&& match old(session).credentials {
                    None => res.0 is Finished && fails_with(res.1, not_logged_in_message()),
                    // a stored token is used as it is; without one, the exchange logs in first
                    Some(c) => token_step(*old(session), c.base_url@ + path@, false, res),
                }
            },
            (ExchangeState::AwaitLogin { url, retried }, ExchangeEvent::LoggedIn { token }) => {
                // the new token is stored and used
                &&& final(session).token == Some(token)
                &&& sends(res.1, url@, token@)
                &&& awaits_response(res.0, url@, token@, retried)
            },
            (ExchangeState::AwaitLogin { .. }, ExchangeEvent::LoginFailed { message }) => {
                &&& final(session).token == old(session).token
                &&& res.0 is Finished
                &&& fails_with(res.1, message@)
            },
            (
                ExchangeState::AwaitResponse { url, token, retried },
                ExchangeEvent::Responded { status },
            ) => if status == 401 && !retried {
                // the refused token is forgotten, a newer one stays, and the request is
                // tried once more
                &&& match old(session).token {
                    Some(t) => if t@ == token@ {
                        final(session).token is None
                    } else {
                        final(session).token == old(session).token
                    },
                    None => final(session).token is None,
                }
                // a token still stored (a newer one) is used; otherwise the exchange logs in
                // again, which fails when the credentials are gone
                &&& (old(session).credentials is Some || final(session).token is Some) ==> token_step(
                    *final(session),
                    url@,
                    true,
                    res,
                )
                &&& (old(session).credentials is None && final(session).token is None) ==> res.0 is Finished
                    && fails_with(res.1, relogin_without_credentials_message())
            } else {
                &&& final(session).token == old(session).token
                &&& res.0 is Finished
                &&& if is_success(status) || (retried && check == RetryCheck::Unchecked) {
                    res.1 is Deliver
                } else {
                    res.1 is Reject
                }
            },
            _ => final(session).token == old(session).token && res.0 is Finished && res.1 is Fail,
        },
{
    match (state, event) {
        (ExchangeState::Start, ExchangeEvent::Begin { path }) => {
            let base = match session.base_url() {
                Ok(b) => b,
                Err(message) => {
                    return (ExchangeState::Finished, ExchangeAction::Fail { message });
                },
            };
            let url = concat2(base.as_str(), path.as_str());
            use_or_get_token(session, url, false)
        },
        (ExchangeState::AwaitLogin { url, retried }, ExchangeEvent::LoggedIn { token }) => {
            session.token = Some(token.clone());
            let u2 = url.clone();
            (
                ExchangeState::AwaitResponse { url, token: token.clone(), retried },
                ExchangeAction::Send { url: u2, token },
            )
        },
        (ExchangeState::AwaitLogin { .. }, ExchangeEvent::LoginFailed { message }) => {
            (ExchangeState::Finished, ExchangeAction::Fail { message })
        },
        (ExchangeState::AwaitResponse { url, token, retried }, ExchangeEvent::Responded { status }) => {
            if status == 401 && !retried {
                session.invalidate(token.as_str());
                if session.credentials.is_none() && session.token.is_none() {
                    // a logout since the start of the call took the credentials: the login
                    // that the retry needs cannot be made
                    return (
                        ExchangeState::Finished,
                        ExchangeAction::Fail {
                            message: owned(
                                "Not logged in. Use the login tool first with your Arena email, password, and optional workspace ID.",
                            ),
                        },
                    );
                }
                use_or_get_token(session, url, true)
            } else if 200 <= status && status < 300 {
                (ExchangeState::Finished, ExchangeAction::Deliver)
            } else if retried && check == RetryCheck::Unchecked {
                (ExchangeState::Finished, ExchangeAction::Deliver)
            } else {
                (ExchangeState::Finished, ExchangeAction::Reject)
            }
        },
        _ => (ExchangeState::Finished, ExchangeAction::Fail { message: owned("the exchange is not waiting for this") }),
    }
}

/// `r` is an error with `message`.
pub open spec fn fails_with_message<T>(r: Result<T, String>, message: Seq<char>) -> bool {
    match r {
        Err(m) => m@ == message,
        Ok(_) => false,
    }
}

/// What the answer to a login gives, given what serde_json made of its body as a
/// [`LoginResponse`] (`None` when it could not): the login on a 2xx answer, and otherwise
/// `Login failed ({status}): {body}`.
pub fn login_answer(status: u16, status_text: &str, body: &str, decoded: Option<LoginResponse>) -> (res:
    Result<LoginResponse, String>)
    ensures
        !(200 <= status < 300) ==> fails_with_message(
            res,
            "Login failed ("@ + status_text@ + "): "@ + body@,
        ),
        200 <= status < 300 ==> match decoded {
            Some(login) => res == Ok::<LoginResponse, String>(login),
            None => fails_with_message(res, undecodable_body_message()),
        },
{
    if !(200 <= status && status < 300) {
        return Err(login_failed_message(status_text, body));
    }
    match decoded {
        Some(login) => Ok(login),
        None => Err(owned("error decoding response body")),
    }
}

impl Session {
    /// What an explicit login does to the session: a successful one stores the credentials
    /// and the new token; a failed one leaves the session as it was. The answer is handed
    /// back.
    pub fn finish_authenticate(&mut self, credentials: Credentials, answer: Result<LoginResponse, String>) -> (res:
        Result<LoginResponse, String>)
        ensures
            res == answer,
            match answer {
                Ok(login) => final(self).credentials == Some(credentials) && final(self).token
                    == Some(login.arena_session_id),
                Err(_) => *final(self) == *old(self),
            },
    {
        match answer {
            Ok(login) => {
                self.complete_login(credentials, login.arena_session_id.clone());
                Ok(login)
            },
            Err(message) => Err(message),
        }
    }
}

} // verus!
