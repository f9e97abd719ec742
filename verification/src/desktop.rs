//! The desktop back end: what it does with each command of the web front end, with the
//! outcome of a login, and with the events of the agent; and the Arena queries that its
//! worker runs.
//!
//! The back end is a state machine: each function here takes its state and one input, and
//! gives the new state and the effects that the shell carries out (messages to the front
//! end, commands to the agent, work for the Arena worker, threads to start).

use vstd::prelude::*;

use crate::client::{self, search_changes_query, search_items_query};
use crate::content::{base64_standard, content_type_or_default, encode_base64};
use crate::protocol::{AgentStatus, ArenaMethod, ArenaResult, BackendEvent, FrontendCommand};
use crate::request::{
    concat2, opt_view, owned, query_view, ApiRequest, ApiRequestView, HttpMethod, QueryView,
};
use crate::session::{
    undecodable_body_message, api_error_message, default_base_url, login_failed_message, login_url, Credentials, LoginCall,
};
use crate::text::{parse_i64, parse_int_spec, starts_with_seq, str_starts_with, strings_of};
use crate::types::{LoginRequest, SearchChangesParams, SearchItemsParams};

verus! {

/// The tools of the Arena MCP server that change data.
pub open spec fn write_tool_names() -> Seq<Seq<char>> {
    seq![
        "mcp__arena__create_item"@,
        "mcp__arena__update_item"@,
        "mcp__arena__delete_item"@,
        "mcp__arena__create_bom_line"@,
        "mcp__arena__update_bom_line"@,
        "mcp__arena__delete_bom_line"@,
        "mcp__arena__create_change"@,
        "mcp__arena__update_change"@,
        "mcp__arena__change_change_status"@,
        "mcp__arena__add_change_affected_item"@,
        "mcp__arena__remove_change_affected_item"@,
        "mcp__arena__create_request"@,
        "mcp__arena__update_request"@,
        "mcp__arena__change_request_status"@,
        "mcp__arena__create_supplier"@,
        "mcp__arena__update_supplier"@,
        "mcp__arena__create_ticket"@,
        "mcp__arena__change_quality_status"@,
        "mcp__arena__item_lifecycle_phase_change"@,
    ]
}

/// The names of the tools that change data, in the order above.
pub fn write_tools() -> (res: Vec<String>)
    ensures
        strings_of(res@) == write_tool_names(),
{
    let mut v: Vec<String> = Vec::new();
    v.push(owned("mcp__arena__create_item"));
    v.push(owned("mcp__arena__update_item"));
    v.push(owned("mcp__arena__delete_item"));
    v.push(owned("mcp__arena__create_bom_line"));
    v.push(owned("mcp__arena__update_bom_line"));
    v.push(owned("mcp__arena__delete_bom_line"));
    v.push(owned("mcp__arena__create_change"));
    v.push(owned("mcp__arena__update_change"));
    v.push(owned("mcp__arena__change_change_status"));
    v.push(owned("mcp__arena__add_change_affected_item"));
    v.push(owned("mcp__arena__remove_change_affected_item"));
    v.push(owned("mcp__arena__create_request"));
    v.push(owned("mcp__arena__update_request"));
    v.push(owned("mcp__arena__change_request_status"));
    v.push(owned("mcp__arena__create_supplier"));
    v.push(owned("mcp__arena__update_supplier"));
    v.push(owned("mcp__arena__create_ticket"));
    v.push(owned("mcp__arena__change_quality_status"));
    v.push(owned("mcp__arena__item_lifecycle_phase_change"));
    assert(strings_of(v@) =~= write_tool_names());
    v
}

/// A tool of the Arena MCP server that only reads data: a get or a search.
pub open spec fn reads_only(tool: Seq<char>) -> bool {
    starts_with_seq(tool, "mcp__arena__get_"@) || starts_with_seq(tool, "mcp__arena__search_"@)
}

proof fn lemma_not_read_tool(tool: Seq<char>)
    requires
        tool.len() > 12,
        tool[12] != 'g',
        tool[12] != 's',
    ensures
        !reads_only(tool),
{
    reveal_strlit("mcp__arena__get_");
    reveal_strlit("mcp__arena__search_");
    if starts_with_seq(tool, "mcp__arena__get_"@) {
        assert(tool.subrange(0, 16)[12] == tool[12]);
    }
    if starts_with_seq(tool, "mcp__arena__search_"@) {
        assert(tool.subrange(0, 19)[12] == tool[12]);
    }
}

/// In read-only mode (write mode off) the agent is started with every data-changing tool
/// of the Arena server withheld: each create, update, delete, status change, affected-item
/// change and lifecycle phase change, nineteen in all, and no tool that only reads. With
/// write mode on nothing is withheld.
pub proof fn law_read_only_withholds_writes(setup: AgentSetup, c: DesktopCredentials, write_mode: bool)
    requires
        is_agent_setup(setup, c, write_mode),
    ensures
        write_mode ==> setup.disallowed_tools is None,
        !write_mode ==> setup.disallowed_tools is Some,
        !write_mode ==> ({
            let tools = strings_of(setup.disallowed_tools->0@);
            &&& tools.len() == 19
            &&& forall|i: int| 0 <= i < tools.len() ==> !reads_only(#[trigger] tools[i])
            &&& tools.contains("mcp__arena__create_item"@)
            &&& tools.contains("mcp__arena__update_item"@)
            &&& tools.contains("mcp__arena__delete_item"@)
            &&& tools.contains("mcp__arena__create_bom_line"@)
            &&& tools.contains("mcp__arena__update_bom_line"@)
            &&& tools.contains("mcp__arena__delete_bom_line"@)
            &&& tools.contains("mcp__arena__create_change"@)
            &&& tools.contains("mcp__arena__update_change"@)
            &&& tools.contains("mcp__arena__change_change_status"@)
            &&& tools.contains("mcp__arena__add_change_affected_item"@)
            &&& tools.contains("mcp__arena__remove_change_affected_item"@)
            &&& tools.contains("mcp__arena__create_request"@)
            &&& tools.contains("mcp__arena__update_request"@)
            &&& tools.contains("mcp__arena__change_request_status"@)
            &&& tools.contains("mcp__arena__create_supplier"@)
            &&& tools.contains("mcp__arena__update_supplier"@)
            &&& tools.contains("mcp__arena__create_ticket"@)
            &&& tools.contains("mcp__arena__change_quality_status"@)
            &&& tools.contains("mcp__arena__item_lifecycle_phase_change"@)
        }),
{
    if !write_mode {
        let tools = strings_of(setup.disallowed_tools->0@);
        lemma_write_tools_change_data(tools);
    }
}

proof fn lemma_write_tools_change_data(tools: Seq<Seq<char>>)
    requires
        tools == write_tool_names(),
    ensures
        tools.len() == 19,
        forall|i: int| 0 <= i < tools.len() ==> !reads_only(#[trigger] tools[i]),
            tools.contains("mcp__arena__create_item"@),
            tools.contains("mcp__arena__update_item"@),
            tools.contains("mcp__arena__delete_item"@),
            tools.contains("mcp__arena__create_bom_line"@),
            tools.contains("mcp__arena__update_bom_line"@),
            tools.contains("mcp__arena__delete_bom_line"@),
            tools.contains("mcp__arena__create_change"@),
            tools.contains("mcp__arena__update_change"@),
            tools.contains("mcp__arena__change_change_status"@),
            tools.contains("mcp__arena__add_change_affected_item"@),
            tools.contains("mcp__arena__remove_change_affected_item"@),
            tools.contains("mcp__arena__create_request"@),
            tools.contains("mcp__arena__update_request"@),
            tools.contains("mcp__arena__change_request_status"@),
            tools.contains("mcp__arena__create_supplier"@),
            tools.contains("mcp__arena__update_supplier"@),
            tools.contains("mcp__arena__create_ticket"@),
            tools.contains("mcp__arena__change_quality_status"@),
            tools.contains("mcp__arena__item_lifecycle_phase_change"@),
{
    assert(tools[0] == "mcp__arena__create_item"@);
    assert(tools[1] == "mcp__arena__update_item"@);
    assert(tools[2] == "mcp__arena__delete_item"@);
    assert(tools[3] == "mcp__arena__create_bom_line"@);
    assert(tools[4] == "mcp__arena__update_bom_line"@);
    assert(tools[5] == "mcp__arena__delete_bom_line"@);
    assert(tools[6] == "mcp__arena__create_change"@);
    assert(tools[7] == "mcp__arena__update_change"@);
    assert(tools[8] == "mcp__arena__change_change_status"@);
    assert(tools[9] == "mcp__arena__add_change_affected_item"@);
    assert(tools[10] == "mcp__arena__remove_change_affected_item"@);
    assert(tools[11] == "mcp__arena__create_request"@);
    assert(tools[12] == "mcp__arena__update_request"@);
    assert(tools[13] == "mcp__arena__change_request_status"@);
    assert(tools[14] == "mcp__arena__create_supplier"@);
    assert(tools[15] == "mcp__arena__update_supplier"@);
    assert(tools[16] == "mcp__arena__create_ticket"@);
    assert(tools[17] == "mcp__arena__change_quality_status"@);
    assert(tools[18] == "mcp__arena__item_lifecycle_phase_change"@);
    assert forall|i: int| 0 <= i < tools.len() implies !reads_only(#[trigger] tools[i]) by {
        reveal_strlit("mcp__arena__create_item");
        reveal_strlit("mcp__arena__update_item");
        reveal_strlit("mcp__arena__delete_item");
        reveal_strlit("mcp__arena__create_bom_line");
        reveal_strlit("mcp__arena__update_bom_line");
        reveal_strlit("mcp__arena__delete_bom_line");
        reveal_strlit("mcp__arena__create_change");
        reveal_strlit("mcp__arena__update_change");
        reveal_strlit("mcp__arena__change_change_status");
        reveal_strlit("mcp__arena__add_change_affected_item");
        reveal_strlit("mcp__arena__remove_change_affected_item");
        reveal_strlit("mcp__arena__create_request");
        reveal_strlit("mcp__arena__update_request");
        reveal_strlit("mcp__arena__change_request_status");
        reveal_strlit("mcp__arena__create_supplier");
        reveal_strlit("mcp__arena__update_supplier");
        reveal_strlit("mcp__arena__create_ticket");
        reveal_strlit("mcp__arena__change_quality_status");
        reveal_strlit("mcp__arena__item_lifecycle_phase_change");
        lemma_not_read_tool(tools[i]);
    }
}

/// The credentials of a signed-in user, as the login form gave them (the workspace as
/// typed) with the base URL settled.
#[derive(Clone, Debug, PartialEq, Eq)]
pub struct DesktopCredentials {
    pub email: String,
    pub password: String,
    pub workspace_id: Option<String>,
    pub base_url: String,
}

/// A copy of `s`.
pub fn copy_opt_string(s: &Option<String>) -> (res: Option<String>)
    ensures
        res == *s,
{
    match s {
        Some(v) => Some(v.clone()),
        None => None,
    }
}

/// A copy of the credentials `c`.
pub fn copy_credentials(c: &DesktopCredentials) -> (res: DesktopCredentials)
    ensures
        res == *c,
{
    DesktopCredentials {
        email: c.email.clone(),
        password: c.password.clone(),
        workspace_id: copy_opt_string(&c.workspace_id),
        base_url: c.base_url.clone(),
    }
}

/// A command for the agent (the command-line assistant that uses the tools).
#[derive(Clone, Debug, PartialEq, Eq)]
pub enum AgentCommand {
    StartQuery { prompt: String, session_id: Option<String>, model: Option<String> },
    Cancel,
}

/// An event of the agent.
#[derive(Clone, Debug, PartialEq)]
pub enum AgentEvent<C> {
    SessionStarted { session_id: String },
    TextDelta { text: String },
    ThinkingDelta { text: String },
    ToolUseStarted { tool_name: String, tool_id: String },
    ToolUseInputDelta { tool_id: String, partial_json: String },
    ToolUseFinished { tool_id: String },
    TurnComplete { session_id: String },
    Complete { session_id: String, total_cost_usd: Option<C>, num_turns: u32 },
    Error { message: String },
}

/// How the agent is started: its system prompt, its MCP configuration (JSON text), the tools
/// it may not use, and its environment.
#[derive(Clone, Debug, PartialEq, Eq)]
pub struct AgentSetup {
    pub system_prompt: String,
    pub mcp_config: String,
    pub disallowed_tools: Option<Vec<String>>,
    pub env: Vec<(String, String)>,
}

/// A login to try, on a thread of its own.
#[derive(Clone, Debug, PartialEq, Eq)]
pub struct LoginAttempt {
    pub email: String,
    pub password: String,
    pub workspace_id: Option<String>,
    pub base_url: String,
}

/// How a login attempt ended.
#[derive(Clone, Debug, PartialEq, Eq)]
pub enum LoginResult {
    Success { email: String, password: String, workspace_id: Option<String>, base_url: String },
    Failure { message: String },
}

/// A downloaded file, or why it could not be had.
#[derive(Clone, Debug, PartialEq, Eq)]
pub enum FileResult {
    Success { request_id: u32, file_name: String, data: Vec<u8>, mime_type: String },
    Error { request_id: u32, message: String },
}

/// What the shell does after a step of the back end.
#[derive(Clone, Debug, PartialEq)]
pub enum Effect<C> {
    /// Send this event to the front end.
    Emit { event: BackendEvent<C> },
    /// Send this command to the agent.
    ToAgent { command: AgentCommand },
    /// Hand this query to the Arena worker.
    RunQuery { request_id: u32, method: ArenaMethod },
    /// Hand this download to the Arena worker.
    RunDownload { request_id: u32, item_guid: String, file_guid: String, file_name: String },
    /// Try this login on a thread of its own.
    AttemptLogin { attempt: LoginAttempt },
    /// Start an Arena worker that signs in with these credentials.
    StartArenaWorker { credentials: DesktopCredentials },
    /// Drop the channels to the Arena worker, which then stops.
    StopArenaWorker,
    /// Replace the agent's command channel with a new one; an agent that listens on the old
    /// one stops.
    NewAgentChannel,
    /// Start the agent on the current command channel.
    StartAgent { setup: AgentSetup },
}

/// The state of the back end.
#[derive(Clone, Debug, PartialEq, Eq)]
pub struct Backend {
    /// The front end was told that it is connected.
    pub connected: bool,
    /// The signed-in user.
    pub credentials: Option<DesktopCredentials>,
    /// The agent may use the tools that change data.
    pub write_mode: bool,
    /// An Arena worker runs and takes queries and downloads.
    pub arena_worker: bool,
    /// The agent's current command channel has no agent yet.
    pub agent_channel_free: bool,
}

/// The base URL of a login: the one given unless it is empty, else the public API; it must
/// use HTTPS.
pub open spec fn login_base_url(base_url: Option<Seq<char>>) -> Seq<char> {
    match base_url {
        Some(b) => if b.len() > 0 {
            b
        } else {
            default_base_url()
        },
        None => default_base_url(),
    }
}

/// The settings of the agent for a user, with or without the tools that change data.
pub open spec fn agent_env(c: DesktopCredentials) -> QueryView {
    seq![
        ("ARENA_EMAIL"@, c.email@),
        ("ARENA_PASSWORD"@, c.password@),
        ("ARENA_BASE_URL"@, c.base_url@),
    ] + match c.workspace_id {
        Some(w) => seq![("ARENA_WORKSPACE_ID"@, w@)],
        None => seq![],
    }
}

/// The MCP configuration that points the agent at this program's server.
pub open spec fn agent_mcp_config() -> Seq<char> {
    "{\"mcpServers\":{\"arena\":{\"args\":[],\"command\":\"arena\"}}}"@
}

/// What the agent is told about its tools.
pub open spec fn agent_system_prompt() -> Seq<char> {
    "You have access to Arena PLM tools via the arena MCP server. You can search items, view BOMs, look up changes/ECOs, check where-used references, view revisions, find suppliers, and explore quality processes. Use these tools to help answer questions about hardware parts, assemblies, and change orders in Arena."@
}

/// `setup` starts the agent for the user `c`: the tools that change data are withheld
/// unless write mode is on.
pub open spec fn is_agent_setup(setup: AgentSetup, c: DesktopCredentials, write_mode: bool) -> bool {
    &&& setup.system_prompt@ == agent_system_prompt()
    &&& setup.mcp_config@ == agent_mcp_config()
    &&& query_view(setup.env@) == agent_env(c)
    &&& match setup.disallowed_tools {
        Some(tools) => !write_mode && strings_of(tools@) == write_tool_names(),
        None => write_mode,
    }
}

/// The agent's settings for the user `credentials`.
pub fn agent_setup(credentials: &DesktopCredentials, write_mode: bool) -> (res: AgentSetup)
    ensures
        is_agent_setup(res, *credentials, write_mode),
{
    let mut env: Vec<(String, String)> = Vec::new();
    env.push((owned("ARENA_EMAIL"), credentials.email.clone()));
    env.push((owned("ARENA_PASSWORD"), credentials.password.clone()));
    env.push((owned("ARENA_BASE_URL"), credentials.base_url.clone()));
    match &credentials.workspace_id {
        Some(w) => env.push((owned("ARENA_WORKSPACE_ID"), w.clone())),
        None => {},
    }
    assert(query_view(env@) =~= agent_env(*credentials));
    let disallowed_tools = if write_mode {
        None
    } else {
        Some(write_tools())
    };
    AgentSetup {
        system_prompt: owned(
            "You have access to Arena PLM tools via the arena MCP server. You can search items, view BOMs, look up changes/ECOs, check where-used references, view revisions, find suppliers, and explore quality processes. Use these tools to help answer questions about hardware parts, assemblies, and change orders in Arena.",
        ),
        mcp_config: owned("{\"mcpServers\":{\"arena\":{\"args\":[],\"command\":\"arena\"}}}"),
        disallowed_tools,
        env,
    }
}

/// `effect` emits `event`.
pub open spec fn emits<C>(effect: Effect<C>, event: BackendEvent<C>) -> bool {
    effect == (Effect::Emit { event })
}

/// `effect` emits a status update to `status`.
pub open spec fn emits_status<C>(effect: Effect<C>, status: AgentStatus) -> bool {
    effect == (Effect::<C>::Emit { event: BackendEvent::StatusUpdate { status } })
}

/// `effect` emits the error `message` (by its characters) as the answer to query `id`.
pub open spec fn answers_query_with_error<C>(effect: Effect<C>, id: u32, message: Seq<char>) -> bool {
    match effect {
        Effect::Emit { event: BackendEvent::ArenaResponse { request_id, result: ArenaResult::Error { message: m } } } =>
            request_id == id && m@ == message,
        _ => false,
    }
}

/// `effect` emits the error `message` (by its characters) as the answer to download `id`.
pub open spec fn answers_download_with_error<C>(effect: Effect<C>, id: u32, message: Seq<char>) -> bool {
    match effect {
        Effect::Emit { event: BackendEvent::FileError { request_id, message: m } } =>
            request_id == id && m@ == message,
        _ => false,
    }
}

/// `effect` tells the front end that the login failed with `message`.
pub open spec fn fails_login<C>(effect: Effect<C>, message: Seq<char>) -> bool {
    match effect {
        Effect::Emit { event: BackendEvent::LoginFailure { message: m } } => m@ == message,
        _ => false,
    }
}

/// `effects` start the agent when its channel is free and someone is signed in, and do
/// nothing otherwise; `after` is the back end afterwards.
pub open spec fn starts_agent_if_free<C>(before: Backend, after: Backend, effects: Seq<Effect<C>>) -> bool {
    if before.agent_channel_free && before.credentials is Some {
        &&& effects.len() == 1
        &&& effects[0] matches Effect::StartAgent { setup } && is_agent_setup(
            setup,
            before.credentials->0,
            before.write_mode,
        )
        &&& !after.agent_channel_free
    } else {
        effects.len() == 0 && after.agent_channel_free == before.agent_channel_free
    }
}

impl Backend {
    /// A back end that has not met the front end and where nobody is signed in.
    pub fn new() -> (res: Backend)
        ensures
            !res.connected,
            res.credentials is None,
            !res.write_mode,
            !res.arena_worker,
            res.agent_channel_free,
    {
        Backend {
            connected: false,
            credentials: None,
            write_mode: false,
            arena_worker: false,
            agent_channel_free: true,
        }
    }

    /// Starts the agent for the signed-in user on the free command channel, if there is both.
    fn start_agent<C>(&mut self) -> (res: Vec<Effect<C>>)
        ensures
            starts_agent_if_free(*old(self), *final(self), res@),
            final(self).connected == old(self).connected,
            final(self).credentials == old(self).credentials,
            final(self).write_mode == old(self).write_mode,
            final(self).arena_worker == old(self).arena_worker,
    {
        let mut effects: Vec<Effect<C>> = Vec::new();
        if self.agent_channel_free {
            match &self.credentials {
                Some(c) => {
                    let setup = agent_setup(c, self.write_mode);
                    effects.push(Effect::StartAgent { setup });
                    self.agent_channel_free = false;
                },
                None => {},
            }
        }
        effects
    }

    /// What the back end does with a command of the front end.
    pub fn handle_command<C>(&mut self, command: FrontendCommand) -> (res: Vec<Effect<C>>)
        ensures
            match command {
                FrontendCommand::Ready => {
                    // the front end hears once that it is connected
                    &&& *final(self) == (Backend { connected: true, ..*old(self) })
                    &&& if old(self).connected {
                        res@.len() == 0
                    } else {
                        res@ == seq![Effect::<C>::Emit { event: BackendEvent::Connected }]
                    }
                },
                FrontendCommand::Login { email, password, workspace_id, base_url } => {
                    let url = login_base_url(opt_view(base_url));
                    &&& *final(self) == *old(self)
                    &&& res@.len() == 1
                    &&& if starts_with_seq(url, "https://"@) {
                        res@[0] matches Effect::AttemptLogin { attempt } && attempt.email == email
                            && attempt.password == password && attempt.workspace_id == workspace_id
                            && attempt.base_url@ == url
                    } else {
                        fails_login(res@[0], "Base URL must use HTTPS"@)
                    }
                },
                FrontendCommand::Logout => {
                    // everything of the session goes: the worker, the user, write mode and
                    // the agent's channel
                    &&& final(self).connected == old(self).connected
                    &&& final(self).credentials is None
                    &&& !final(self).write_mode
                    &&& !final(self).arena_worker
                    &&& final(self).agent_channel_free
                    &&& res@ == seq![Effect::<C>::StopArenaWorker, Effect::NewAgentChannel]
                },
                FrontendCommand::SendPrompt { prompt, session_id, model } => {
                    &&& *final(self) == *old(self)
                    &&& res@ == seq![
                        Effect::<C>::Emit { event: BackendEvent::StatusUpdate { status: AgentStatus::Thinking } },
                        Effect::ToAgent { command: AgentCommand::StartQuery { prompt, session_id, model } },
                    ]
                },
                FrontendCommand::CancelRequest => {
                    &&& *final(self) == *old(self)
                    &&& res@ == seq![
                        Effect::<C>::ToAgent { command: AgentCommand::Cancel },
                        Effect::Emit { event: BackendEvent::StatusUpdate { status: AgentStatus::Idle } },
                    ]
                },
                // a query is handed to the worker, or answered at once when nobody is signed in
                FrontendCommand::ArenaRequest { request_id, method } => {
                    &&& *final(self) == *old(self)
                    &&& res@.len() == 1
                    &&& if old(self).arena_worker {
                        res@[0] == (Effect::<C>::RunQuery { request_id, method })
                    } else {
                        answers_query_with_error(res@[0], request_id, "Not logged in"@)
                    }
                },
                FrontendCommand::DownloadFile { request_id, item_guid, file_guid, file_name } => {
                    &&& *final(self) == *old(self)
                    &&& res@.len() == 1
                    &&& if old(self).arena_worker {
                        res@[0] == (Effect::<C>::RunDownload { request_id, item_guid, file_guid, file_name })
                    } else {
                        answers_download_with_error(res@[0], request_id, "Not logged in"@)
                    }
                },
                // the agent is restarted with the new setting, which the front end then hears
                FrontendCommand::SetWriteMode { enabled } => {
                    let fresh = Backend { write_mode: enabled, agent_channel_free: true, ..*old(self) };
                    &&& final(self).connected == old(self).connected
                    &&& final(self).credentials == old(self).credentials
                    &&& final(self).arena_worker == old(self).arena_worker
                    &&& final(self).write_mode == enabled
                    &&& res@.len() >= 2
                    &&& res@[0] == Effect::<C>::NewAgentChannel
                    &&& starts_agent_if_free(fresh, *final(self), res@.subrange(1, res@.len() - 1))
                    &&& res@.last() == (Effect::<C>::Emit { event: BackendEvent::WriteModeChanged { enabled } })
                },
                // the log commands are not served by this back end
                _ => *final(self) == *old(self) && res@.len() == 0,
            },
    {
        let mut effects: Vec<Effect<C>> = Vec::new();
        match command {
            FrontendCommand::Ready => {
                if !self.connected {
                    effects.push(Effect::Emit { event: BackendEvent::Connected });
                    self.connected = true;
                }
            },
            FrontendCommand::Login { email, password, workspace_id, base_url } => {
                let base_url = match base_url {
                    Some(b) => if b.as_str().is_empty() {
                        owned("https://api.arenasolutions.com/v1")
                    } else {
                        b
                    },
                    None => owned("https://api.arenasolutions.com/v1"),
                };
                if !str_starts_with(base_url.as_str(), "https://") {
                    effects.push(
                        Effect::Emit {
                            event: BackendEvent::LoginFailure {
                                message: owned("Base URL must use HTTPS"),
                            },
                        },
                    );
                } else {
                    effects.push(
                        Effect::AttemptLogin {
                            attempt: LoginAttempt { email, password, workspace_id, base_url },
                        },
                    );
                }
            },
            FrontendCommand::Logout => {
                self.arena_worker = false;
                self.credentials = None;
                self.write_mode = false;
                self.agent_channel_free = true;
                effects.push(Effect::StopArenaWorker);
                effects.push(Effect::NewAgentChannel);
            },
            FrontendCommand::SendPrompt { prompt, session_id, model } => {
                effects.push(
                    Effect::Emit {
                        event: BackendEvent::StatusUpdate { status: AgentStatus::Thinking },
                    },
                );
                effects.push(
                    Effect::ToAgent {
                        command: AgentCommand::StartQuery { prompt, session_id, model },
                    },
                );
            },
            FrontendCommand::CancelRequest => {
                effects.push(Effect::ToAgent { command: AgentCommand::Cancel });
                effects.push(
                    Effect::Emit { event: BackendEvent::StatusUpdate { status: AgentStatus::Idle } },
                );
            },
            FrontendCommand::ArenaRequest { request_id, method } => {
                if self.arena_worker {
                    effects.push(Effect::RunQuery { request_id, method });
                } else {
                    effects.push(
                        Effect::Emit {
                            event: BackendEvent::ArenaResponse {
                                request_id,
                                result: ArenaResult::Error { message: owned("Not logged in") },
                            },
                        },
                    );
                }
            },
            FrontendCommand::DownloadFile { request_id, item_guid, file_guid, file_name } => {
                if self.arena_worker {
                    effects.push(Effect::RunDownload { request_id, item_guid, file_guid, file_name });
                } else {
                    effects.push(
                        Effect::Emit {
                            event: BackendEvent::FileError {
                                request_id,
                                message: owned("Not logged in"),
                            },
                        },
                    );
                }
            },
            FrontendCommand::SetWriteMode { enabled } => {
                self.write_mode = enabled;
                self.agent_channel_free = true;
                effects.push(Effect::NewAgentChannel);
                let mut started = self.start_agent();
                effects.append(&mut started);
                effects.push(Effect::Emit { event: BackendEvent::WriteModeChanged { enabled } });
            },
            _ => {},
        }
        effects
    }

    /// What the back end does when a login attempt ends: on success the user is kept, the
    /// Arena worker and (when its channel is free) the agent start, and the front end hears
    /// of it and that the agent is idle; on failure the front end hears why.
    pub fn handle_login_result<C>(&mut self, result: LoginResult) -> (res: Vec<Effect<C>>)
        ensures
            match result {
                LoginResult::Success { email, password, workspace_id, base_url } => {
                    let c = DesktopCredentials { email, password, workspace_id, base_url };
                    let signed_in = Backend { credentials: Some(c), arena_worker: true, ..*old(self) };
                    &&& final(self).connected == old(self).connected
                    &&& final(self).credentials == Some(c)
                    &&& final(self).write_mode == old(self).write_mode
                    &&& final(self).arena_worker
                    &&& res@.len() >= 3
                    &&& res@[0] == Effect::<C>::StartArenaWorker { credentials: c }
                    &&& starts_agent_if_free(signed_in, *final(self), res@.subrange(1, res@.len() - 2))
                    &&& res@[res@.len() - 2] == (Effect::<C>::Emit { event: BackendEvent::LoginSuccess { workspace_name: None } })
                    &&& emits_status(res@[res@.len() - 1], AgentStatus::Idle)
                },
                LoginResult::Failure { message } => {
                    &&& *final(self) == *old(self)
                    &&& res@ == seq![Effect::<C>::Emit { event: BackendEvent::LoginFailure { message } }]
                },
            },
    {
        let mut effects: Vec<Effect<C>> = Vec::new();
        match result {
            LoginResult::Success { email, password, workspace_id, base_url } => {
                let credentials = DesktopCredentials { email, password, workspace_id, base_url };
                effects.push(Effect::StartArenaWorker { credentials: copy_credentials(&credentials) });
                self.arena_worker = true;
                self.credentials = Some(credentials);
                let mut started = self.start_agent();
                effects.append(&mut started);
                effects.push(Effect::Emit { event: BackendEvent::LoginSuccess { workspace_name: None } });
                effects.push(
                    Effect::Emit { event: BackendEvent::StatusUpdate { status: AgentStatus::Idle } },
                );
            },
            LoginResult::Failure { message } => {
                effects.push(Effect::Emit { event: BackendEvent::LoginFailure { message } });
            },
        }
        effects
    }
}

/// What the front end hears of an event of the agent: the event itself and, where the
/// agent's activity changes, the new status (streaming once a session starts or a tool is
/// done, the tool while one runs, idle once the request ends either way).
pub fn forward_agent_event<C>(event: AgentEvent<C>) -> (res: Vec<BackendEvent<C>>)
    ensures
        res@ == match event {
            AgentEvent::SessionStarted { session_id } => seq![
                BackendEvent::StreamingStarted { session_id },
                BackendEvent::StatusUpdate { status: AgentStatus::Streaming },
            ],
            AgentEvent::TextDelta { text } => seq![BackendEvent::TextDelta { text }],
            AgentEvent::ThinkingDelta { text } => seq![BackendEvent::ThinkingDelta { text }],
            AgentEvent::ToolUseStarted { tool_name, tool_id } => seq![
                BackendEvent::StatusUpdate { status: AgentStatus::UsingTool { tool_name } },
                BackendEvent::ToolUseStarted { tool_name, tool_id },
            ],
            AgentEvent::ToolUseInputDelta { tool_id, partial_json } => seq![
                BackendEvent::ToolUseInputDelta { tool_id, partial_json },
            ],
            AgentEvent::ToolUseFinished { tool_id } => seq![
                BackendEvent::ToolUseFinished { tool_id },
                BackendEvent::StatusUpdate { status: AgentStatus::Streaming },
            ],
            AgentEvent::TurnComplete { session_id } => seq![BackendEvent::TurnComplete { session_id }],
            AgentEvent::Complete { session_id, total_cost_usd, num_turns } => seq![
                BackendEvent::RequestComplete { session_id, total_cost_usd, num_turns },
                BackendEvent::StatusUpdate { status: AgentStatus::Idle },
            ],
            AgentEvent::Error { message } => seq![
                BackendEvent::Error { message },
                BackendEvent::StatusUpdate { status: AgentStatus::Idle },
            ],
        },
{
    let mut out: Vec<BackendEvent<C>> = Vec::new();
    match event {
        AgentEvent::SessionStarted { session_id } => {
            out.push(BackendEvent::StreamingStarted { session_id });
            out.push(BackendEvent::StatusUpdate { status: AgentStatus::Streaming });
        },
        AgentEvent::TextDelta { text } => {
            out.push(BackendEvent::TextDelta { text });
        },
        AgentEvent::ThinkingDelta { text } => {
            out.push(BackendEvent::ThinkingDelta { text });
        },
        AgentEvent::ToolUseStarted { tool_name, tool_id } => {
            out.push(
                BackendEvent::StatusUpdate {
                    status: AgentStatus::UsingTool { tool_name: tool_name.clone() },
                },
            );
            out.push(BackendEvent::ToolUseStarted { tool_name, tool_id });
        },
        AgentEvent::ToolUseInputDelta { tool_id, partial_json } => {
            out.push(BackendEvent::ToolUseInputDelta { tool_id, partial_json });
        },
        AgentEvent::ToolUseFinished { tool_id } => {
            out.push(BackendEvent::ToolUseFinished { tool_id });
            out.push(BackendEvent::StatusUpdate { status: AgentStatus::Streaming });
        },
        AgentEvent::TurnComplete { session_id } => {
            out.push(BackendEvent::TurnComplete { session_id });
        },
        AgentEvent::Complete { session_id, total_cost_usd, num_turns } => {
            out.push(BackendEvent::RequestComplete { session_id, total_cost_usd, num_turns });
            out.push(BackendEvent::StatusUpdate { status: AgentStatus::Idle });
        },
        AgentEvent::Error { message } => {
            out.push(BackendEvent::Error { message });
            out.push(BackendEvent::StatusUpdate { status: AgentStatus::Idle });
        },
    }
    out
}

/// The answer of the Arena worker to query `request_id`, as the front end gets it.
pub fn forward_query_result<C>(request_id: u32, result: ArenaResult) -> (res: BackendEvent<C>)
    ensures
        res == (BackendEvent::<C>::ArenaResponse { request_id, result }),
{
    BackendEvent::ArenaResponse { request_id, result }
}

/// A download of the Arena worker as the front end gets it: the bytes in standard base64,
/// or the error.
pub fn forward_file_result<C>(result: FileResult) -> (res: BackendEvent<C>)
    requires
        result matches FileResult::Success { data, .. } ==> data@.len() <= usize::MAX / 2,
    ensures
        match result {
            FileResult::Success { request_id, file_name, data, mime_type } => match res {
                BackendEvent::FileContent { request_id: id, file_name: n, data_base64, mime_type: m } => {
                    &&& id == request_id
                    &&& n == file_name
                    &&& m == mime_type
                    &&& data_base64@ == base64_standard(data@)
                },
                _ => false,
            },
            FileResult::Error { request_id, message } => res == (BackendEvent::<C>::FileError { request_id, message }),
        },
{
    match result {
        FileResult::Success { request_id, file_name, data, mime_type } => {
            let data_base64 = encode_base64(data.as_slice());
            BackendEvent::FileContent { request_id, file_name, data_base64, mime_type }
        },
        FileResult::Error { request_id, message } => BackendEvent::FileError { request_id, message },
    }
}

/// The API request that answers an [`ArenaMethod`].
pub open spec fn method_request(m: ArenaMethod) -> ApiRequestView {
    match m {
        ArenaMethod::SearchItems {
            number,
            name,
            description,
            category_guid,
            lifecycle_phase_guid,
            offset,
            limit,
        } => ApiRequestView {
            method: HttpMethod::Get,
            path: "/items"@,
            query: search_items_query(
                SearchItemsParams {
                    number,
                    name,
                    description,
                    category_guid,
                    lifecycle_phase_guid,
                    offset,
                    limit,
                },
            ),
            body: None,
        },
        ArenaMethod::GetItem { guid } => ApiRequestView {
            method: HttpMethod::Get,
            path: "/items/"@ + guid@,
            query: seq![("responseview"@, "full"@)],
            body: None,
        },
        ArenaMethod::GetBom { guid } => get_view("/items/"@ + guid@ + "/bom"@),
        ArenaMethod::GetWhereUsed { guid } => get_view("/items/"@ + guid@ + "/whereused"@),
        ArenaMethod::SearchChanges {
            number,
            title,
            lifecycle_status,
            implementation_status,
            offset,
            limit,
        } => ApiRequestView {
            method: HttpMethod::Get,
            path: "/changes"@,
            query: search_changes_query(
                SearchChangesParams {
                    number,
                    title,
                    lifecycle_status,
                    implementation_status,
                    offset,
                    limit,
                },
            ),
            body: None,
        },
        ArenaMethod::GetChange { guid } => get_view("/changes/"@ + guid@),
        ArenaMethod::GetChangeAffectedItems { guid } => get_view("/changes/"@ + guid@ + "/items"@),
        ArenaMethod::GetItemFiles { guid } => get_view("/items/"@ + guid@ + "/files"@),
        ArenaMethod::GetItemRevisions { guid } => get_view("/items/"@ + guid@ + "/revisions"@),
        ArenaMethod::GetLifecyclePhases => get_view("/settings/items/lifecyclephases"@),
        ArenaMethod::GetItemCategories => get_view("/settings/items/categories"@),
    }
}

/// A GET of `path` with no query.
pub open spec fn get_view(path: Seq<char>) -> ApiRequestView {
    ApiRequestView { method: HttpMethod::Get, path, query: seq![], body: None }
}

/// The API request that the Arena worker sends for a query of the front end.
pub fn plan_method(method: ArenaMethod) -> (res: ApiRequest)
    ensures
        res@ == method_request(method),
{
    match method {
        ArenaMethod::SearchItems {
            number,
            name,
            description,
            category_guid,
            lifecycle_phase_guid,
            offset,
            limit,
        } => client::search_items(
            &SearchItemsParams {
                number,
                name,
                description,
                category_guid,
                lifecycle_phase_guid,
                offset,
                limit,
            },
        ),
        ArenaMethod::GetItem { guid } => client::get_item(guid.as_str()),
        ArenaMethod::GetBom { guid } => client::get_bom(guid.as_str()),
        ArenaMethod::GetWhereUsed { guid } => client::get_where_used(guid.as_str()),
        ArenaMethod::SearchChanges {
            number,
            title,
            lifecycle_status,
            implementation_status,
            offset,
            limit,
        } => client::search_changes(
            &SearchChangesParams {
                number,
                title,
                lifecycle_status,
                implementation_status,
                offset,
                limit,
            },
        ),
        ArenaMethod::GetChange { guid } => client::get_change(guid.as_str()),
        ArenaMethod::GetChangeAffectedItems { guid } => client::get_change_affected_items(
            guid.as_str(),
        ),
        ArenaMethod::GetItemFiles { guid } => client::get_item_files(guid.as_str()),
        ArenaMethod::GetItemRevisions { guid } => client::get_item_revisions(guid.as_str()),
        ArenaMethod::GetLifecyclePhases => client::get_lifecycle_phases(),
        ArenaMethod::GetItemCategories => client::get_item_categories(),
    }
}

/// The request with which the Arena worker downloads a file of an item.
pub fn plan_download(item_guid: &str, file_guid: &str) -> (res: ApiRequest)
    ensures
        res@ == get_view("/items/"@ + item_guid@ + "/files/"@ + file_guid@ + "/content"@),
{
    client::get_item_file_content(item_guid, file_guid)
}

/// The workspace of the login form as a number: `None` unless it parses as an `i64`.
pub open spec fn workspace_number(workspace_id: Option<Seq<char>>) -> Option<i64> {
    match workspace_id {
        Some(w) => match parse_int_spec(w) {
            Some(v) => Some(v as i64),
            None => None,
        },
        None => None,
    }
}

/// The workspace as the login body carries it.
pub fn parse_workspace(workspace_id: &Option<String>) -> (res: Option<i64>)
    ensures
        res == workspace_number(opt_view(*workspace_id)),
{
    match workspace_id {
        Some(w) => parse_i64(w.as_str()),
        None => None,
    }
}

/// The session credentials that the Arena worker signs in with.
pub fn worker_credentials(c: &DesktopCredentials) -> (res: Credentials)
    ensures
        res.email@ == c.email@,
        res.password@ == c.password@,
        res.workspace_id == workspace_number(opt_view(c.workspace_id)),
        res.base_url@ == c.base_url@,
{
    Credentials {
        email: c.email.clone(),
        password: c.password.clone(),
        workspace_id: parse_workspace(&c.workspace_id),
        base_url: c.base_url.clone(),
    }
}

/// The login that a login attempt sends: to `{base_url}/login`, with the email, the password
/// and the workspace when it parses as a number.
pub fn attempt_call(attempt: &LoginAttempt) -> (res: LoginCall)
    ensures
        res.url@ == login_url(attempt.base_url@),
        res.request.email@ == attempt.email@,
        res.request.password@ == attempt.password@,
        res.request.workspace_id == workspace_number(opt_view(attempt.workspace_id)),
{
    LoginCall {
        url: concat2(attempt.base_url.as_str(), "/login"),
        request: LoginRequest {
            email: attempt.email.clone(),
            password: attempt.password.clone(),
            workspace_id: parse_workspace(&attempt.workspace_id),
        },
    }
}

/// How a login attempt ends once the API answered: with the user's details (as typed) on a
/// 2xx status, and with `Login failed ({status}): {body}` otherwise.
pub fn attempt_result(attempt: LoginAttempt, status: u16, status_text: &str, body: &str) -> (res:
    LoginResult)
    ensures
        200 <= status < 300 ==> res == (LoginResult::Success {
            email: attempt.email,
            password: attempt.password,
            workspace_id: attempt.workspace_id,
            base_url: attempt.base_url,
        }),
        !(200 <= status < 300) ==> login_failure_is(
            res,
            "Login failed ("@ + status_text@ + "): "@ + body@,
        ),
{
    if 200 <= status && status < 300 {
        LoginResult::Success {
            email: attempt.email,
            password: attempt.password,
            workspace_id: attempt.workspace_id,
            base_url: attempt.base_url,
        }
    } else {
        LoginResult::Failure { message: login_failed_message(status_text, body) }
    }
}

/// How a login attempt ends when no answer came: `Connection failed: {detail}`, or
/// `HTTP client error: {detail}` when no HTTP client could be made.
pub fn attempt_unanswered(client_made: bool, detail: &str) -> (res: LoginResult)
    ensures
        login_failure_is(
            res,
            if client_made {
                "Connection failed: "@ + detail@
            } else {
                "HTTP client error: "@ + detail@
            },
        ),
{
    if client_made {
        LoginResult::Failure { message: concat2("Connection failed: ", detail) }
    } else {
        LoginResult::Failure { message: concat2("HTTP client error: ", detail) }
    }
}

/// Names what serde_json finds in a JSON text under a key: `None` when the text is not JSON,
/// `Some(None)` when there is no string under the key, the string otherwise.
pub uninterp spec fn json_string_member(text: Seq<char>, key: Seq<char>) -> Option<Option<Seq<char>>>;

/// Names the compact JSON text that serde_json writes back for a JSON text, `None` when the
/// text is not JSON.
pub uninterp spec fn json_compact(text: Seq<char>) -> Option<Seq<char>>;

/// The view of an optional optional string.
pub open spec fn opt_opt_view(o: Option<Option<String>>) -> Option<Option<Seq<char>>> {
    match o {
        Some(inner) => Some(opt_view(inner)),
        None => None,
    }
}

/// `serde_json::from_str::<serde_json::Value>` and then `Value::get(key)` and
/// `Value::as_str`: the contract only names the result.
#[verifier::external_body]
fn string_member(text: &str, key: &str) -> (res: Option<Option<String>>)
    ensures
        opt_opt_view(res) == json_string_member(text@, key@),
{
    match serde_json::from_str::<serde_json::Value>(text) {
        Ok(value) => match value.get(key).and_then(serde_json::Value::as_str) {
            Some(s) => Some(Some(s.to_string())),
            None => Some(None),
        },
        Err(_) => None,
    }
}

/// `serde_json::from_str::<serde_json::Value>` and then `Value::to_string`: the contract
/// only names the result.
#[verifier::external_body]
fn compact_json(text: &str) -> (res: Option<String>)
    ensures
        opt_view(res) == json_compact(text@),
{
    match serde_json::from_str::<serde_json::Value>(text) {
        Ok(value) => Some(value.to_string()),
        Err(_) => None,
    }
}

/// `r` is a failed login with `message`.
pub open spec fn login_failure_is(r: LoginResult, message: Seq<char>) -> bool {
    match r {
        LoginResult::Failure { message: m } => m@ == message,
        _ => false,
    }
}

/// `r` is an error with `message`.
pub open spec fn is_err_with(r: Result<String, String>, message: Seq<char>) -> bool {
    match r {
        Err(m) => m@ == message,
        Ok(_) => false,
    }
}

/// `r` is a success with `value`.
pub open spec fn is_ok_with(r: Result<String, String>, value: Seq<char>) -> bool {
    match r {
        Ok(v) => v@ == value,
        Err(_) => false,
    }
}

/// `r` answers a query with the JSON text `json`.
pub open spec fn query_succeeded_with(r: ArenaResult, json: Seq<char>) -> bool {
    match r {
        ArenaResult::Success { json: j } => j@ == json,
        _ => false,
    }
}

/// `r` answers a query with the error `message`.
pub open spec fn query_failed_with(r: ArenaResult, message: Seq<char>) -> bool {
    match r {
        ArenaResult::Error { message: m } => m@ == message,
        _ => false,
    }
}


/// The session token that the Arena worker takes from the answer to its login, given what
/// serde_json found under `arenaSessionId` in the answer (`None` when it was not JSON, or
/// when the status is not 2xx and nothing was read): the token on a 2xx answer with a
/// string there. The errors are `Login failed: {status}`, the message of an answer that is
/// not JSON, and `No session ID in response`.
pub fn login_token_from(status: u16, status_text: &str, member: Option<Option<String>>) -> (res:
    Result<String, String>)
    ensures
        !(200 <= status < 300) ==> is_err_with(res, "Login failed: "@ + status_text@),
        200 <= status < 300 ==> match member {
            None => is_err_with(res, undecodable_body_message()),
            Some(None) => is_err_with(res, "No session ID in response"@),
            Some(Some(token)) => res == Ok::<String, String>(token),
        },
{
    if !(200 <= status && status < 300) {
        return Err(concat2("Login failed: ", status_text));
    }
    match member {
        None => Err(owned("error decoding response body")),
        Some(None) => Err(owned("No session ID in response")),
        Some(Some(token)) => Ok(token),
    }
}

/// The session token that the Arena worker gets from the answer to its login: the string
/// `arenaSessionId` of a 2xx answer. The errors are `Login failed: {status}`, the message
/// of an answer that is not JSON, and `No session ID in response`.
pub fn worker_login_token(status: u16, status_text: &str, body: &str) -> (res: Result<String, String>)
    ensures
        !(200 <= status < 300) ==> is_err_with(res, "Login failed: "@ + status_text@),
        200 <= status < 300 ==> match json_string_member(body@, "arenaSessionId"@) {
            None => is_err_with(res, undecodable_body_message()),
            Some(None) => is_err_with(res, "No session ID in response"@),
            Some(Some(token)) => is_ok_with(res, token),
        },
{
    if !(200 <= status && status < 300) {
        return login_token_from(status, status_text, None);
    }
    let member = string_member(body, "arenaSessionId");
    login_token_from(status, status_text, member)
}

/// What the Arena worker answers for a response that it hands over, given the compact JSON
/// that serde_json wrote back for its body (`None` when the body is not JSON).
pub fn result_from_compact(compact: Option<String>) -> (res: ArenaResult)
    ensures
        match compact {
            Some(json) => res == (ArenaResult::Success { json }),
            None => query_failed_with(res, undecodable_body_message()),
        },
{
    match compact {
        Some(json) => ArenaResult::Success { json },
        None => ArenaResult::Error { message: owned("error decoding response body") },
    }
}

/// What the Arena worker answers for a response that it hands over: the response's JSON
/// written back compactly, or the message of a body that is not JSON.
pub fn delivered_result(body: &str) -> (res: ArenaResult)
    ensures
        match json_compact(body@) {
            Some(json) => query_succeeded_with(res, json),
            None => query_failed_with(res, undecodable_body_message()),
        },
{
    result_from_compact(compact_json(body))
}

/// What the Arena worker answers for a response with an error status:
/// `Arena API error ({status}): {body}`.
pub fn rejected_result(status_text: &str, body: &str) -> (res: ArenaResult)
    ensures
        query_failed_with(res, "Arena API error ("@ + status_text@ + "): "@ + body@),
{
    ArenaResult::Error { message: api_error_message(status_text, body) }
}

/// The download that the Arena worker hands over: the bytes, with the content type of the
/// answer or `application/octet-stream`.
pub fn delivered_file(request_id: u32, file_name: String, data: Vec<u8>, content_type: Option<String>) -> (res: FileResult)
    ensures
        res matches FileResult::Success { request_id: id, file_name: n, data: d, mime_type } && id
            == request_id && n == file_name && d == data && mime_type@ == match content_type {
            Some(h) => h@,
            None => "application/octet-stream"@,
        },
{
    FileResult::Success { request_id, file_name, data, mime_type: content_type_or_default(content_type) }
}

} // verus!
