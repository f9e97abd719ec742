//! The messages between the web front end and the desktop back end.

use vstd::prelude::*;

verus! {

/// A read-only Arena query that the front end asks the back end to run.
#[derive(Clone, Debug, PartialEq, Eq)]
pub enum ArenaMethod {
    SearchItems {
        number: Option<String>,
        name: Option<String>,
        description: Option<String>,
        category_guid: Option<String>,
        lifecycle_phase_guid: Option<String>,
        offset: Option<i64>,
        limit: Option<i64>,
    },
    GetItem { guid: String },
    GetBom { guid: String },
    GetWhereUsed { guid: String },
    SearchChanges {
        number: Option<String>,
        title: Option<String>,
        lifecycle_status: Option<String>,
        implementation_status: Option<String>,
        offset: Option<i64>,
        limit: Option<i64>,
    },
    GetChange { guid: String },
    GetChangeAffectedItems { guid: String },
    GetItemFiles { guid: String },
    GetItemRevisions { guid: String },
    GetLifecyclePhases,
    GetItemCategories,
}

/// The request budget that the agent reports.
#[derive(Clone, Debug, PartialEq, Eq)]
pub struct RateLimitInfo {
    pub requests_remaining: u32,
    pub request_limit: u32,
    pub reset_time: Option<String>,
}

/// The answer to an [`ArenaMethod`]: the JSON text of the response, or an error message.
#[derive(Clone, Debug, PartialEq, Eq)]
pub enum ArenaResult {
    Success { json: String },
    Error { message: String },
}

/// What the front end asks of the back end.
#[derive(Clone, Debug, PartialEq, Eq)]
pub enum FrontendCommand {
    Ready,
    SendPrompt { prompt: String, session_id: Option<String>, model: Option<String> },
    CancelRequest,
    Login {
        email: String,
        password: String,
        workspace_id: Option<String>,
        base_url: Option<String>,
    },
    Logout,
    ArenaRequest { request_id: u32, method: ArenaMethod },
    DownloadFile { request_id: u32, item_guid: String, file_guid: String, file_name: String },
    SetWriteMode { enabled: bool },
    ReadLogs,
    ResetLogs,
    OpenLogFile,
}

/// What the agent is doing.
#[derive(Clone, Debug, PartialEq, Eq)]
pub enum AgentStatus {
    Idle,
    Thinking,
    Streaming,
    UsingTool { tool_name: String },
}

/// What the back end tells the front end. `C` is the type of the cost that the agent reports
/// in US dollars (a floating-point number in the running program); nothing here computes
/// with it.
#[derive(Clone, Debug, PartialEq)]
pub enum BackendEvent<C> {
    Connected,
    StreamingStarted { session_id: String },
    TextDelta { text: String },
    ThinkingDelta { text: String },
    ToolUseStarted { tool_name: String, tool_id: String },
    ToolUseInputDelta { tool_id: String, partial_json: String },
    ToolUseFinished { tool_id: String },
    TurnComplete { session_id: String },
    RequestComplete { session_id: String, total_cost_usd: Option<C>, num_turns: u32 },
    Error { message: String },
    StatusUpdate { status: AgentStatus },
    LoginSuccess { workspace_name: Option<String> },
    LoginFailure { message: String },
    ArenaResponse { request_id: u32, result: ArenaResult },
    FileContent { request_id: u32, file_name: String, data_base64: String, mime_type: String },
    FileError { request_id: u32, message: String },
    WriteModeChanged { enabled: bool },
    LogContent { text: String, append: bool },
    RateLimitUpdate { info: RateLimitInfo },
}

/// The value that an [`ArenaResult`] stands for.
pub open spec fn arena_outcome(result: ArenaResult) -> Result<String, String> {
    match result {
        ArenaResult::Success { json } => Ok(json),
        ArenaResult::Error { message } => Err(message),
    }
}

/// The [`ArenaResult`] that carries `outcome`.
pub open spec fn arena_result_spec(outcome: Result<String, String>) -> ArenaResult {
    match outcome {
        Ok(json) => ArenaResult::Success { json },
        Err(message) => ArenaResult::Error { message },
    }
}

impl ArenaResult {
    /// Wraps the outcome of a query for the trip to the front end.
    pub fn from_outcome(outcome: Result<String, String>) -> (res: ArenaResult)
        ensures
            res == arena_result_spec(outcome),
            arena_outcome(res) == outcome,
    {
        match outcome {
            Ok(json) => ArenaResult::Success { json },
            Err(message) => ArenaResult::Error { message },
        }
    }

    /// The outcome that the front end hands to the caller that waits for it.
    pub fn into_outcome(self) -> (res: Result<String, String>)
        ensures
            res == arena_outcome(self),
            arena_result_spec(res) == self,
    {
        match self {
            ArenaResult::Success { json } => Ok(json),
            ArenaResult::Error { message } => Err(message),
        }
    }
}

/// Carrying an outcome to the front end and back loses nothing, and neither does the
/// reverse trip.
pub proof fn law_arena_result_round_trip(outcome: Result<String, String>, result: ArenaResult)
    ensures
        arena_outcome(arena_result_spec(outcome)) == outcome,
        arena_result_spec(arena_outcome(result)) == result,
{
}

} // verus!
