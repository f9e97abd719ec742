//! The state of the web front end and what each event of the back end does to it.

use vstd::prelude::*;

use crate::page;
use crate::protocol::{AgentStatus, BackendEvent, FrontendCommand, RateLimitInfo};
use crate::registry::{
    resolve_arena, resolve_file_error, resolve_file_success, FileData, PendingRequests,
};
use crate::request::{concat2, owned};
use crate::text::{byte_len, byte_length, char_index_of_byte, char_index_of_byte_exec, chars_of, string_of};
use crate::text::{is_blank, is_blank_str, str_eq};

verus! {

/// What the status line shows of the agent.
#[derive(Clone, Debug, PartialEq, Eq)]
pub enum StatusDisplay {
    Disconnected,
    Idle,
    Thinking,
    Streaming,
    UsingTool { tool_name: String },
}

impl StatusDisplay {
    /// The words of the status line.
    pub fn label(&self) -> (res: &'static str)
        ensures
            res@ == match self {
                StatusDisplay::Disconnected => "Disconnected"@,
                StatusDisplay::Idle => "Ready"@,
                StatusDisplay::Thinking => "Thinking..."@,
                StatusDisplay::Streaming => "Streaming..."@,
                StatusDisplay::UsingTool { .. } => "Using tool..."@,
            },
    {
        match self {
            StatusDisplay::Disconnected => "Disconnected",
            StatusDisplay::Idle => "Ready",
            StatusDisplay::Thinking => "Thinking...",
            StatusDisplay::Streaming => "Streaming...",
            StatusDisplay::UsingTool { .. } => "Using tool...",
        }
    }

    /// The CSS class of the status dot.
    pub fn dot_class(&self) -> (res: &'static str)
        ensures
            res@ == match self {
                StatusDisplay::Disconnected => "bg-red-500"@,
                StatusDisplay::Idle => "bg-green-500"@,
                StatusDisplay::Thinking => "bg-yellow-500"@,
                StatusDisplay::Streaming => "bg-blue-500"@,
                StatusDisplay::UsingTool { .. } => "bg-purple-500"@,
            },
    {
        match self {
            StatusDisplay::Disconnected => "bg-red-500",
            StatusDisplay::Idle => "bg-green-500",
            StatusDisplay::Thinking => "bg-yellow-500",
            StatusDisplay::Streaming => "bg-blue-500",
            StatusDisplay::UsingTool { .. } => "bg-purple-500",
        }
    }

    /// What follows the label: ` ({tool_name})` while a tool runs, nothing otherwise.
    pub fn detail(&self) -> (res: String)
        ensures
            res@ == match self {
                StatusDisplay::UsingTool { tool_name } => " ("@ + tool_name@ + ")"@,
                _ => Seq::<char>::empty(),
            },
    {
        match self {
            StatusDisplay::UsingTool { tool_name } => {
                let mut s = concat2(" (", tool_name.as_str());
                s.append(")");
                s
            },
            _ => String::new(),
        }
    }
}

/// The status line's view of what the back end reports of the agent.
pub open spec fn status_of(status: AgentStatus) -> StatusDisplay {
    match status {
        AgentStatus::Idle => StatusDisplay::Idle,
        AgentStatus::Thinking => StatusDisplay::Thinking,
        AgentStatus::Streaming => StatusDisplay::Streaming,
        AgentStatus::UsingTool { tool_name } => StatusDisplay::UsingTool { tool_name },
    }
}

/// The status line's view of a status report.
pub fn display_status(status: AgentStatus) -> (res: StatusDisplay)
    ensures
        res == status_of(status),
{
    match status {
        AgentStatus::Idle => StatusDisplay::Idle,
        AgentStatus::Thinking => StatusDisplay::Thinking,
        AgentStatus::Streaming => StatusDisplay::Streaming,
        AgentStatus::UsingTool { tool_name } => StatusDisplay::UsingTool { tool_name },
    }
}

/// Each status the back end reports is shown as the display of the same name (a tool in use
/// with its tool's name); only an idle agent leaves the front end free for the next prompt,
/// and no report shows the agent as disconnected.
pub proof fn law_status_display_same_name(status: AgentStatus)
    ensures
        (status is Idle) <==> (status_of(status) is Idle),
        (status is Thinking) <==> (status_of(status) is Thinking),
        (status is Streaming) <==> (status_of(status) is Streaming),
        (status is UsingTool) <==> (status_of(status) is UsingTool),
        status matches AgentStatus::UsingTool { tool_name } ==> status_of(status) == (StatusDisplay::UsingTool {
            tool_name,
        }),
        !busy(status_of(status)) <==> (status is Idle),
        !(status_of(status) is Disconnected),
{
}

/// Who wrote a chat message.
#[derive(Clone, Copy, Debug, PartialEq, Eq, Structural)]
pub enum MessageRole {
    User,
    Assistant,
}

/// A tool call of the agent as the chat shows it.
#[derive(Clone, Debug, PartialEq, Eq)]
pub struct ToolUseBlock {
    pub tool_name: String,
    pub tool_id: String,
    pub input_json: String,
    pub finished: bool,
}

/// A message of the chat.
#[derive(Clone, Debug, PartialEq, Eq)]
pub struct ChatMessage {
    pub role: MessageRole,
    pub content: String,
    pub thinking: String,
    pub tool_uses: Vec<ToolUseBlock>,
}

/// The chat: the finished messages, the answer being streamed (text, thinking and tool
/// calls) and the prompt being typed.
#[derive(Clone, Debug, PartialEq, Eq)]
pub struct ChatState {
    pub messages: Vec<ChatMessage>,
    pub streaming_text: String,
    pub thinking_text: String,
    pub active_tools: Vec<ToolUseBlock>,
    pub input_text: String,
}

/// The message that an answer becomes when it is finished, if it has anything in it.
pub open spec fn finished_answer(chat: ChatState) -> Seq<ChatMessage> {
    if chat.streaming_text@.len() > 0 || chat.thinking_text@.len() > 0 || chat.active_tools@.len() > 0 {
        seq![
            ChatMessage {
                role: MessageRole::Assistant,
                content: chat.streaming_text,
                thinking: chat.thinking_text,
                tool_uses: chat.active_tools,
            },
        ]
    } else {
        seq![]
    }
}

/// `after` is `before` with the streamed answer moved into the messages (when it has
/// anything in it) and the stream emptied; the prompt being typed stays.
pub open spec fn finalized(before: ChatState, after: ChatState) -> bool {
    &&& after.messages@ == before.messages@ + finished_answer(before)
    &&& after.streaming_text@.len() == 0
    &&& after.thinking_text@.len() == 0
    &&& after.active_tools@.len() == 0
    &&& after.input_text == before.input_text
}

impl ChatState {
    /// An empty chat.
    pub fn new() -> (res: ChatState)
        ensures
            res.messages@.len() == 0,
            res.streaming_text@.len() == 0,
            res.thinking_text@.len() == 0,
            res.active_tools@.len() == 0,
            res.input_text@.len() == 0,
    {
        ChatState {
            messages: Vec::new(),
            streaming_text: String::new(),
            thinking_text: String::new(),
            active_tools: Vec::new(),
            input_text: String::new(),
        }
    }

    /// Ends the streamed answer: it becomes a message of the assistant if it has any text,
    /// thinking or tool call, and the stream starts empty again.
    pub fn finalize(&mut self)
        ensures
            finalized(*old(self), *final(self)),
    {
        let mut text = String::new();
        std::mem::swap(&mut text, &mut self.streaming_text);
        let mut thinking = String::new();
        std::mem::swap(&mut thinking, &mut self.thinking_text);
        let mut tools: Vec<ToolUseBlock> = Vec::new();
        std::mem::swap(&mut tools, &mut self.active_tools);
        if !text.as_str().is_empty() || !thinking.as_str().is_empty() || tools.len() > 0 {
            self.messages.push(
                ChatMessage {
                    role: MessageRole::Assistant,
                    content: text,
                    thinking,
                    tool_uses: tools,
                },
            );
        }
        assert(self.messages@ =~= old(self).messages@ + finished_answer(*old(self)));
    }
}

/// The state of the whole front end besides the chat.
#[derive(Clone, Debug, PartialEq, Eq)]
pub struct AppState {
    pub view: page::View,
    pub status: StatusDisplay,
    pub logged_in: bool,
    pub write_mode: bool,
    pub session_id: Option<String>,
    pub log_content: String,
    pub rate_limit: Option<RateLimitInfo>,
}

impl AppState {
    /// The front end at start: the chat page, not connected, not signed in.
    pub fn new() -> (res: AppState)
        ensures
            res.view == page::View::Chat,
            res.status == StatusDisplay::Disconnected,
            !res.logged_in,
            !res.write_mode,
            res.session_id is None,
            res.log_content@.len() == 0,
            res.rate_limit is None,
    {
        AppState {
            view: page::View::Chat,
            status: StatusDisplay::Disconnected,
            logged_in: false,
            write_mode: false,
            session_id: None,
            log_content: String::new(),
            rate_limit: None,
        }
    }
}

/// The login form's state: the last error and whether a login is under way.
#[derive(Clone, Debug, PartialEq, Eq)]
pub struct LoginState {
    pub error: Option<String>,
    pub loading: bool,
}

impl LoginState {
    /// No error, nothing under way.
    pub fn new() -> (res: LoginState)
        ensures
            res.error is None,
            !res.loading,
    {
        LoginState { error: None, loading: false }
    }
}

/// A search that the user kept: its label, the page it belongs to and its text.
#[derive(Clone, Debug, PartialEq, Eq)]
pub struct SavedSearch {
    pub label: String,
    pub view: String,
    pub query: String,
}

/// `tool` is the one that an update for `id` is about: the same id, or any tool when the
/// update carries no id.
pub open spec fn tool_matches(tool: ToolUseBlock, id: Seq<char>) -> bool {
    tool.tool_id@ == id || id.len() == 0
}

/// The last tool call that an update for `id` is about, if any.
pub open spec fn last_matching_tool(tools: Seq<ToolUseBlock>, id: Seq<char>) -> Option<int>
    decreases tools.len(),
{
    if tools.len() == 0 {
        None
    } else if tool_matches(tools.last(), id) {
        Some(tools.len() - 1)
    } else {
        last_matching_tool(tools.drop_last(), id)
    }
}

/// The index of the last tool call that an update for `id` is about.
fn find_last_tool(tools: &Vec<ToolUseBlock>, id: &str) -> (res: Option<usize>)
    ensures
        match res {
            Some(i) => last_matching_tool(tools@, id@) == Some(i as int) && i < tools@.len(),
            None => last_matching_tool(tools@, id@) is None,
        },
{
    let any = id.is_empty();
    let mut i = tools.len();
    assert(tools@.take(i as int) =~= tools@);
    while i > 0
        invariant
            i <= tools@.len(),
            any == (id@.len() == 0),
            last_matching_tool(tools@, id@) == last_matching_tool(tools@.take(i as int), id@),
        decreases i,
    {
        let t = &tools[i - 1];
        assert(tools@.take(i as int).last() == tools@[i - 1]);
        if any || str_eq(t.tool_id.as_str(), id) {
            return Some(i - 1);
        }
        assert(tools@.take(i as int).drop_last() =~= tools@.take(i - 1));
        i = i - 1;
    }
    None
}

/// `after` is `before` with `partial` added to the input of the last tool call that an
/// update for `id` is about; unchanged when there is none.
pub open spec fn input_added(
    before: Seq<ToolUseBlock>,
    after: Seq<ToolUseBlock>,
    id: Seq<char>,
    partial: Seq<char>,
) -> bool {
    match last_matching_tool(before, id) {
        None => after == before,
        Some(i) => {
            &&& after.len() == before.len()
            &&& forall|j: int| 0 <= j < before.len() && j != i ==> after[j] == before[j]
            &&& after[i].tool_name == before[i].tool_name
            &&& after[i].tool_id == before[i].tool_id
            &&& after[i].finished == before[i].finished
            &&& after[i].input_json@ == before[i].input_json@ + partial
        },
    }
}

/// `after` is `before` with the last tool call that an update for `id` is about marked
/// finished; unchanged when there is none.
pub open spec fn tool_finished(before: Seq<ToolUseBlock>, after: Seq<ToolUseBlock>, id: Seq<char>) -> bool {
    match last_matching_tool(before, id) {
        None => after == before,
        Some(i) => after == before.update(i, ToolUseBlock { finished: true, ..before[i] }),
    }
}

/// Adds `partial` to the input of the tool call at `i`.
fn add_tool_input(tools: &mut Vec<ToolUseBlock>, i: usize, partial: &str)
    requires
        i < old(tools)@.len(),
    ensures
        final(tools)@.len() == old(tools)@.len(),
        forall|j: int| 0 <= j < old(tools)@.len() && j != i ==> final(tools)@[j] == old(tools)@[j],
        final(tools)@[i as int].tool_name == old(tools)@[i as int].tool_name,
        final(tools)@[i as int].tool_id == old(tools)@[i as int].tool_id,
        final(tools)@[i as int].finished == old(tools)@[i as int].finished,
        final(tools)@[i as int].input_json@ == old(tools)@[i as int].input_json@ + partial@,
{
    let t = &tools[i];
    let mut input_json = t.input_json.clone();
    input_json.append(partial);
    let updated = ToolUseBlock {
        tool_name: t.tool_name.clone(),
        tool_id: t.tool_id.clone(),
        input_json,
        finished: t.finished,
    };
    tools.set(i, updated);
}

/// Marks the tool call at `i` finished.
fn finish_tool(tools: &mut Vec<ToolUseBlock>, i: usize)
    requires
        i < old(tools)@.len(),
    ensures
        final(tools)@ == old(tools)@.update(
            i as int,
            ToolUseBlock { finished: true, ..old(tools)@[i as int] },
        ),
{
    let t = &tools[i];
    let updated = ToolUseBlock {
        tool_name: t.tool_name.clone(),
        tool_id: t.tool_id.clone(),
        input_json: t.input_json.clone(),
        finished: true,
    };
    tools.set(i, updated);
}

/// What an event of the back end hands to a caller that waits for it.
pub enum Delivery<A, F> {
    /// Nobody waits for this event.
    Nothing,
    /// The answer to an Arena query, for its waiter.
    Query { waiter: A, outcome: Result<String, String> },
    /// The answer to a download, for its waiter.
    Download { waiter: F, outcome: Result<FileData, String> },
}

/// `after` differs from `before` at most in the text being streamed, which grew by `text`.
pub open spec fn streamed(before: ChatState, after: ChatState, text: Seq<char>) -> bool {
    &&& after.streaming_text@ == before.streaming_text@ + text
    &&& after.messages == before.messages
    &&& after.thinking_text == before.thinking_text
    &&& after.active_tools == before.active_tools
    &&& after.input_text == before.input_text
}

/// `after` differs from `before` at most in the thinking being streamed, which grew by `text`.
pub open spec fn thought(before: ChatState, after: ChatState, text: Seq<char>) -> bool {
    &&& after.thinking_text@ == before.thinking_text@ + text
    &&& after.messages == before.messages
    &&& after.streaming_text == before.streaming_text
    &&& after.active_tools == before.active_tools
    &&& after.input_text == before.input_text
}

/// `after` differs from `before` in its tool calls only, as `tools_changed` says.
pub open spec fn only_tools_changed(before: ChatState, after: ChatState) -> bool {
    &&& after.messages == before.messages
    &&& after.streaming_text == before.streaming_text
    &&& after.thinking_text == before.thinking_text
    &&& after.input_text == before.input_text
}

/// `after` is the chat after the error `message`: the streamed answer finished, then a
/// message of the assistant that reads `Error: {message}`.
pub open spec fn failed_with(before: ChatState, after: ChatState, message: Seq<char>) -> bool {
    let done = before.messages@ + finished_answer(before);
    &&& after.messages@.len() == done.len() + 1
    &&& after.messages@.take(done.len() as int) == done
    &&& after.messages@.last().role == MessageRole::Assistant
    &&& after.messages@.last().content@ == "Error: "@ + message
    &&& after.messages@.last().thinking@.len() == 0
    &&& after.messages@.last().tool_uses@.len() == 0
    &&& after.streaming_text@.len() == 0
    &&& after.thinking_text@.len() == 0
    &&& after.active_tools@.len() == 0
    &&& after.input_text == before.input_text
}

/// What the front end does with an event of the back end: the new state of the page, the
/// chat, the login form and the table of waiting requests, and the answer that goes to a
/// waiting caller.
pub fn apply_event<C, A, F>(
    app: &mut AppState,
    chat: &mut ChatState,
    login: &mut LoginState,
    pending: &mut PendingRequests<A, F>,
    event: BackendEvent<C>,
) -> (res: Delivery<A, F>)
    ensures
        // only the answers to requests touch the table of waiting requests, and only they
        // reach a caller
        !(event is ArenaResponse || event is FileContent || event is FileError) ==> {
            &&& *final(pending) == *old(pending)
            &&& res is Nothing
        },
        match event {
            BackendEvent::Connected => {
                &&& *final(app) == (AppState { status: StatusDisplay::Idle, ..*old(app) })
                &&& *final(chat) == *old(chat)
                &&& *final(login) == *old(login)
            },
            BackendEvent::LoginSuccess { .. } => {
                &&& *final(app) == (AppState { logged_in: true, status: StatusDisplay::Idle, ..*old(app) })
                &&& *final(chat) == *old(chat)
                &&& *final(login) == (LoginState { error: None, loading: false })
            },
            BackendEvent::LoginFailure { message } => {
                &&& *final(app) == *old(app)
                &&& *final(chat) == *old(chat)
                &&& *final(login) == (LoginState { error: Some(message), loading: false })
            },
            BackendEvent::StreamingStarted { session_id } => {
                &&& *final(app) == (AppState { session_id: Some(session_id), ..*old(app) })
                &&& final(chat).messages == old(chat).messages
                &&& final(chat).streaming_text@.len() == 0
                &&& final(chat).thinking_text@.len() == 0
                &&& final(chat).active_tools@.len() == 0
                &&& final(chat).input_text == old(chat).input_text
                &&& *final(login) == *old(login)
            },
            BackendEvent::TextDelta { text } => {
                &&& *final(app) == *old(app)
                &&& streamed(*old(chat), *final(chat), text@)
                &&& *final(login) == *old(login)
            },
            BackendEvent::ThinkingDelta { text } => {
                &&& *final(app) == *old(app)
                &&& thought(*old(chat), *final(chat), text@)
                &&& *final(login) == *old(login)
            },
            BackendEvent::ToolUseStarted { tool_name, tool_id } => {
                &&& *final(app) == *old(app)
                &&& only_tools_changed(*old(chat), *final(chat))
                &&& final(chat).active_tools@.len() == old(chat).active_tools@.len() + 1
                &&& final(chat).active_tools@.drop_last() == old(chat).active_tools@
                &&& final(chat).active_tools@.last().tool_name == tool_name
                &&& final(chat).active_tools@.last().tool_id == tool_id
                &&& final(chat).active_tools@.last().input_json@.len() == 0
                &&& !final(chat).active_tools@.last().finished
                &&& *final(login) == *old(login)
            },
            BackendEvent::ToolUseInputDelta { tool_id, partial_json } => {
                &&& *final(app) == *old(app)
                &&& only_tools_changed(*old(chat), *final(chat))
                &&& input_added(old(chat).active_tools@, final(chat).active_tools@, tool_id@, partial_json@)
                &&& *final(login) == *old(login)
            },
            BackendEvent::ToolUseFinished { tool_id } => {
                &&& *final(app) == *old(app)
                &&& only_tools_changed(*old(chat), *final(chat))
                &&& tool_finished(old(chat).active_tools@, final(chat).active_tools@, tool_id@)
                &&& *final(login) == *old(login)
            },
            BackendEvent::TurnComplete { .. } => {
                &&& *final(app) == *old(app)
                &&& *final(chat) == *old(chat)
                &&& *final(login) == *old(login)
            },
            BackendEvent::RequestComplete { .. } => {
                &&& *final(app) == *old(app)
                &&& finalized(*old(chat), *final(chat))
                &&& *final(login) == *old(login)
            },
            BackendEvent::Error { message } => {
                &&& *final(app) == *old(app)
                &&& failed_with(*old(chat), *final(chat), message@)
                &&& *final(login) == *old(login)
            },
            BackendEvent::StatusUpdate { status } => {
                &&& *final(app) == (AppState { status: status_of(status), ..*old(app) })
                &&& *final(chat) == *old(chat)
                &&& *final(login) == *old(login)
            },
            BackendEvent::ArenaResponse { request_id, result } => {
                &&& *final(app) == *old(app)
                &&& *final(chat) == *old(chat)
                &&& *final(login) == *old(login)
                &&& final(pending).arena_waiters() == old(pending).arena_waiters().remove(request_id)
                &&& final(pending).file_waiters() == old(pending).file_waiters()
                &&& final(pending).next() == old(pending).next()
                &&& match res {
                    Delivery::Query { waiter, outcome } => {
                        &&& old(pending).arena_waiters().contains_key(request_id)
                        &&& waiter == old(pending).arena_waiters()[request_id]
                        &&& outcome == crate::protocol::arena_outcome(result)
                    },
                    Delivery::Nothing => !old(pending).arena_waiters().contains_key(request_id),
                    Delivery::Download { .. } => false,
                }
            },
            BackendEvent::FileContent { request_id, file_name, data_base64, mime_type } => {
                &&& *final(app) == *old(app)
                &&& *final(chat) == *old(chat)
                &&& *final(login) == *old(login)
                &&& final(pending).file_waiters() == old(pending).file_waiters().remove(request_id)
                &&& final(pending).arena_waiters() == old(pending).arena_waiters()
                &&& final(pending).next() == old(pending).next()
                &&& match res {
                    Delivery::Download { waiter, outcome } => {
                        &&& old(pending).file_waiters().contains_key(request_id)
                        &&& waiter == old(pending).file_waiters()[request_id]
                        &&& outcome == Ok::<FileData, String>(FileData { file_name, data_base64, mime_type })
                    },
                    Delivery::Nothing => !old(pending).file_waiters().contains_key(request_id),
                    Delivery::Query { .. } => false,
                }
            },
            BackendEvent::FileError { request_id, message } => {
                &&& *final(app) == *old(app)
                &&& *final(chat) == *old(chat)
                &&& *final(login) == *old(login)
                &&& final(pending).file_waiters() == old(pending).file_waiters().remove(request_id)
                &&& final(pending).arena_waiters() == old(pending).arena_waiters()
                &&& final(pending).next() == old(pending).next()
                &&& match res {
                    Delivery::Download { waiter, outcome } => {
                        &&& old(pending).file_waiters().contains_key(request_id)
                        &&& waiter == old(pending).file_waiters()[request_id]
                        &&& outcome == Err::<FileData, String>(message)
                    },
                    Delivery::Nothing => !old(pending).file_waiters().contains_key(request_id),
                    Delivery::Query { .. } => false,
                }
            },
            BackendEvent::WriteModeChanged { enabled } => {
                &&& *final(app) == (AppState { write_mode: enabled, ..*old(app) })
                &&& *final(chat) == *old(chat)
                &&& *final(login) == *old(login)
            },
            BackendEvent::LogContent { text, append } => {
                &&& final(app).log_content@ == if append {
                    old(app).log_content@ + text@
                } else {
                    text@
                }
                &&& final(app).view == old(app).view
                &&& final(app).status == old(app).status
                &&& final(app).logged_in == old(app).logged_in
                &&& final(app).write_mode == old(app).write_mode
                &&& final(app).session_id == old(app).session_id
                &&& final(app).rate_limit == old(app).rate_limit
                &&& *final(chat) == *old(chat)
                &&& *final(login) == *old(login)
            },
            BackendEvent::RateLimitUpdate { info } => {
                &&& *final(app) == (AppState { rate_limit: Some(info), ..*old(app) })
                &&& *final(chat) == *old(chat)
                &&& *final(login) == *old(login)
            },
        },
{
    match event {
        BackendEvent::Connected => {
            app.status = StatusDisplay::Idle;
            Delivery::Nothing
        },
        BackendEvent::LoginSuccess { .. } => {
            app.logged_in = true;
            app.status = StatusDisplay::Idle;
            login.loading = false;
            login.error = None;
            Delivery::Nothing
        },
        BackendEvent::LoginFailure { message } => {
            login.loading = false;
            login.error = Some(message);
            Delivery::Nothing
        },
        BackendEvent::StreamingStarted { session_id } => {
            app.session_id = Some(session_id);
            chat.streaming_text = String::new();
            chat.thinking_text = String::new();
            chat.active_tools = Vec::new();
            Delivery::Nothing
        },
        BackendEvent::TextDelta { text } => {
            chat.streaming_text.append(text.as_str());
            Delivery::Nothing
        },
        BackendEvent::ThinkingDelta { text } => {
            chat.thinking_text.append(text.as_str());
            Delivery::Nothing
        },
        BackendEvent::ToolUseStarted { tool_name, tool_id } => {
            chat.active_tools.push(
                ToolUseBlock { tool_name, tool_id, input_json: String::new(), finished: false },
            );
            Delivery::Nothing
        },
        BackendEvent::ToolUseInputDelta { tool_id, partial_json } => {
            match find_last_tool(&chat.active_tools, tool_id.as_str()) {
                Some(i) => add_tool_input(&mut chat.active_tools, i, partial_json.as_str()),
                None => {},
            }
            Delivery::Nothing
        },
        BackendEvent::ToolUseFinished { tool_id } => {
            match find_last_tool(&chat.active_tools, tool_id.as_str()) {
                Some(i) => finish_tool(&mut chat.active_tools, i),
                None => {},
            }
            Delivery::Nothing
        },
        BackendEvent::TurnComplete { .. } => Delivery::Nothing,
        BackendEvent::RequestComplete { .. } => {
            chat.finalize();
            Delivery::Nothing
        },
        BackendEvent::Error { message } => {
            chat.finalize();
            let ghost done = chat.messages@;
            chat.messages.push(
                ChatMessage {
                    role: MessageRole::Assistant,
                    content: concat2("Error: ", message.as_str()),
                    thinking: String::new(),
                    tool_uses: Vec::new(),
                },
            );
            assert(chat.messages@.take(done.len() as int) =~= done);
            Delivery::Nothing
        },
        BackendEvent::StatusUpdate { status } => {
            app.status = display_status(status);
            Delivery::Nothing
        },
        BackendEvent::ArenaResponse { request_id, result } => {
            match resolve_arena(pending, request_id, result) {
                Some((waiter, outcome)) => Delivery::Query { waiter, outcome },
                None => Delivery::Nothing,
            }
        },
        BackendEvent::FileContent { request_id, file_name, data_base64, mime_type } => {
            match resolve_file_success(pending, request_id, file_name, data_base64, mime_type) {
                Some((waiter, outcome)) => Delivery::Download { waiter, outcome },
                None => Delivery::Nothing,
            }
        },
        BackendEvent::FileError { request_id, message } => {
            match resolve_file_error(pending, request_id, message) {
                Some((waiter, outcome)) => Delivery::Download { waiter, outcome },
                None => Delivery::Nothing,
            }
        },
        BackendEvent::WriteModeChanged { enabled } => {
            app.write_mode = enabled;
            Delivery::Nothing
        },
        BackendEvent::LogContent { text, append } => {
            if append {
                app.log_content.append(text.as_str());
            } else {
                app.log_content = text;
            }
            Delivery::Nothing
        },
        BackendEvent::RateLimitUpdate { info } => {
            app.rate_limit = Some(info);
            Delivery::Nothing
        },
    }
}

/// The agent is at work: neither idle nor disconnected.
pub open spec fn busy(status: StatusDisplay) -> bool {
    !(status is Idle || status is Disconnected)
}

/// Whether the agent is at work, which disables sending and enables cancelling.
pub fn is_busy(status: &StatusDisplay) -> (res: bool)
    ensures
        res == busy(*status),
{
    match status {
        StatusDisplay::Idle | StatusDisplay::Disconnected => false,
        _ => true,
    }
}

/// Whether the prompt being typed can be sent: it is not blank and the agent is not at work.
pub fn can_send(input: &str, status: &StatusDisplay) -> (res: bool)
    ensures
        res == (!is_blank(input@) && !busy(*status)),
{
    !is_blank_str(input) && !is_busy(status)
}

/// Sends the prompt being typed: unless it is blank, it becomes a message of the user, the
/// input is cleared, and the command that asks the agent (in `session_id`, with the default
/// model) is returned. A blank prompt changes nothing.
pub fn send_prompt(chat: &mut ChatState, session_id: Option<String>) -> (res: Option<FrontendCommand>)
    ensures
        is_blank(old(chat).input_text@) ==> res is None && *final(chat) == *old(chat),
        !is_blank(old(chat).input_text@) ==> {
            &&& res == Some(FrontendCommand::SendPrompt {
                prompt: old(chat).input_text,
                session_id,
                model: None,
            })
            &&& final(chat).messages@.len() == old(chat).messages@.len() + 1
            &&& final(chat).messages@.drop_last() == old(chat).messages@
            &&& final(chat).messages@.last().role == MessageRole::User
            &&& final(chat).messages@.last().content == old(chat).input_text
            &&& final(chat).messages@.last().thinking@.len() == 0
            &&& final(chat).messages@.last().tool_uses@.len() == 0
            &&& final(chat).input_text@.len() == 0
            &&& final(chat).streaming_text == old(chat).streaming_text
            &&& final(chat).thinking_text == old(chat).thinking_text
            &&& final(chat).active_tools == old(chat).active_tools
        },
{
    if is_blank_str(chat.input_text.as_str()) {
        return None;
    }
    let mut text = String::new();
    std::mem::swap(&mut text, &mut chat.input_text);
    chat.messages.push(
        ChatMessage {
            role: MessageRole::User,
            content: text.clone(),
            thinking: String::new(),
            tool_uses: Vec::new(),
        },
    );
    assert(chat.messages@.drop_last() =~= old(chat).messages@);
    Some(FrontendCommand::SendPrompt { prompt: text, session_id, model: None })
}

/// Whether the chat shows its invitation: no message, nothing streamed, and the agent not
/// thinking.
pub fn shows_invitation(chat: &ChatState, status: &StatusDisplay) -> (res: bool)
    ensures
        res == (chat.messages@.len() == 0 && chat.streaming_text@.len() == 0
            && chat.thinking_text@.len() == 0 && !(*status is Thinking)),
{
    chat.messages.len() == 0 && chat.streaming_text.as_str().is_empty()
        && chat.thinking_text.as_str().is_empty() && !(match status {
        StatusDisplay::Thinking => true,
        _ => false,
    })
}

/// Whether the chat shows the answer being streamed: it has text, thinking or tool calls,
/// or the agent is thinking.
pub fn shows_stream(chat: &ChatState, status: &StatusDisplay) -> (res: bool)
    ensures
        res == (chat.streaming_text@.len() > 0 || chat.active_tools@.len() > 0
            || chat.thinking_text@.len() > 0 || *status is Thinking),
{
    !chat.streaming_text.as_str().is_empty() || chat.active_tools.len() > 0
        || !chat.thinking_text.as_str().is_empty() || match status {
        StatusDisplay::Thinking => true,
        _ => false,
    }
}

/// Whether the login form can be sent: email and password are not blank and no login is
/// under way.
pub fn can_submit(email: &str, password: &str, login: &LoginState) -> (res: bool)
    ensures
        res == (!is_blank(email@) && !is_blank(password@) && !login.loading),
{
    !is_blank_str(email) && !is_blank_str(password) && !login.loading
}

/// An optional field of the login form: left out when blank, sent as typed otherwise.
pub open spec fn optional_field(s: String) -> Option<String> {
    if is_blank(s@) {
        None
    } else {
        Some(s)
    }
}

/// Sends the login form: when it can be sent, the login is marked under way, the last error
/// is cleared, and the login command is returned (blank optional fields left out). Otherwise
/// nothing changes.
pub fn submit_login(
    login: &mut LoginState,
    email: String,
    password: String,
    workspace_id: String,
    base_url: String,
) -> (res: Option<FrontendCommand>)
    ensures
        !(!is_blank(email@) && !is_blank(password@) && !old(login).loading) ==> res is None
            && *final(login) == *old(login),
        (!is_blank(email@) && !is_blank(password@) && !old(login).loading) ==> {
            &&& *final(login) == (LoginState { error: None, loading: true })
            &&& res == Some(FrontendCommand::Login {
                email,
                password,
                workspace_id: optional_field(workspace_id),
                base_url: optional_field(base_url),
            })
        },
{
    if !can_submit(email.as_str(), password.as_str(), login) {
        return None;
    }
    login.loading = true;
    login.error = None;
    let workspace_id = if is_blank_str(workspace_id.as_str()) {
        None
    } else {
        Some(workspace_id)
    };
    let base_url = if is_blank_str(base_url.as_str()) {
        None
    } else {
        Some(base_url)
    };
    Some(FrontendCommand::Login { email, password, workspace_id, base_url })
}

/// The label of the login button.
pub fn sign_in_label(login: &LoginState) -> (res: &'static str)
    ensures
        res@ == if login.loading {
            "Signing in..."@
        } else {
            "Sign In"@
        },
{
    if login.loading {
        "Signing in..."
    } else {
        "Sign In"
    }
}

/// The command that turns write mode over.
pub fn toggle_write_mode(app: &AppState) -> (res: FrontendCommand)
    ensures
        res == (FrontendCommand::SetWriteMode { enabled: !app.write_mode }),
{
    FrontendCommand::SetWriteMode { enabled: !app.write_mode }
}

/// Signs out: the page shows the login form again, the rate limit is forgotten, and the
/// back end is told.
pub fn sign_out(app: &mut AppState) -> (res: FrontendCommand)
    ensures
        *final(app) == (AppState { logged_in: false, rate_limit: None, ..*old(app) }),
        res == FrontendCommand::Logout,
{
    app.logged_in = false;
    app.rate_limit = None;
    FrontendCommand::Logout
}

/// Deletes the saved search at `index`; an index past the end changes nothing.
pub fn delete_search(searches: &mut Vec<SavedSearch>, index: usize)
    ensures
        index < old(searches)@.len() ==> final(searches)@ == old(searches)@.remove(index as int),
        index >= old(searches)@.len() ==> final(searches)@ == old(searches)@,
{
    if index < searches.len() {
        let _removed = searches.remove(index);
    }
}

/// How the sidebar shows a session: the id, or its first 16 bytes and `...` when it is
/// longer. Byte 16 must then start a character, as std's slicing demands.
pub fn session_label(id: &str) -> (res: String)
    requires
        byte_len(id@) > 16 ==> char_index_of_byte(id@, 16) is Some,
    ensures
        byte_len(id@) <= 16 ==> res@ == id@,
        byte_len(id@) > 16 ==> res@ == id@.take(char_index_of_byte(id@, 16)->0) + "..."@,
{
    let chars = chars_of(id);
    let total = byte_length(chars.as_slice());
    if total <= 16 {
        return owned(id);
    }
    match char_index_of_byte_exec(chars.as_slice(), 16) {
        Some(k) => {
            let mut head = string_of(&chars.as_slice()[0..k]);
            head.append("...");
            head
        },
        None => owned(id),
    }
}

} // verus!
