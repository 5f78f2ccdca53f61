use vstd::prelude::*;

verus! {

/// Connection, session and account identities: the 128 bits of a UUID.
pub type Id = u128;

/// Which of the two sub-conversations of a session a message belongs to.
#[derive(Debug, Clone, Copy, PartialEq, Eq)]
pub enum PaneType {
    /// The unattended work loop.
    Deadloop,
    /// The interactive query loop.
    Interactive,
}

/// Messages sent from a producer (the local supervisor) to the server.
#[derive(Debug, Clone, PartialEq)]
pub enum CliToServer {
    /// First message of a connection: credential and the producer's version.
    Register { token: String, version: Option<String> },
    /// Announces (or re-announces) a session owned by this producer.
    SessionStart { session_id: Id, working_dir: Option<String>, hostname: Option<String> },
    /// Opaque text output of the agent.
    Output { session_id: Id, data: String, output_type: OutputType, pane_type: Option<PaneType> },
    /// The session has ended.
    SessionEnd { session_id: Id, reason: String },
    /// Keepalive.
    Heartbeat,
    /// A structured event of the agent.
    StreamMessage { session_id: Id, message: ClaudeStreamMessage, pane_type: Option<PaneType> },
    /// A prompt typed on the producer's side, to be shown to viewers.
    UserInput { session_id: Id, text: String, pane_type: Option<PaneType> },
}

/// Messages sent from the server to a producer.
#[derive(Debug, Clone, PartialEq)]
pub enum ServerToCli {
    Registered { cli_id: Id },
    RegistrationFailed { reason: String },
    /// Fatal: the producer must not retry and must ask its operator to upgrade.
    VersionUnsupported { client_version: String, min_version: String },
    SessionAssigned { session_id: Id, working_dir: Option<String> },
    /// Input typed by a consumer.
    Input { session_id: Id, data: String },
    /// A signal for the agent process, such as an interrupt.
    Signal { session_id: Id, signal: String },
    /// The consumer of the session went away.
    SessionDisconnected { session_id: Id },
    Heartbeat,
}

/// Messages sent from a consumer (a remote viewer) to the server.
#[derive(Debug, Clone, PartialEq)]
pub enum WebToServer {
    Authenticate { token: String },
    ListCliClients,
    StartSession { cli_client_id: Option<Id> },
    ResumeSession { session_id: Id },
    AttachSession { session_id: Id },
    Input { text: String, pane_type: Option<PaneType> },
    Approve { tool_call_id: String },
    Reject { tool_call_id: String },
    Signal { signal: String },
    ListSessions,
    GetSessionMessages { session_id: Id, limit: Option<usize>, before_id: Option<String> },
}

/// Messages sent from the server to a consumer.
#[derive(Debug, Clone, PartialEq)]
pub enum ServerToWeb {
    Authenticated { user_id: Id },
    AuthenticationFailed { reason: String },
    SessionStarted { session_id: Id, pane_type: Option<PaneType> },
    SessionStatus { status: SessionStatus },
    Output { content: String, output_type: OutputType, pane_type: Option<PaneType> },
    Error { message: String },
    CliClients { clients: Vec<CliClientInfo> },
    StreamMessage { session_id: Id, message: ClaudeStreamMessage, pane_type: Option<PaneType> },
    Sessions { sessions: Vec<SessionInfo> },
    /// A page of the session's history; `has_more` when older messages remain.
    SessionMessages { session_id: Id, messages: Vec<MessageInfo>, has_more: bool },
    UserInput { session_id: Id, text: String, pane_type: Option<PaneType> },
}

/// A persisted session, as listed to a consumer.
#[derive(Debug, Clone, PartialEq)]
pub struct SessionInfo {
    pub id: Id,
    pub cli_client_id: Option<Id>,
    pub working_dir: Option<String>,
    pub status: String,
    pub created_at: Option<String>,
}

/// A persisted message, as replayed to a consumer.
#[derive(Debug, Clone, PartialEq)]
pub struct MessageInfo {
    pub id: String,
    pub role: String,
    pub content: String,
    pub message_type: String,
    pub created_at: Option<String>,
}

/// The kind of an opaque output. JSON values are held as their JSON text.
#[derive(Debug, Clone, PartialEq)]
pub enum OutputType {
    Text,
    Code { language: Option<String> },
    ToolUse { tool: String, input: String },
    ToolResult { tool: String, success: bool },
    ApprovalRequest { tool_call_id: String, tool: String, description: String },
    System,
    Error,
}

impl Default for OutputType {
    /// Plain text is the kind of an output that names none.
    fn default() -> (r: OutputType)
        ensures
            r == OutputType::Text,
    {
        OutputType::Text
    }
}

/// Status of a session as shown to a consumer.
#[derive(Debug, Clone, Copy, PartialEq, Eq)]
pub enum SessionStatus {
    /// Waiting for a producer.
    Pending,
    /// A producer is connected.
    Connected,
    /// The producer went away.
    Disconnected,
    /// The session has ended.
    Ended,
}

/// A connected producer, as listed to consumers.
#[derive(Debug, Clone, PartialEq)]
pub struct CliClientInfo {
    pub id: Id,
    pub name: Option<String>,
    pub status: CliClientStatus,
    /// Milliseconds since the Unix epoch.
    pub last_seen: Option<i64>,
    pub active_session: Option<Id>,
}

#[derive(Debug, Clone, Copy, PartialEq, Eq)]
pub enum CliClientStatus {
    Online,
    Offline,
    Busy,
}

/// One line of the agent's structured output. JSON values are held as their
/// JSON text, and the cost as the decimal text of a number of US dollars.
#[derive(Debug, Clone, PartialEq)]
pub enum ClaudeStreamMessage {
    System {
        subtype: String,
        session_id: String,
        tools: Vec<String>,
        model: String,
        cwd: Option<String>,
        extra: String,
    },
    Assistant { message: ClaudeAssistantMessage, session_id: String, extra: String },
    User {
        message: ClaudeUserMessage,
        session_id: String,
        tool_use_result: Option<String>,
        extra: String,
    },
    Result {
        subtype: String,
        result: String,
        total_cost_usd: String,
        duration_ms: u64,
        session_id: String,
        is_error: bool,
        extra: String,
    },
}

#[derive(Debug, Clone, PartialEq)]
pub struct ClaudeAssistantMessage {
    pub content: Vec<ClaudeContentBlock>,
    pub model: String,
    pub extra: String,
}

#[derive(Debug, Clone, PartialEq)]
pub struct ClaudeUserMessage {
    pub content: Vec<ClaudeContentBlock>,
    pub role: String,
}

#[derive(Debug, Clone, PartialEq)]
pub enum ClaudeContentBlock {
    Text { text: String },
    ToolUse { id: String, name: String, input: String },
    ToolResult { tool_use_id: String, content: String, is_error: bool },
}

impl ClaudeStreamMessage {
    /// Whether this is a final result that reports an error.
    pub fn is_error_result(&self) -> (r: bool)
        ensures
            r == (match *self { ClaudeStreamMessage::Result { is_error, .. } => is_error, _ => false }),
    {
        match self {
            ClaudeStreamMessage::Result { is_error, .. } => *is_error,
            _ => false,
        }
    }
}

impl CliToServer {
    /// A plain-text output of a session.
    pub fn output(session_id: Id, data: String) -> (r: CliToServer)
        ensures
            r == (CliToServer::Output { session_id, data, output_type: OutputType::Text, pane_type: None }),
    {
        CliToServer::Output { session_id, data, output_type: OutputType::Text, pane_type: None }
    }

    /// An output of a session with the given kind.
    pub fn output_with_type(session_id: Id, data: String, output_type: OutputType) -> (r: CliToServer)
        ensures
            r == (CliToServer::Output { session_id, data, output_type, pane_type: None }),
    {
        CliToServer::Output { session_id, data, output_type, pane_type: None }
    }
}

impl ServerToWeb {
    /// A plain-text output for a consumer.
    pub fn output(content: String) -> (r: ServerToWeb)
        ensures
            r == (ServerToWeb::Output { content, output_type: OutputType::Text, pane_type: None }),
    {
        ServerToWeb::Output { content, output_type: OutputType::Text, pane_type: None }
    }

    /// An error report for a consumer.
    pub fn error(message: String) -> (r: ServerToWeb)
        ensures
            r == (ServerToWeb::Error { message }),
    {
        ServerToWeb::Error { message }
    }
}

} // verus!
