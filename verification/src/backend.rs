//! The contract of the agent driver: what it reports and what it takes.

use vstd::prelude::*;
use crate::bus::PermissionAskOption;

verus! {

#[derive(Debug, Clone, Copy, PartialEq, Eq, Structural)]
pub enum TodoStatus {
    Pending,
    InProgress,
    Completed,
}

/// One task of the agent's checklist.
#[derive(Debug, Clone, PartialEq, Eq)]
pub struct Todo {
    pub content: String,
    pub status: TodoStatus,
}

/// A fact of a session, as the driver reports it.
#[derive(Debug, Clone, PartialEq, Eq)]
pub enum SessionFact {
    SessionStatus { session: String, running: bool },
    TurnStart { session: String, turn: u64 },
    TurnEnd { session: String, kind: String },
    TextDelta { session: String, text: String },
    ReasoningDelta { session: String, text: String },
    AssistantFinal { session: String, text: String, model: Option<String> },
    ToolCall { session: String, call_id: String, name: String, arguments: String },
    ToolCallDelta { session: String, call_id: String, name: String, delta: String },
    ToolStarted { session: String, call_id: String, name: String },
    ToolResult {
        session: String,
        call_id: String,
        is_error: bool,
        text: String,
        error: Option<String>,
    },
    Plan {
        session: String,
        summary: String,
        todos: Vec<Todo>,
        active: Option<String>,
        active_extra: usize,
        completed: usize,
        total: usize,
    },
    SubagentStarted { parent: String, child: String, label: Option<String> },
    SubagentFinished { child: String },
    Usage { session: String, input: u64, output: u64, cached: u64, reasoning: u64 },
    UserMessage { session: String, text: String },
    SandboxMode { session: String, mode: String },
    PermissionPreset { session: String, preset: String },
    ApprovalPolicy { session: String, policy: String },
}

#[derive(Debug, Clone, PartialEq, Eq)]
pub struct ModelRow {
    pub provider: String,
    pub id: String,
    pub name: String,
    pub vision: bool,
}

#[derive(Debug, Clone, PartialEq, Eq)]
pub struct SessionRow {
    pub id: String,
    pub title: Option<String>,
    pub updated_at: Option<String>,
}

#[derive(Debug, Clone, PartialEq, Eq)]
pub struct SkillRow {
    pub name: String,
    pub description: String,
    pub input_hint: Option<String>,
    pub path: String,
}

/// A report of the driver on itself.
#[derive(Debug, Clone, PartialEq, Eq)]
pub enum DriverReport {
    Starting { runtime: String },
    Ready { server: String },
    PromptQueued { message_id: String },
    SteerSettled { message_id: u64, deferred: bool },
    SteerAdmitted { message_ids: Vec<u64> },
    Error(String),
    CancelRequested,
    Interrupted,
    TuiOpDone(String),
    TuiOpFailed(String),
    SessionSwitchFailed(String),
    SessionBound {
        session_id: String,
        notice: Option<String>,
        model: Option<String>,
        effort: Option<String>,
    },
    Efforts { efforts: Vec<String>, default: Option<String> },
    Catalog { models: Vec<ModelRow> },
    SessionList { sessions: Vec<SessionRow>, prefix: Option<String> },
    Skills { skills: Vec<SkillRow> },
}

/// Everything the driver sends. The host keeps where an ask is answered.
#[derive(Debug, Clone, PartialEq, Eq)]
pub enum DriverEvent {
    Ui(SessionFact),
    Ctl(DriverReport),
    PermissionAsk { title: String, options: Vec<PermissionAskOption> },
}

/// Everything the driver takes through its command channel.
#[derive(Debug, Clone, PartialEq, Eq)]
pub enum DriverCmd {
    PromptForSession { session_id: String, text: String },
    SetModel { model: Option<String>, effort: Option<String> },
    FetchCatalog,
    FetchSkills,
    NewSession { session_id: String },
    ListSessions { prefix: Option<String> },
    Resume { session_id: String },
    SetPermission { preset: String },
    SetApiKey { key: Option<String> },
    Compact,
    Goal { arg: String },
}

/// A message for the running turn.
#[derive(Debug, Clone, PartialEq, Eq)]
pub struct SteerRequest {
    pub session_id: String,
    pub message_id: u64,
    pub text: String,
}

} // verus!
