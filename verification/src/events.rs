//! The facts a session reports, as the interface reads them.

use vstd::prelude::*;
use crate::text;
use crate::text::copy_opt;

verus! {

/// How far a task of the checklist has come.
#[derive(Debug, Clone, Copy, PartialEq, Eq, Structural)]
pub enum PlanStatus {
    Pending,
    InProgress,
    Completed,
}

/// One task of the checklist.
#[derive(Debug, Clone, PartialEq, Eq)]
pub struct PlanItem {
    pub content: String,
    pub status: PlanStatus,
}

/// The live checklist: its tasks, the one in progress and how many more are,
/// and the count of the completed ones.
#[derive(Debug, Clone, PartialEq, Eq)]
pub struct PlanProgress {
    pub todos: Vec<PlanItem>,
    pub active: Option<String>,
    pub active_extra: usize,
    pub completed: usize,
    pub total: usize,
}

#[derive(Debug, Clone, PartialEq, Eq)]
pub enum UiEvent {
    SessionStatus { session: String, running: bool },
    TurnStart { session: String, turn: u64 },
    TurnEnd { session: String, kind: String },
    TextDelta { session: String, text: String },
    ReasoningDelta { session: String, text: String },
    AssistantFinal { session: String, text: String, model: Option<String> },
    ToolCall { session: String, call_id: String, name: String, arguments: String },
    /// A piece of a tool call's arguments, while the model still writes them.
    ToolCallDelta { session: String, call_id: String, name: String, delta: String },
    /// A call whose card is up begins to run.
    ToolStarted { session: String, call_id: String, name: String },
    ToolResult {
        session: String,
        call_id: String,
        is_error: bool,
        text: String,
        error: Option<String>,
    },
    Usage { session: String, input: u64, output: u64, cached: u64, reasoning: u64 },
    UserInjected { session: String, source: String, preview: String },
    SubagentStarted { parent: String, child: String, label: Option<String> },
    SubagentFinished { child: String },
    /// A line of the user's, replayed as a session is loaded.
    UserMessage { session: String, text: String },
    SessionTitle { session: String, title: String },
    /// A snapshot of the checklist.
    Plan {
        session: String,
        summary: String,
        todos: Vec<PlanItem>,
        active: Option<String>,
        active_extra: usize,
        completed: usize,
        total: usize,
    },
    PlanMode { session: String, active: bool },
    /// The file policy.
    SandboxMode { session: String, mode: String },
    ApprovalPolicy { session: String, policy: String },
    PermissionPreset { session: String, preset: String },
    AgentPreset { session: String, preset: String },
    ApprovalAsked { session: String, tool: String, reason: Option<String> },
    ApprovalDecided { session: String, outcome: String },
}

/// The session an event is about, where it is about one. A subagent's
/// lifecycle is addressed by its parent and child instead, and the agent
/// preset is no session's fact.
pub open spec fn session_of(ui: UiEvent) -> Option<Seq<char>> {
    match ui {
        UiEvent::SessionStatus { session, .. } => Some(session@),
        UiEvent::TurnStart { session, .. } => Some(session@),
        UiEvent::TurnEnd { session, .. } => Some(session@),
        UiEvent::TextDelta { session, .. } => Some(session@),
        UiEvent::ReasoningDelta { session, .. } => Some(session@),
        UiEvent::AssistantFinal { session, .. } => Some(session@),
        UiEvent::ToolCall { session, .. } => Some(session@),
        UiEvent::ToolCallDelta { session, .. } => Some(session@),
        UiEvent::ToolStarted { session, .. } => Some(session@),
        UiEvent::ToolResult { session, .. } => Some(session@),
        UiEvent::Usage { session, .. } => Some(session@),
        UiEvent::UserInjected { session, .. } => Some(session@),
        UiEvent::SubagentStarted { .. } => None,
        UiEvent::SubagentFinished { .. } => None,
        UiEvent::UserMessage { session, .. } => Some(session@),
        UiEvent::SessionTitle { session, .. } => Some(session@),
        UiEvent::Plan { session, .. } => Some(session@),
        UiEvent::PlanMode { session, .. } => Some(session@),
        UiEvent::SandboxMode { session, .. } => Some(session@),
        UiEvent::ApprovalPolicy { session, .. } => Some(session@),
        UiEvent::PermissionPreset { session, .. } => Some(session@),
        UiEvent::AgentPreset { .. } => None,
        UiEvent::ApprovalAsked { session, .. } => Some(session@),
        UiEvent::ApprovalDecided { session, .. } => Some(session@),
    }
}

/// The session an event is about.
pub fn ui_session(event: &UiEvent) -> (r: Option<&String>)
    ensures
        match r {
            Some(s) => session_of(*event) == Some(s@),
            None => session_of(*event) is None,
        },
{
    match event {
        UiEvent::SessionStatus { session, .. } => Some(session),
        UiEvent::TurnStart { session, .. } => Some(session),
        UiEvent::TurnEnd { session, .. } => Some(session),
        UiEvent::TextDelta { session, .. } => Some(session),
        UiEvent::ReasoningDelta { session, .. } => Some(session),
        UiEvent::AssistantFinal { session, .. } => Some(session),
        UiEvent::ToolCall { session, .. } => Some(session),
        UiEvent::ToolCallDelta { session, .. } => Some(session),
        UiEvent::ToolStarted { session, .. } => Some(session),
        UiEvent::ToolResult { session, .. } => Some(session),
        UiEvent::Usage { session, .. } => Some(session),
        UiEvent::UserInjected { session, .. } => Some(session),
        UiEvent::SubagentStarted { .. } => None,
        UiEvent::SubagentFinished { .. } => None,
        UiEvent::UserMessage { session, .. } => Some(session),
        UiEvent::SessionTitle { session, .. } => Some(session),
        UiEvent::Plan { session, .. } => Some(session),
        UiEvent::PlanMode { session, .. } => Some(session),
        UiEvent::SandboxMode { session, .. } => Some(session),
        UiEvent::ApprovalPolicy { session, .. } => Some(session),
        UiEvent::PermissionPreset { session, .. } => Some(session),
        UiEvent::AgentPreset { .. } => None,
        UiEvent::ApprovalAsked { session, .. } => Some(session),
        UiEvent::ApprovalDecided { session, .. } => Some(session),
    }
}

/// A task as its words and its status.
pub open spec fn tasks(todos: Seq<PlanItem>) -> Seq<(Seq<char>, PlanStatus)> {
    todos.map_values(|t: PlanItem| (t.content@, t.status))
}

/// What a checklist shows.
#[verifier::ext_equal]
pub struct Progress {
    pub todos: Seq<(Seq<char>, PlanStatus)>,
    pub active: Option<Seq<char>>,
    pub active_extra: usize,
    pub completed: usize,
    pub total: usize,
}

impl View for PlanProgress {
    type V = Progress;

    open spec fn view(&self) -> Progress {
        Progress {
            todos: tasks(self.todos@),
            active: text::view_opt(self.active),
            active_extra: self.active_extra,
            completed: self.completed,
            total: self.total,
        }
    }
}

/// The checklist a snapshot holds; an empty one is none.
pub open spec fn progress_of(ui: UiEvent) -> Option<Progress> {
    match ui {
        UiEvent::Plan { todos, active, active_extra, completed, total, .. } => if total == 0 {
            None
        } else {
            Some(
                Progress {
                    todos: tasks(todos@),
                    active: text::view_opt(active),
                    active_extra,
                    completed,
                    total,
                },
            )
        },
        _ => None,
    }
}

fn copy_tasks(todos: &Vec<PlanItem>) -> (r: Vec<PlanItem>)
    ensures
        tasks(r@) == tasks(todos@),
{
    let mut out: Vec<PlanItem> = Vec::new();
    let mut i: usize = 0;
    assert(tasks(out@) == tasks(todos@).take(0));
    while i < todos.len()
        invariant
            i <= todos.len(),
            tasks(out@) == tasks(todos@).take(i as int),
        decreases todos.len() - i,
    {
        let ghost before = tasks(out@);
        let item = PlanItem { content: todos[i].content.clone(), status: todos[i].status };
        out.push(item);
        assert(tasks(out@) == before.push(tasks(todos@)[i as int]));
        assert(tasks(todos@).take(i + 1) == tasks(todos@).take(i as int).push(
            tasks(todos@)[i as int],
        ));
        i += 1;
    }
    assert(tasks(todos@).take(todos.len() as int) == tasks(todos@));
    out
}

impl UiEvent {
    /// The checklist a snapshot holds; an empty one is none.
    pub fn plan_progress(&self) -> (r: Option<PlanProgress>)
        ensures
            match r {
                Some(p) => progress_of(*self) == Some(p@),
                None => progress_of(*self) is None,
            },
    {
        match self {
            UiEvent::Plan { todos, active, active_extra, completed, total, .. } => {
                if *total == 0 {
                    None
                } else {
                    Some(
                        PlanProgress {
                            todos: copy_tasks(todos),
                            active: copy_opt(active),
                            active_extra: *active_extra,
                            completed: *completed,
                            total: *total,
                        },
                    )
                }
            },
            _ => None,
        }
    }
}

} // verus!
