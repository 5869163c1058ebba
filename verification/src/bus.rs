//! What the application loop receives, and what it asks of the session.

use vstd::prelude::*;
use vstd::string::*;
use crate::events::UiEvent;
use crate::input::keys::KeyEvent;
use crate::text;
use crate::text::same;

verus! {

/// A mouse button.
#[derive(Debug, Clone, Copy, PartialEq, Eq, Structural)]
pub enum MouseButton {
    Left,
    Right,
    Middle,
}

#[derive(Debug, Clone, Copy, PartialEq, Eq, Structural)]
pub enum MouseEventKind {
    Down(MouseButton),
    Up(MouseButton),
    Drag(MouseButton),
    Moved,
    ScrollUp,
    ScrollDown,
    /// Any gesture without a meaning here.
    Other,
}

/// One mouse event, at a cell of the screen.
#[derive(Debug, Clone, Copy, PartialEq, Eq, Structural)]
pub struct MouseEvent {
    pub kind: MouseEventKind,
    pub column: u16,
    pub row: u16,
}

/// What the terminal delivers.
#[derive(Debug, Clone, PartialEq, Eq)]
pub enum TermEvent {
    Key(KeyEvent),
    Mouse(MouseEvent),
    Resize,
    Paste(String),
    Other,
}

/// Everything the application loop can receive. Where an ask is answered is
/// the host's affair: the answer leaves as an effect.
#[derive(Debug, Clone, PartialEq, Eq)]
pub enum AppEvent {
    /// The process is to end.
    Terminate,
    Term(TermEvent),
    /// A fact of the session, already decoded.
    Ui(UiEvent),
    /// A line of the runtime's error stream, kept for diagnostics.
    RuntimeStderr(String),
    /// The runtime has exited.
    RuntimeExited(Option<i32>),
    Ctl(CtlEvent),
    /// The agent asks for a permission.
    PermissionAsk { title: String, options: Vec<PermissionAskOption> },
}

/// One answer an ask offers.
#[derive(Debug, Clone, PartialEq, Eq)]
pub struct PermissionAskOption {
    pub option_id: String,
    pub kind: String,
    pub name: String,
}

/// The answer to an ask.
#[derive(Debug, Clone, PartialEq, Eq)]
pub enum PermissionAskReply {
    Selected(String),
    Cancelled,
}

/// An ask without options cannot be answered by one: it is cancelled.
pub fn permission_ask_empty_outcome(options: &Vec<PermissionAskOption>) -> (r: Option<
    PermissionAskReply,
>)
    ensures
        r == if options@.len() == 0 {
            Some(PermissionAskReply::Cancelled)
        } else {
            None::<PermissionAskReply>
        },
{
    if options.len() == 0 {
        Some(PermissionAskReply::Cancelled)
    } else {
        None
    }
}

/// The first option that allows once, from `i` on.
pub open spec fn allow_once_from(options: Seq<PermissionAskOption>, i: int) -> Option<int>
    decreases options.len() - i,
{
    if i < 0 || i >= options.len() {
        None
    } else if options[i].kind@ == "allow_once"@ {
        Some(i)
    } else {
        allow_once_from(options, i + 1)
    }
}

/// The option an ask opens on: the first that allows once, or the first.
pub open spec fn default_option(options: Seq<PermissionAskOption>) -> int {
    match allow_once_from(options, 0) {
        Some(i) => i,
        None => 0,
    }
}

pub fn permission_ask_default_sel(options: &Vec<PermissionAskOption>) -> (r: usize)
    ensures
        r == default_option(options@),
{
    let mut i: usize = 0;
    while i < options.len()
        invariant
            i <= options.len(),
            allow_once_from(options@, 0) == allow_once_from(options@, i as int),
        decreases options.len() - i,
    {
        if same(options[i].kind.as_str(), "allow_once") {
            return i;
        }
        i += 1;
    }
    0
}

/// One change to a queued row.
#[derive(Debug, Clone, PartialEq, Eq)]
pub enum QueueAction {
    Remove,
    Edit(String),
}

/// One row of the queue a driver keeps.
#[derive(Debug, Clone, PartialEq, Eq)]
pub struct QueueRow {
    pub item_id: u64,
    pub text: String,
    /// The running turn has the message and has not taken it up yet.
    pub steering: bool,
}

/// What the session reports of itself.
#[derive(Debug, Clone, PartialEq, Eq)]
pub enum CtlEvent {
    Starting { runtime: String },
    Ready { server: String },
    /// The driver has taken a prompt up.
    PromptQueued { message_id: String },
    /// A message sent into the running turn has settled: it landed, or it was
    /// put off until after the turn.
    SteerSettled { message_id: u64, deferred: bool },
    Queue { items: Vec<QueueRow> },
    QueueClaimed { item_id: u64 },
    QueueRemoved { item_id: u64 },
    SteerAdmitted { message_ids: Vec<u64> },
    Error(String),
    /// A stop was accepted; the turn has not unwound yet.
    CancelRequested,
    /// The stopped turn has unwound.
    Interrupted,
    Catalog { models: Vec<CatalogModel> },
    Skills { skills: Vec<SkillInfo> },
    Efforts { efforts: Vec<String>, default: Option<String> },
    TuiOpDone(String),
    TuiOpFailed(String),
    /// A switch failed: the session on show stays.
    SessionSwitchFailed(String),
    AgentCaps { load_session: bool },
    /// A session is bound; its id is the one to use.
    SessionBound {
        session_id: String,
        notice: Option<String>,
        model: Option<String>,
        effort: Option<String>,
    },
    SessionList { sessions: Vec<SessionListItem>, prefix: Option<String> },
}

/// One stored session.
#[derive(Debug, Clone, PartialEq, Eq)]
pub struct SessionListItem {
    pub id: String,
    pub title: Option<String>,
    pub updated_at: Option<String>,
}

#[derive(Debug, Clone, PartialEq, Eq)]
pub struct CatalogModel {
    pub provider: String,
    pub id: String,
    pub name: String,
    pub vision: bool,
}

/// One skill of the workspace.
#[derive(Debug, Clone, PartialEq, Eq)]
pub struct SkillInfo {
    pub name: String,
    pub description: String,
    pub input_hint: Option<String>,
    /// The file it comes from.
    pub source: Option<String>,
}

/// One image on its way to the session, its bytes in base64.
#[derive(Debug, Clone, PartialEq, Eq)]
pub struct ImagePart {
    pub data: String,
    pub media_type: String,
    pub name: String,
    /// The file it was read from, or `clipboard`.
    pub path: String,
}

#[verifier::ext_equal]
pub struct Part {
    pub data: Seq<char>,
    pub media_type: Seq<char>,
    pub name: Seq<char>,
    pub path: Seq<char>,
}

impl View for ImagePart {
    type V = Part;

    open spec fn view(&self) -> Part {
        Part {
            data: self.data@,
            media_type: self.media_type@,
            name: self.name@,
            path: self.path@,
        }
    }
}

/// One block of a prompt, in the order of the draft.
#[derive(Debug, Clone, PartialEq, Eq)]
pub enum PromptBlock {
    Text(String),
    Image(ImagePart),
}

pub enum Block {
    Text(Seq<char>),
    Image(Part),
}

impl View for PromptBlock {
    type V = Block;

    open spec fn view(&self) -> Block {
        match self {
            PromptBlock::Text(t) => Block::Text(t@),
            PromptBlock::Image(p) => Block::Image(p@),
        }
    }
}

pub open spec fn view_blocks(blocks: Seq<PromptBlock>) -> Seq<Block> {
    blocks.map_values(|b: PromptBlock| b@)
}

/// What the interface asks of the session.
#[derive(Debug, Clone, PartialEq, Eq)]
pub enum Cmd {
    Prompt { session_id: String, text: String },
    PromptImages { session_id: String, blocks: Vec<PromptBlock> },
    /// A message for the queue that a driver keeps.
    Queue { session_id: String, item_id: u64, text: String },
    UpdateQueue { session_id: String, item_id: u64, action: QueueAction },
    /// A message for the running turn, taken up at its next step. Nothing is
    /// cancelled; without a running turn it becomes the next one.
    Steer { session_id: String, message_id: u64, text: String },
    SteerImages { session_id: String, message_id: u64, blocks: Vec<PromptBlock> },
    Interrupt { session_id: String },
    SelectModel {
        session_id: String,
        provider: Option<String>,
        model: Option<String>,
        effort: Option<String>,
    },
    FetchCatalog,
    FetchSkills,
    FetchEfforts { provider: String, model: String },
    SetPermission { session_id: String, preset: String },
    /// The key for the running agent; none clears it.
    SetApiKey { key: Option<String> },
    NewSession,
    ListSessions { prefix: Option<String> },
    LoadSession { session_id: String },
    Compact,
    Goal { arg: String },
    Shutdown,
}

pub enum Order {
    Prompt { session_id: Seq<char>, text: Seq<char> },
    PromptImages { session_id: Seq<char>, blocks: Seq<Block> },
    Queue { session_id: Seq<char>, item_id: u64, text: Seq<char> },
    UpdateQueue { session_id: Seq<char>, item_id: u64, action: QueueAction },
    Steer { session_id: Seq<char>, message_id: u64, text: Seq<char> },
    SteerImages { session_id: Seq<char>, message_id: u64, blocks: Seq<Block> },
    Interrupt { session_id: Seq<char> },
    SelectModel {
        session_id: Seq<char>,
        provider: Option<Seq<char>>,
        model: Option<Seq<char>>,
        effort: Option<Seq<char>>,
    },
    FetchCatalog,
    FetchSkills,
    FetchEfforts { provider: Seq<char>, model: Seq<char> },
    SetPermission { session_id: Seq<char>, preset: Seq<char> },
    SetApiKey { key: Option<Seq<char>> },
    NewSession,
    ListSessions { prefix: Option<Seq<char>> },
    LoadSession { session_id: Seq<char> },
    Compact,
    Goal { arg: Seq<char> },
    Shutdown,
}

impl View for Cmd {
    type V = Order;

    open spec fn view(&self) -> Order {
        match *self {
            Cmd::Prompt { session_id, text } => Order::Prompt {
                session_id: session_id@,
                text: text@,
            },
            Cmd::PromptImages { session_id, blocks } => Order::PromptImages {
                session_id: session_id@,
                blocks: view_blocks(blocks@),
            },
            Cmd::Queue { session_id, item_id, text } => Order::Queue {
                session_id: session_id@,
                item_id,
                text: text@,
            },
            Cmd::UpdateQueue { session_id, item_id, action } => Order::UpdateQueue {
                session_id: session_id@,
                item_id,
                action,
            },
            Cmd::Steer { session_id, message_id, text } => Order::Steer {
                session_id: session_id@,
                message_id,
                text: text@,
            },
            Cmd::SteerImages { session_id, message_id, blocks } => Order::SteerImages {
                session_id: session_id@,
                message_id,
                blocks: view_blocks(blocks@),
            },
            Cmd::Interrupt { session_id } => Order::Interrupt { session_id: session_id@ },
            Cmd::SelectModel { session_id, provider, model, effort } => Order::SelectModel {
                session_id: session_id@,
                provider: text::view_opt(provider),
                model: text::view_opt(model),
                effort: text::view_opt(effort),
            },
            Cmd::FetchCatalog => Order::FetchCatalog,
            Cmd::FetchSkills => Order::FetchSkills,
            Cmd::FetchEfforts { provider, model } => Order::FetchEfforts {
                provider: provider@,
                model: model@,
            },
            Cmd::SetPermission { session_id, preset } => Order::SetPermission {
                session_id: session_id@,
                preset: preset@,
            },
            Cmd::SetApiKey { key } => Order::SetApiKey { key: text::view_opt(key) },
            Cmd::NewSession => Order::NewSession,
            Cmd::ListSessions { prefix } => Order::ListSessions { prefix: text::view_opt(prefix) },
            Cmd::LoadSession { session_id } => Order::LoadSession { session_id: session_id@ },
            Cmd::Compact => Order::Compact,
            Cmd::Goal { arg } => Order::Goal { arg: arg@ },
            Cmd::Shutdown => Order::Shutdown,
        }
    }
}

} // verus!
