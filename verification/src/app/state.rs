//! The parts of the application's state.

use vstd::prelude::*;
use vstd::string::*;
use crate::attachments::{Staged, Tray};
use crate::bus::{CatalogModel, PermissionAskOption, SkillInfo};
use crate::events::{PlanProgress, Progress};
use crate::file_ref::{FileMenu, Menu};
use crate::input::composer::{Composer, ComposerEditor};
use crate::input::normalize::ModifierState;
use crate::input::vim::VimState;
use crate::picker;
use crate::picker::{Card, Choice, Picker, TodoDialog, ViewOverlay};
use crate::runtime;
use crate::runtime::{Config, ModeFacts, Modes, RuntimeConfig};
use crate::selection::{ChatView, InputSel, Pane, Rect, Selection};
use crate::staging;
use crate::staging::{Piece, StagedBlock};
use crate::text;
use crate::transcript::{Timeline, Transcript};

verus! {

#[derive(Debug, Clone, Copy, PartialEq, Eq, Structural)]
pub enum RunState {
    Idle,
    Starting,
    Running,
}

/// A session switch that the driver has not settled yet.
#[derive(Debug, Clone, PartialEq, Eq)]
pub enum SessionSwitch {
    New,
    Resume(String),
}

pub enum Switch {
    New,
    Resume(Seq<char>),
}

pub open spec fn view_switch(s: Option<SessionSwitch>) -> Option<Switch> {
    match s {
        Some(SessionSwitch::New) => Some(Switch::New),
        Some(SessionSwitch::Resume(id)) => Some(Switch::Resume(id@)),
        None => None,
    }
}

/// The presses of ctrl+c that count towards leaving.
#[derive(Debug, Clone, Copy, PartialEq, Eq, Structural)]
pub struct CtrlCQuitChord {
    pub started: u64,
    pub presses: u8,
    pub required: u8,
}

/// A prompt that waits: its blocks, and the timeline cells that echo them. A
/// queued prompt waits for the running turn to end; one sent into the turn
/// waits to be settled.
#[derive(Debug, Clone, PartialEq, Eq)]
pub struct QueuedPrompt {
    pub id: u64,
    pub blocks: Vec<StagedBlock>,
    pub cells: Vec<usize>,
}

pub struct Waiting {
    pub id: u64,
    pub pieces: Seq<Piece>,
    pub cells: Seq<usize>,
}

impl View for QueuedPrompt {
    type V = Waiting;

    open spec fn view(&self) -> Waiting {
        Waiting { id: self.id, pieces: staging::pieces(self.blocks@), cells: self.cells@ }
    }
}

pub open spec fn waiting(v: Seq<QueuedPrompt>) -> Seq<Waiting> {
    v.map_values(|p: QueuedPrompt| p@)
}

/// The queued prompt that is in the composer for editing.
#[derive(Debug, Clone, Copy, PartialEq, Eq, Structural)]
pub struct QueueEditState {
    pub prompt_id: u64,
    /// The next ctrl+d deletes.
    pub delete_confirm: bool,
}

/// The client's own queue of prompts.
#[derive(Debug, Clone, PartialEq, Eq)]
pub struct PromptQueue {
    /// The prompts that wait for the running turn to end, in order.
    pub prompt_queue: Vec<QueuedPrompt>,
    /// How many they are.
    pub queued: usize,
    pub queue_edit: Option<QueueEditState>,
    /// The prompts sent into the running turn that have not settled.
    pub pending_steers: Vec<QueuedPrompt>,
    pub next_prompt_id: u64,
    /// The row of the queue list that the next ctrl+d deletes.
    pub queue_delete_armed: Option<String>,
}

pub struct Line {
    pub waiting: Seq<Waiting>,
    pub queued: usize,
    pub edit: Option<QueueEditState>,
    pub steers: Seq<Waiting>,
    pub next_id: u64,
    pub armed: Option<Seq<char>>,
}

impl View for PromptQueue {
    type V = Line;

    open spec fn view(&self) -> Line {
        Line {
            waiting: waiting(self.prompt_queue@),
            queued: self.queued,
            edit: self.queue_edit,
            steers: waiting(self.pending_steers@),
            next_id: self.next_prompt_id,
            armed: text::view_opt(self.queue_delete_armed),
        }
    }
}

/// The composer: the draft, what is staged in it, and what is open over it.
pub struct Draft {
    pub input: ComposerEditor,
    pub pending_images: Staged,
    /// The width of the well's text in cells, from the last frame.
    pub wrap_width: usize,
    /// The well on screen, the prompt sign with it.
    pub area: Rect,
    /// The drag in the well.
    pub input_sel: Option<InputSel>,
    pub input_selecting: bool,
    /// The first row of text in the well.
    pub input_top: usize,
    /// The chips on screen, and the image of each.
    pub att_chips: Vec<(Rect, usize)>,
    /// The image whose chip the pointer is over.
    pub hover_att: Option<usize>,
    pub slash_sel: usize,
    pub vim: VimState,
    pub file_menu: Option<FileMenu>,
    /// The token whose menu was dismissed.
    pub file_menu_dismissed: Option<String>,
}

pub struct DraftState {
    pub input: Composer,
    pub images: Tray,
    pub wrap_width: usize,
    pub area: Rect,
    pub input_sel: Option<InputSel>,
    pub input_selecting: bool,
    pub input_top: usize,
    pub att_chips: Seq<(Rect, usize)>,
    pub hover_att: Option<usize>,
    pub slash_sel: usize,
    pub vim: VimState,
    pub file_menu: Option<Menu>,
    pub dismissed: Option<Seq<char>>,
}

impl View for Draft {
    type V = DraftState;

    open spec fn view(&self) -> DraftState {
        DraftState {
            input: self.input@,
            images: self.pending_images@,
            wrap_width: self.wrap_width,
            area: self.area,
            input_sel: self.input_sel,
            input_selecting: self.input_selecting,
            input_top: self.input_top,
            att_chips: self.att_chips@,
            hover_att: self.hover_att,
            slash_sel: self.slash_sel,
            vim: self.vim,
            file_menu: match self.file_menu {
                Some(m) => Some(m@),
                None => None,
            },
            dismissed: text::view_opt(self.file_menu_dismissed),
        }
    }
}

/// The chat pane: what it shows, and what is selected in it.
#[derive(Debug, Clone, PartialEq, Eq)]
pub struct Chat {
    pub view: ChatView,
    pub sel: Option<Selection>,
    pub selecting: bool,
    pub last_click: Option<(u64, u16, u16)>,
    /// Lines above the bottom; none follows the tail.
    pub scroll_up: usize,
    /// The prompt the last jump went to.
    pub prompt_jump_cell: Option<usize>,
    /// The prompt that is washed, and until when.
    pub prompt_flash: Option<(usize, u64)>,
    pub prompt_flash_lines: Option<(usize, usize)>,
}

pub struct ChatState {
    pub view: Pane,
    pub sel: Option<Selection>,
    pub selecting: bool,
    pub last_click: Option<(u64, u16, u16)>,
    pub scroll_up: usize,
    pub jump_cell: Option<usize>,
    pub flash: Option<(usize, u64)>,
    pub flash_lines: Option<(usize, usize)>,
}

impl View for Chat {
    type V = ChatState;

    open spec fn view(&self) -> ChatState {
        ChatState {
            view: self.view@,
            sel: self.sel,
            selecting: self.selecting,
            last_click: self.last_click,
            scroll_up: self.scroll_up,
            jump_cell: self.prompt_jump_cell,
            flash: self.prompt_flash,
            flash_lines: self.prompt_flash_lines,
        }
    }
}

/// The agent's open question.
#[derive(Debug, Clone, PartialEq, Eq)]
pub struct PermissionAskOverlay {
    pub title: String,
    pub sel: usize,
    pub options: Vec<PermissionAskOption>,
}

pub struct Ask {
    pub title: Seq<char>,
    pub sel: usize,
    pub options: Seq<PermissionAskOption>,
}

impl View for PermissionAskOverlay {
    type V = Ask;

    open spec fn view(&self) -> Ask {
        Ask { title: self.title@, sel: self.sel, options: self.options@ }
    }
}

/// What stands over the chat, and the buttons of the composer's rim.
#[derive(Debug, Clone, PartialEq, Eq)]
pub struct Panels {
    pub picker: Option<Picker>,
    /// The rows an open picker shows.
    pub picker_page_rows: usize,
    pub permission_ask: Option<PermissionAskOverlay>,
    pub view_overlay: Option<ViewOverlay>,
    pub plan: Option<PlanProgress>,
    pub todo_dialog: Option<TodoDialog>,
    pub plan_chip: Option<Rect>,
    pub hover_plan_chip: bool,
    pub prompt_jump_btn: Option<Rect>,
    pub hover_prompt_jump_btn: bool,
    pub expand_btn: Option<Rect>,
    pub hover_expand_btn: bool,
    pub scroll_btn: Option<Rect>,
    pub hover_scroll_btn: bool,
    /// The well is pinned to its greater height.
    pub composer_expanded: bool,
}

pub struct PanelState {
    pub picker: Option<Choice>,
    pub page_rows: usize,
    pub ask: Option<Ask>,
    pub card: Option<Card>,
    pub plan: Option<Progress>,
    pub todo: Option<TodoDialog>,
    pub plan_chip: Option<Rect>,
    pub hover_plan_chip: bool,
    pub jump_btn: Option<Rect>,
    pub hover_jump_btn: bool,
    pub expand_btn: Option<Rect>,
    pub hover_expand_btn: bool,
    pub scroll_btn: Option<Rect>,
    pub hover_scroll_btn: bool,
    pub expanded: bool,
}

impl View for Panels {
    type V = PanelState;

    open spec fn view(&self) -> PanelState {
        PanelState {
            picker: picker::view_choice(self.picker),
            page_rows: self.picker_page_rows,
            ask: match self.permission_ask {
                Some(a) => Some(a@),
                None => None,
            },
            card: match self.view_overlay {
                Some(v) => Some(v@),
                None => None,
            },
            plan: match self.plan {
                Some(p) => Some(p@),
                None => None,
            },
            todo: self.todo_dialog,
            plan_chip: self.plan_chip,
            hover_plan_chip: self.hover_plan_chip,
            jump_btn: self.prompt_jump_btn,
            hover_jump_btn: self.hover_prompt_jump_btn,
            expand_btn: self.expand_btn,
            hover_expand_btn: self.hover_expand_btn,
            scroll_btn: self.scroll_btn,
            hover_scroll_btn: self.hover_scroll_btn,
            expanded: self.composer_expanded,
        }
    }
}

/// The session on show, and what is known of it.
#[derive(Debug, Clone, PartialEq, Eq)]
pub struct Session {
    pub session_id: String,
    pub cfg: RuntimeConfig,
    /// The driver has named this session.
    pub session_bound: bool,
    /// The switch that is under way; the old view stays until it settles.
    pub session_switch: Option<SessionSwitch>,
    pub session_title: Option<String>,
    pub load_session: bool,
    pub state: RunState,
    pub state_note: String,
    pub run_started: Option<u64>,
    /// A prompt was handed over and has not been taken up yet.
    pub prompt_pending: bool,
    pub server_info: Option<String>,
    /// The model picked, until a turn has run on it.
    pub selected_model: Option<String>,
    /// The model that was kept at launch. It is kept on while a model given
    /// for this run alone is in force.
    pub kept_model: Option<String>,
    pub modes: Modes,
    pub skills: Vec<SkillInfo>,
    pub last_models: Vec<CatalogModel>,
    pub effort_choices: Vec<String>,
}

pub struct SessionState {
    pub id: Seq<char>,
    pub cfg: Config,
    pub bound: bool,
    pub switch: Option<Switch>,
    pub title: Option<Seq<char>>,
    pub load_session: bool,
    pub state: RunState,
    pub note: Seq<char>,
    pub run_started: Option<u64>,
    pub pending: bool,
    pub server: Option<Seq<char>>,
    pub selected_model: Option<Seq<char>>,
    pub kept_model: Option<Seq<char>>,
    pub modes: ModeFacts,
    pub skills: Seq<SkillInfo>,
    pub models: Seq<CatalogModel>,
    pub efforts: Seq<String>,
}

impl View for Session {
    type V = SessionState;

    open spec fn view(&self) -> SessionState {
        SessionState {
            id: self.session_id@,
            cfg: self.cfg@,
            bound: self.session_bound,
            switch: view_switch(self.session_switch),
            title: text::view_opt(self.session_title),
            load_session: self.load_session,
            state: self.state,
            note: self.state_note@,
            run_started: self.run_started,
            pending: self.prompt_pending,
            server: text::view_opt(self.server_info),
            selected_model: text::view_opt(self.selected_model),
            kept_model: text::view_opt(self.kept_model),
            modes: self.modes@,
            skills: self.skills@,
            models: self.last_models@,
            efforts: self.effort_choices@,
        }
    }
}

/// The view of one subagent.
#[derive(Debug, Clone, PartialEq, Eq)]
pub struct SubagentView {
    pub id: String,
    pub parent: String,
    pub label: String,
    pub running: bool,
    pub transcript: Transcript,
}

pub struct Child {
    pub id: Seq<char>,
    pub parent: Seq<char>,
    pub label: Seq<char>,
    pub running: bool,
    pub transcript: Timeline,
}

impl View for SubagentView {
    type V = Child;

    open spec fn view(&self) -> Child {
        Child {
            id: self.id@,
            parent: self.parent@,
            label: self.label@,
            running: self.running,
            transcript: self.transcript@,
        }
    }
}

pub open spec fn children(v: Seq<SubagentView>) -> Seq<Child> {
    v.map_values(|c: SubagentView| c@)
}

/// What only the host can know, brought up to date before every event: the
/// time in milliseconds, the modifiers physically held, what the mode cache
/// holds for the workspace, the workspace's branch, and the platform.
#[derive(Debug, Clone, PartialEq, Eq)]
pub struct Host {
    pub now: u64,
    pub held: ModifierState,
    pub known_modes: Option<Modes>,
    pub branch: Option<String>,
    pub mac: bool,
}

pub struct HostFacts {
    pub now: u64,
    pub held: ModifierState,
    pub known_modes: Option<ModeFacts>,
    pub branch: Option<Seq<char>>,
    pub mac: bool,
}

impl View for Host {
    type V = HostFacts;

    open spec fn view(&self) -> HostFacts {
        HostFacts {
            now: self.now,
            held: self.held,
            known_modes: runtime::view_modes(self.known_modes),
            branch: text::view_opt(self.branch),
            mac: self.mac,
        }
    }
}

} // verus!
