//! Between the interface and the driver: the effects an event leaves to the
//! host, the way each command takes to the driver, and the driver's events in
//! the interface's words.

use vstd::prelude::*;
use vstd::string::*;
use crate::backend::{
    DriverCmd, DriverEvent, DriverReport, ModelRow, SessionFact, SessionRow, SkillRow, SteerRequest,
    Todo, TodoStatus,
};
use crate::bus;
use crate::bus::{
    AppEvent, CatalogModel, Cmd, CtlEvent, PermissionAskReply, PromptBlock, SessionListItem,
    SkillInfo,
};
use crate::events::{PlanItem, PlanStatus, UiEvent};
use crate::path::FilePath;
use crate::file_ref::{AtToken, QueryWalk};
use crate::file_ref;
use crate::runtime::{Modes, UiSettings};
use crate::runtime;
use crate::text::{cat, copy_opt};

verus! {

/// One move of the directory browser.
#[derive(Debug, Clone, Copy, PartialEq, Eq, Structural)]
pub enum BrowserMove {
    Up,
    Down,
    Home,
    End,
    PageUp,
    PageDown,
    Left,
    ToggleShowHidden,
}

/// What an event leaves to the host to do, in order.
#[derive(Debug, Clone, PartialEq, Eq)]
pub enum Effect {
    /// Hand a command to the session.
    Send(Cmd),
    /// Cancel the running turn at the driver.
    Interrupt,
    /// Put text on the clipboard, and report how that went.
    Copy(String),
    SaveSettings(UiSettings),
    SaveModes(Modes),
    /// Store a key, and report how that went.
    StoreKey(String),
    /// Delete the stored key, and report how that went.
    DeleteKey,
    /// Read an image file, and report what was read.
    ReadImage { path: String, media_type: String, name: String, caption: String },
    /// Read the image on the clipboard, and report what was read.
    ReadClipboard { caption: String },
    /// Answer the open ask.
    Reply(PermissionAskReply),
    /// List the workspace for the menu of a token, and report the listing.
    OpenMenu { row: usize, token: AtToken },
    /// Walk a query of the open menu, and report where the walk ended.
    WalkMenu(QueryWalk),
    /// Look in directories in order until the menu goes to one.
    SearchMenu { dirs: Vec<FilePath> },
    /// Move the browser of the open menu, and report what it shows.
    Browse(BrowserMove),
}

pub enum Answer {
    Selected(Seq<char>),
    Cancelled,
}

pub open spec fn answer(r: PermissionAskReply) -> Answer {
    match r {
        PermissionAskReply::Selected(id) => Answer::Selected(id@),
        PermissionAskReply::Cancelled => Answer::Cancelled,
    }
}

pub enum Deed {
    Send(bus::Order),
    Interrupt,
    Copy(Seq<char>),
    SaveSettings(runtime::Preferences),
    SaveModes(runtime::ModeFacts),
    StoreKey(Seq<char>),
    DeleteKey,
    ReadImage { path: Seq<char>, media_type: Seq<char>, name: Seq<char>, caption: Seq<char> },
    ReadClipboard { caption: Seq<char> },
    Reply(Answer),
    OpenMenu { row: int, token: file_ref::Token },
    WalkMenu(file_ref::Walk),
    SearchMenu { dirs: Seq<Seq<Seq<char>>> },
    Browse(BrowserMove),
}

impl View for Effect {
    type V = Deed;

    open spec fn view(&self) -> Deed {
        match *self {
            Effect::Send(cmd) => Deed::Send(cmd@),
            Effect::Interrupt => Deed::Interrupt,
            Effect::Copy(text) => Deed::Copy(text@),
            Effect::SaveSettings(s) => Deed::SaveSettings(s@),
            Effect::SaveModes(m) => Deed::SaveModes(m@),
            Effect::StoreKey(k) => Deed::StoreKey(k@),
            Effect::DeleteKey => Deed::DeleteKey,
            Effect::ReadImage { path, media_type, name, caption } => Deed::ReadImage {
                path: path@,
                media_type: media_type@,
                name: name@,
                caption: caption@,
            },
            Effect::ReadClipboard { caption } => Deed::ReadClipboard { caption: caption@ },
            Effect::Reply(r) => Deed::Reply(answer(r)),
            Effect::OpenMenu { row, token } => Deed::OpenMenu { row: row as int, token: token@ },
            Effect::WalkMenu(w) => Deed::WalkMenu(w@),
            Effect::SearchMenu { dirs } => Deed::SearchMenu { dirs: file_ref::paths(dirs@) },
            Effect::Browse(m) => Deed::Browse(m),
        }
    }
}

/// The interface's side of the session: the effects not yet performed, and
/// whether a driver is attached that a turn can be cancelled at.
#[derive(Debug, Clone, PartialEq, Eq)]
pub struct Controller {
    pub effects: Vec<Effect>,
    pub attached: bool,
}

#[verifier::ext_equal]
pub struct Desk {
    pub effects: Seq<Deed>,
    pub attached: bool,
}

impl View for Controller {
    type V = Desk;

    open spec fn view(&self) -> Desk {
        Desk { effects: self.effects@.map_values(|e: Effect| e@), attached: self.attached }
    }
}

impl Desk {
    pub open spec fn with(self, deed: Deed) -> Desk {
        Desk { effects: self.effects.push(deed), ..self }
    }

    pub open spec fn sent(self, order: bus::Order) -> Desk {
        self.with(Deed::Send(order))
    }

    /// The running turn cancelled, where there is a driver to cancel it at.
    pub open spec fn interrupted(self) -> Desk {
        if self.attached {
            self.with(Deed::Interrupt)
        } else {
            self
        }
    }
}

impl Controller {
    pub fn new(attached: bool) -> (r: Self)
        ensures
            r@ == (Desk { effects: Seq::empty(), attached }),
    {
        let r = Controller { effects: Vec::new(), attached };
        assert(r@.effects == Seq::<Deed>::empty());
        r
    }

    pub fn push(&mut self, effect: Effect)
        ensures
            final(self)@ == old(self)@.with(effect@),
    {
        let ghost deed = effect@;
        self.effects.push(effect);
        assert(self@.effects == old(self)@.effects.push(deed));
    }

    pub fn send(&mut self, cmd: Cmd)
        ensures
            final(self)@ == old(self)@.sent(cmd@),
    {
        self.push(Effect::Send(cmd));
    }

    /// Cancel the running turn. Tells whether there was a driver to cancel it
    /// at.
    pub fn interrupt_now(&mut self) -> (r: bool)
        ensures
            final(self)@ == old(self)@.interrupted(),
            r == old(self)@.attached,
    {
        if self.attached {
            self.push(Effect::Interrupt);
            return true;
        }
        false
    }

    /// Hand the effects out.
    pub fn take(&mut self) -> (r: Vec<Effect>)
        ensures
            r@ == old(self).effects@,
            final(self)@ == (Desk { effects: Seq::empty(), ..old(self)@ }),
    {
        let mut out: Vec<Effect> = Vec::new();
        std::mem::swap(&mut out, &mut self.effects);
        assert(self@.effects == Seq::<Deed>::empty());
        out
    }
}

/// The text of a prompt's blocks; the driver takes no images.
pub open spec fn text_of(blocks: Seq<bus::Block>) -> Seq<char>
    decreases blocks.len(),
{
    if blocks.len() == 0 {
        Seq::empty()
    } else {
        match blocks.last() {
            bus::Block::Text(t) => text_of(blocks.drop_last()) + t,
            bus::Block::Image(_) => text_of(blocks.drop_last()),
        }
    }
}

pub fn prompt_text(blocks: &Vec<PromptBlock>) -> (r: String)
    ensures
        r@ == text_of(bus::view_blocks(blocks@)),
{
    let ghost all = bus::view_blocks(blocks@);
    let mut out = String::new();
    let mut i: usize = 0;
    assert(all.take(0) == Seq::<bus::Block>::empty());
    while i < blocks.len()
        invariant
            i <= blocks.len(),
            all == bus::view_blocks(blocks@),
            out@ == text_of(all.take(i as int)),
        decreases blocks.len() - i,
    {
        assert(all.take(i + 1).drop_last() == all.take(i as int));
        assert(all.take(i + 1).last() == blocks@[i as int]@);
        match &blocks[i] {
            PromptBlock::Text(t) => {
                out.append(t.as_str());
            },
            PromptBlock::Image(_) => {},
        }
        i += 1;
    }
    assert(all.take(all.len() as int) == all);
    out
}

/// Where a command goes.
#[derive(Debug, Clone, PartialEq, Eq)]
pub enum Route {
    /// Through the driver's command channel.
    Driver(DriverCmd),
    /// To the running turn.
    Steer(SteerRequest),
    /// Answered on the spot.
    Answered(CtlEvent),
    /// Nowhere: it is done already, or the driver keeps no queue.
    Done,
    /// The driver is to shut down, and the command loop to end.
    Shutdown,
}

/// The efforts offered for every model.
pub open spec fn stock_efforts() -> Seq<Seq<char>> {
    seq!["off"@, "low"@, "high"@, "max"@]
}

/// Whether `r` is the way of a command to the driver. `stamp` names a new
/// session.
pub open spec fn routed(cmd: Cmd, stamp: Seq<char>, r: Route) -> bool {
    match cmd {
        Cmd::Prompt { session_id, text } => r == Route::Driver(
            DriverCmd::PromptForSession { session_id, text },
        ),
        Cmd::PromptImages { session_id, blocks } => {
            &&& r matches Route::Driver(DriverCmd::PromptForSession { session_id: s, text: t })
            &&& s == session_id
            &&& t@ == text_of(bus::view_blocks(blocks@))
        },
        Cmd::Queue { .. } => r is Done,
        Cmd::UpdateQueue { .. } => r is Done,
        Cmd::Steer { session_id, message_id, text } => r == Route::Steer(
            SteerRequest { session_id, message_id, text },
        ),
        Cmd::SteerImages { session_id, message_id, blocks } => {
            &&& r matches Route::Steer(s)
            &&& s.session_id == session_id
            &&& s.message_id == message_id
            &&& s.text@ == text_of(bus::view_blocks(blocks@))
        },
        Cmd::Interrupt { .. } => r is Done,
        Cmd::SelectModel { model, effort, .. } => r == Route::Driver(
            DriverCmd::SetModel { model, effort },
        ),
        Cmd::FetchCatalog => r == Route::Driver(DriverCmd::FetchCatalog),
        Cmd::FetchSkills => r == Route::Driver(DriverCmd::FetchSkills),
        Cmd::FetchEfforts { .. } => {
            &&& r matches Route::Answered(CtlEvent::Efforts { efforts, default })
            &&& crate::text::views(efforts@) == stock_efforts()
            &&& crate::text::view_opt(default) == Some("high"@)
        },
        Cmd::SetPermission { preset, .. } => r == Route::Driver(
            DriverCmd::SetPermission { preset },
        ),
        Cmd::SetApiKey { key } => r == Route::Driver(DriverCmd::SetApiKey { key }),
        Cmd::NewSession => {
            &&& r matches Route::Driver(DriverCmd::NewSession { session_id })
            &&& session_id@ == "aby-"@ + stamp
        },
        Cmd::ListSessions { prefix } => r == Route::Driver(DriverCmd::ListSessions { prefix }),
        Cmd::LoadSession { session_id } => r == Route::Driver(DriverCmd::Resume { session_id }),
        Cmd::Compact => r == Route::Driver(DriverCmd::Compact),
        Cmd::Goal { arg } => r == Route::Driver(DriverCmd::Goal { arg }),
        Cmd::Shutdown => r is Shutdown,
    }
}

/// The way of a command to the driver. `stamp` names a new session.
pub fn route(cmd: Cmd, stamp: &str) -> (r: Route)
    ensures
        routed(cmd, stamp@, r),
{
    match cmd {
        Cmd::Prompt { session_id, text } => Route::Driver(
            DriverCmd::PromptForSession { session_id, text },
        ),
        Cmd::PromptImages { session_id, blocks } => Route::Driver(
            DriverCmd::PromptForSession { session_id, text: prompt_text(&blocks) },
        ),
        Cmd::Queue { .. } => Route::Done,
        Cmd::UpdateQueue { .. } => Route::Done,
        Cmd::Steer { session_id, message_id, text } => Route::Steer(
            SteerRequest { session_id, message_id, text },
        ),
        Cmd::SteerImages { session_id, message_id, blocks } => Route::Steer(
            SteerRequest { session_id, message_id, text: prompt_text(&blocks) },
        ),
        Cmd::Interrupt { .. } => Route::Done,
        Cmd::SelectModel { model, effort, .. } => Route::Driver(
            DriverCmd::SetModel { model, effort },
        ),
        Cmd::FetchCatalog => Route::Driver(DriverCmd::FetchCatalog),
        Cmd::FetchSkills => Route::Driver(DriverCmd::FetchSkills),
        Cmd::FetchEfforts { .. } => {
            let efforts = vec![
                String::from_str("off"),
                String::from_str("low"),
                String::from_str("high"),
                String::from_str("max"),
            ];
            assert(crate::text::views(efforts@) == stock_efforts());
            Route::Answered(
                CtlEvent::Efforts { efforts, default: Some(String::from_str("high")) },
            )
        },
        Cmd::SetPermission { preset, .. } => Route::Driver(DriverCmd::SetPermission { preset }),
        Cmd::SetApiKey { key } => Route::Driver(DriverCmd::SetApiKey { key }),
        Cmd::NewSession => Route::Driver(DriverCmd::NewSession { session_id: cat("aby-", stamp) }),
        Cmd::ListSessions { prefix } => Route::Driver(DriverCmd::ListSessions { prefix }),
        Cmd::LoadSession { session_id } => Route::Driver(DriverCmd::Resume { session_id }),
        Cmd::Compact => Route::Driver(DriverCmd::Compact),
        Cmd::Goal { arg } => Route::Driver(DriverCmd::Goal { arg }),
        Cmd::Shutdown => Route::Shutdown,
    }
}

// --- the driver's events ------------------------------------------------

pub open spec fn task(todo: Todo) -> PlanItem {
    PlanItem {
        content: todo.content,
        status: match todo.status {
            TodoStatus::Pending => PlanStatus::Pending,
            TodoStatus::InProgress => PlanStatus::InProgress,
            TodoStatus::Completed => PlanStatus::Completed,
        },
    }
}

fn tasks(todos: &Vec<Todo>) -> (r: Vec<PlanItem>)
    ensures
        r@ == todos@.map_values(|t: Todo| task(t)),
{
    let mut out: Vec<PlanItem> = Vec::new();
    let mut i: usize = 0;
    while i < todos.len()
        invariant
            i <= todos.len(),
            out@ == todos@.take(i as int).map_values(|t: Todo| task(t)),
        decreases todos.len() - i,
    {
        let status = match todos[i].status {
            TodoStatus::Pending => PlanStatus::Pending,
            TodoStatus::InProgress => PlanStatus::InProgress,
            TodoStatus::Completed => PlanStatus::Completed,
        };
        out.push(PlanItem { content: todos[i].content.clone(), status });
        i += 1;
    }
    assert(todos@.take(todos@.len() as int) == todos@);
    out
}

/// A fact of the driver in the interface's words: the same fact, field by
/// field.
pub open spec fn same_fact(fact: SessionFact, ui: UiEvent) -> bool {
    match fact {
        SessionFact::SessionStatus { session, running } => ui == (UiEvent::SessionStatus {
            session,
            running,
        }),
        SessionFact::TurnStart { session, turn } => ui == (UiEvent::TurnStart { session, turn }),
        SessionFact::TurnEnd { session, kind } => ui == (UiEvent::TurnEnd { session, kind }),
        SessionFact::TextDelta { session, text } => ui == (UiEvent::TextDelta { session, text }),
        SessionFact::ReasoningDelta { session, text } => ui == (UiEvent::ReasoningDelta {
            session,
            text,
        }),
        SessionFact::AssistantFinal { session, text, model } => ui == (UiEvent::AssistantFinal {
            session,
            text,
            model,
        }),
        SessionFact::ToolCall { session, call_id, name, arguments } => ui == (UiEvent::ToolCall {
            session,
            call_id,
            name,
            arguments,
        }),
        SessionFact::ToolCallDelta { session, call_id, name, delta } => ui
            == (UiEvent::ToolCallDelta { session, call_id, name, delta }),
        SessionFact::ToolStarted { session, call_id, name } => ui == (UiEvent::ToolStarted {
            session,
            call_id,
            name,
        }),
        SessionFact::ToolResult { session, call_id, is_error, text, error } => ui
            == (UiEvent::ToolResult { session, call_id, is_error, text, error }),
        SessionFact::Plan { session, summary, todos, active, active_extra, completed, total } => {
            &&& ui matches UiEvent::Plan {
                session: s,
                summary: m,
                todos: t,
                active: a,
                active_extra: x,
                completed: c,
                total: n,
            }
            &&& s == session && m == summary && a == active && x == active_extra && c == completed
                && n == total
            &&& t@ == todos@.map_values(|t: Todo| task(t))
        },
        SessionFact::SubagentStarted { parent, child, label } => ui == (UiEvent::SubagentStarted {
            parent,
            child,
            label,
        }),
        SessionFact::SubagentFinished { child } => ui == (UiEvent::SubagentFinished { child }),
        SessionFact::Usage { session, input, output, cached, reasoning } => ui == (UiEvent::Usage {
            session,
            input,
            output,
            cached,
            reasoning,
        }),
        SessionFact::UserMessage { session, text } => ui == (UiEvent::UserMessage {
            session,
            text,
        }),
        SessionFact::SandboxMode { session, mode } => ui == (UiEvent::SandboxMode {
            session,
            mode,
        }),
        SessionFact::PermissionPreset { session, preset } => ui == (UiEvent::PermissionPreset {
            session,
            preset,
        }),
        SessionFact::ApprovalPolicy { session, policy } => ui == (UiEvent::ApprovalPolicy {
            session,
            policy,
        }),
    }
}

/// A fact of the driver in the interface's words.
pub fn translate_ui(fact: SessionFact) -> (r: UiEvent)
    ensures
        same_fact(fact, r),
{
    match fact {
        SessionFact::SessionStatus { session, running } => UiEvent::SessionStatus {
            session,
            running,
        },
        SessionFact::TurnStart { session, turn } => UiEvent::TurnStart { session, turn },
        SessionFact::TurnEnd { session, kind } => UiEvent::TurnEnd { session, kind },
        SessionFact::TextDelta { session, text } => UiEvent::TextDelta { session, text },
        SessionFact::ReasoningDelta { session, text } => UiEvent::ReasoningDelta { session, text },
        SessionFact::AssistantFinal { session, text, model } => UiEvent::AssistantFinal {
            session,
            text,
            model,
        },
        SessionFact::ToolCall { session, call_id, name, arguments } => UiEvent::ToolCall {
            session,
            call_id,
            name,
            arguments,
        },
        SessionFact::ToolCallDelta { session, call_id, name, delta } => UiEvent::ToolCallDelta {
            session,
            call_id,
            name,
            delta,
        },
        SessionFact::ToolStarted { session, call_id, name } => UiEvent::ToolStarted {
            session,
            call_id,
            name,
        },
        SessionFact::ToolResult { session, call_id, is_error, text, error } => UiEvent::ToolResult {
            session,
            call_id,
            is_error,
            text,
            error,
        },
        SessionFact::Plan { session, summary, todos, active, active_extra, completed, total } => {
            UiEvent::Plan {
                session,
                summary,
                todos: tasks(&todos),
                active,
                active_extra,
                completed,
                total,
            }
        },
        SessionFact::SubagentStarted { parent, child, label } => UiEvent::SubagentStarted {
            parent,
            child,
            label,
        },
        SessionFact::SubagentFinished { child } => UiEvent::SubagentFinished { child },
        SessionFact::Usage { session, input, output, cached, reasoning } => UiEvent::Usage {
            session,
            input,
            output,
            cached,
            reasoning,
        },
        SessionFact::UserMessage { session, text } => UiEvent::UserMessage { session, text },
        SessionFact::SandboxMode { session, mode } => UiEvent::SandboxMode { session, mode },
        SessionFact::PermissionPreset { session, preset } => UiEvent::PermissionPreset {
            session,
            preset,
        },
        SessionFact::ApprovalPolicy { session, policy } => UiEvent::ApprovalPolicy {
            session,
            policy,
        },
    }
}

pub open spec fn model_row(m: ModelRow) -> CatalogModel {
    CatalogModel { provider: m.provider, id: m.id, name: m.name, vision: m.vision }
}

pub open spec fn session_row(s: SessionRow) -> SessionListItem {
    SessionListItem { id: s.id, title: s.title, updated_at: s.updated_at }
}

pub open spec fn skill_row(s: SkillRow) -> SkillInfo {
    SkillInfo {
        name: s.name,
        description: s.description,
        input_hint: s.input_hint,
        source: Some(s.path),
    }
}

fn model_rows(models: &Vec<ModelRow>) -> (r: Vec<CatalogModel>)
    ensures
        r@ == models@.map_values(|m: ModelRow| model_row(m)),
{
    let mut out: Vec<CatalogModel> = Vec::new();
    let mut i: usize = 0;
    while i < models.len()
        invariant
            i <= models.len(),
            out@ == models@.take(i as int).map_values(|m: ModelRow| model_row(m)),
        decreases models.len() - i,
    {
        let m = &models[i];
        out.push(
            CatalogModel {
                provider: m.provider.clone(),
                id: m.id.clone(),
                name: m.name.clone(),
                vision: m.vision,
            },
        );
        i += 1;
    }
    assert(models@.take(models@.len() as int) == models@);
    out
}

fn session_rows(rows: &Vec<SessionRow>) -> (r: Vec<SessionListItem>)
    ensures
        r@ == rows@.map_values(|s: SessionRow| session_row(s)),
{
    let mut out: Vec<SessionListItem> = Vec::new();
    let mut i: usize = 0;
    while i < rows.len()
        invariant
            i <= rows.len(),
            out@ == rows@.take(i as int).map_values(|s: SessionRow| session_row(s)),
        decreases rows.len() - i,
    {
        let s = &rows[i];
        out.push(
            SessionListItem {
                id: s.id.clone(),
                title: copy_opt(&s.title),
                updated_at: copy_opt(&s.updated_at),
            },
        );
        i += 1;
    }
    assert(rows@.take(rows@.len() as int) == rows@);
    out
}

fn skill_rows(rows: &Vec<SkillRow>) -> (r: Vec<SkillInfo>)
    ensures
        r@ == rows@.map_values(|s: SkillRow| skill_row(s)),
{
    let mut out: Vec<SkillInfo> = Vec::new();
    let mut i: usize = 0;
    while i < rows.len()
        invariant
            i <= rows.len(),
            out@ == rows@.take(i as int).map_values(|s: SkillRow| skill_row(s)),
        decreases rows.len() - i,
    {
        let s = &rows[i];
        out.push(
            SkillInfo {
                name: s.name.clone(),
                description: s.description.clone(),
                input_hint: copy_opt(&s.input_hint),
                source: Some(s.path.clone()),
            },
        );
        i += 1;
    }
    assert(rows@.take(rows@.len() as int) == rows@);
    out
}

/// A report of the driver in the interface's words, `Ready` apart.
pub open spec fn same_report(report: DriverReport, ctl: CtlEvent) -> bool {
    match report {
        DriverReport::Starting { runtime } => ctl == (CtlEvent::Starting { runtime }),
        DriverReport::Ready { server } => ctl == (CtlEvent::Ready { server }),
        DriverReport::PromptQueued { message_id } => ctl == (CtlEvent::PromptQueued {
            message_id,
        }),
        DriverReport::SteerSettled { message_id, deferred } => ctl == (CtlEvent::SteerSettled {
            message_id,
            deferred,
        }),
        DriverReport::SteerAdmitted { message_ids } => ctl == (CtlEvent::SteerAdmitted {
            message_ids,
        }),
        DriverReport::Error(err) => ctl == CtlEvent::Error(err),
        DriverReport::CancelRequested => ctl is CancelRequested,
        DriverReport::Interrupted => ctl is Interrupted,
        DriverReport::TuiOpDone(m) => ctl == CtlEvent::TuiOpDone(m),
        DriverReport::TuiOpFailed(m) => ctl == CtlEvent::TuiOpFailed(m),
        DriverReport::SessionSwitchFailed(m) => ctl == CtlEvent::SessionSwitchFailed(m),
        DriverReport::SessionBound { session_id, notice, model, effort } => ctl
            == (CtlEvent::SessionBound { session_id, notice, model, effort }),
        DriverReport::Efforts { efforts, default } => ctl == (CtlEvent::Efforts {
            efforts,
            default,
        }),
        DriverReport::Catalog { models } => {
            &&& ctl matches CtlEvent::Catalog { models: m }
            &&& m@ == models@.map_values(|m: ModelRow| model_row(m))
        },
        DriverReport::SessionList { sessions, prefix } => {
            &&& ctl matches CtlEvent::SessionList { sessions: s, prefix: p }
            &&& p == prefix
            &&& s@ == sessions@.map_values(|s: SessionRow| session_row(s))
        },
        DriverReport::Skills { skills } => {
            &&& ctl matches CtlEvent::Skills { skills: s }
            &&& s@ == skills@.map_values(|s: SkillRow| skill_row(s))
        },
    }
}

fn translate_report(report: DriverReport) -> (r: CtlEvent)
    ensures
        same_report(report, r),
{
    match report {
        DriverReport::Starting { runtime } => CtlEvent::Starting { runtime },
        DriverReport::Ready { server } => CtlEvent::Ready { server },
        DriverReport::PromptQueued { message_id } => CtlEvent::PromptQueued { message_id },
        DriverReport::SteerSettled { message_id, deferred } => CtlEvent::SteerSettled {
            message_id,
            deferred,
        },
        DriverReport::SteerAdmitted { message_ids } => CtlEvent::SteerAdmitted { message_ids },
        DriverReport::Error(err) => CtlEvent::Error(err),
        DriverReport::CancelRequested => CtlEvent::CancelRequested,
        DriverReport::Interrupted => CtlEvent::Interrupted,
        DriverReport::TuiOpDone(m) => CtlEvent::TuiOpDone(m),
        DriverReport::TuiOpFailed(m) => CtlEvent::TuiOpFailed(m),
        DriverReport::SessionSwitchFailed(m) => CtlEvent::SessionSwitchFailed(m),
        DriverReport::SessionBound { session_id, notice, model, effort } => CtlEvent::SessionBound {
            session_id,
            notice,
            model,
            effort,
        },
        DriverReport::Efforts { efforts, default } => CtlEvent::Efforts { efforts, default },
        DriverReport::Catalog { models } => CtlEvent::Catalog { models: model_rows(&models) },
        DriverReport::SessionList { sessions, prefix } => CtlEvent::SessionList {
            sessions: session_rows(&sessions),
            prefix,
        },
        DriverReport::Skills { skills } => CtlEvent::Skills { skills: skill_rows(&skills) },
    }
}

/// The driver's event in the interface's words. A driver that is ready can
/// also load sessions, which is said with it.
pub fn translate_backend(event: DriverEvent) -> (r: Vec<AppEvent>)
    ensures
        match event {
            DriverEvent::Ui(fact) => {
                &&& r@.len() == 1
                &&& r@[0] matches AppEvent::Ui(ui)
                &&& same_fact(fact, ui)
            },
            DriverEvent::Ctl(report) => {
                &&& r@.len() == if report is Ready {
                    2int
                } else {
                    1int
                }
                &&& report is Ready ==> r@[1] == AppEvent::Ctl(
                    CtlEvent::AgentCaps { load_session: true },
                )
                &&& r@[0] matches AppEvent::Ctl(ctl)
                &&& same_report(report, ctl)
            },
            DriverEvent::PermissionAsk { title, options } => r@ == seq![
                AppEvent::PermissionAsk { title, options },
            ],
        },
{
    match event {
        DriverEvent::Ui(fact) => {
            let ui = translate_ui(fact);
            let mut out: Vec<AppEvent> = Vec::new();
            out.push(AppEvent::Ui(ui));
            out
        },
        DriverEvent::Ctl(report) => {
            let ready = matches!(report, DriverReport::Ready { .. });
            let ctl = translate_report(report);
            let mut out: Vec<AppEvent> = Vec::new();
            out.push(AppEvent::Ctl(ctl));
            if ready {
                out.push(AppEvent::Ctl(CtlEvent::AgentCaps { load_session: true }));
            }
            out
        },
        DriverEvent::PermissionAsk { title, options } => {
            let mut out: Vec<AppEvent> = Vec::new();
            out.push(AppEvent::PermissionAsk { title, options });
            out
        },
    }
}

// --- what is left to be done --------------------------------------------------

/// What cancels a turn.
pub open spec fn cancels(deed: Deed) -> bool {
    deed is Interrupt || (deed matches Deed::Send(order) && order is Interrupt)
}

/// Nothing that is left to be done cancels a turn.
#[verifier::opaque]
pub open spec fn calm(desk: Desk) -> bool {
    forall|i: int| 0 <= i < desk.effects.len() ==> !cancels(#[trigger] desk.effects[i])
}

/// How many answers are left to be given.
#[verifier::opaque]
pub open spec fn answers(effects: Seq<Deed>) -> nat
    decreases effects.len(),
{
    if effects.len() == 0 {
        0
    } else {
        answers(effects.drop_last()) + if effects.last() is Reply {
            1nat
        } else {
            0
        }
    }
}

/// One more thing to be done.
pub broadcast proof fn calm_with(desk: Desk, deed: Deed)
    requires
        calm(desk),
        !cancels(deed),
    ensures
        calm(#[trigger] desk.with(deed)),
{
    reveal(calm);
}

/// One more thing to be done.
pub broadcast proof fn answers_with(desk: Desk, deed: Deed)
    ensures
        answers((#[trigger] desk.with(deed)).effects) == answers(desk.effects)
            + if deed is Reply {
            1nat
        } else {
            0
        },
{
    reveal(answers);
    assert(desk.with(deed).effects.drop_last() == desk.effects);
}

pub broadcast group group_desk {
    calm_with,
    answers_with,
}

/// The text of a prompt is that of its text blocks, one after the other in
/// order: that of two runs of blocks is that of the first and then that of the
/// second, a text block gives its text, and an image gives none.
pub proof fn texts_are_joined_in_order(a: Seq<bus::Block>, b: Seq<bus::Block>, t: Seq<char>, i: bus::Part)
    ensures
        text_of(a + b) == text_of(a) + text_of(b),
        text_of(a + b).len() == text_of(a).len() + text_of(b).len(),
        text_of(seq![bus::Block::Text(t)]) == t,
        text_of(seq![bus::Block::Image(i)]).len() == 0,
        text_of(Seq::empty()).len() == 0,
    decreases b.len(),
{
    reveal_with_fuel(text_of, 2);
    assert(seq![bus::Block::Text(t)].drop_last() == Seq::<bus::Block>::empty());
    assert(seq![bus::Block::Image(i)].drop_last() == Seq::<bus::Block>::empty());
    assert(Seq::<char>::empty() + t == t);
    if b.len() == 0 {
        assert(a + b == a);
        assert(text_of(a) + text_of(b) == text_of(a));
    } else {
        texts_are_joined_in_order(a, b.drop_last(), t, i);
        assert((a + b).drop_last() == a + b.drop_last());
        assert((a + b).last() == b.last());
        match b.last() {
            bus::Block::Text(x) => {
                assert(text_of(a) + text_of(b.drop_last()) + x == text_of(a) + (text_of(
                    b.drop_last(),
                ) + x));
            },
            bus::Block::Image(_) => {},
        }
    }
}

/// Every text block is found whole in the text of its prompt, behind that of
/// the blocks before it.
pub proof fn every_text_block_is_in_the_text(blocks: Seq<bus::Block>, k: int)
    requires
        0 <= k < blocks.len(),
        blocks[k] is Text,
    ensures
        ({
            let at = text_of(blocks.take(k)).len() as int;
            let t = blocks[k]->Text_0;
            &&& at + t.len() <= text_of(blocks).len()
            &&& text_of(blocks).subrange(at, at + t.len()) == t
        }),
{
    let t = blocks[k]->Text_0;
    let none = bus::Part {
        data: Seq::empty(),
        media_type: Seq::empty(),
        name: Seq::empty(),
        path: Seq::empty(),
    };
    let head = blocks.take(k);
    let rest = blocks.skip(k + 1);
    assert(blocks == head + seq![blocks[k]] + rest);
    assert(seq![blocks[k]] == seq![bus::Block::Text(t)]);
    texts_are_joined_in_order(head + seq![blocks[k]], rest, t, none);
    texts_are_joined_in_order(head, seq![blocks[k]], t, none);
    let at = text_of(head).len() as int;
    assert(text_of(blocks).subrange(at, at + t.len()) == t);
}

} // verus!
