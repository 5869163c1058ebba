//! What stands over the chat: the checklist, the cards, the open question, the
//! lists, and how keys and the wheel move in them.

use vstd::prelude::*;
use vstd::string::*;
use crate::app::{App, Scene};
use crate::app::session;
use crate::app::state::{
    Ask, Chat, ChatState, Child, Line, PanelState, Panels, PermissionAskOverlay, SubagentView,
};
use crate::bus;
use crate::bus::{
    permission_ask_default_sel, Cmd, Order, PermissionAskOption, PermissionAskReply,
};
use crate::controller;
use crate::controller::{Answer, Deed, Effect};
use crate::input::keymap;
use crate::input::keymap::{classify, Action, KeyCtx};
use crate::input::keys::{KeyCode, KeyEvent, KeyModifiers};
use crate::picker;
use crate::picker::{
    find_row_or_first, scroll_to, step_down, step_up, Card, Choice, Picker, PickerItem, PickerKind,
    Row, TodoDialog,
};
use crate::text;
use crate::text::{cat3, same};
use crate::transcript::NoticeLevel;

verus! {

/// How far up the chat stands once it is scrolled by `delta` lines: counted as
/// a signed number of sixty-four bits, and never below the tail.
pub open spec fn chat_scrolled(up: usize, delta: int) -> int {
    let cur = if up <= i64::MAX {
        up as int
    } else {
        up - 0x1_0000_0000_0000_0000
    };
    let sum = cur + delta;
    if 0 <= sum <= i64::MAX {
        sum % (usize::MAX + 1)
    } else {
        0
    }
}

fn scroll_chat(up: usize, delta: i64) -> (r: usize)
    ensures
        r == chat_scrolled(up, delta as int),
{
    let cur: i128 = if up as i128 <= i64::MAX as i128 {
        up as i128
    } else {
        up as i128 - 0x1_0000_0000_0000_0000
    };
    let sum: i128 = cur + delta as i128;
    if sum < 0 || sum > i64::MAX as i128 {
        return 0;
    }
    let span: i128 = usize::MAX as i128 + 1;
    assert(0 <= sum % span < span) by (nonlinear_arith)
        requires
            sum >= 0,
            span > 0,
    ;
    (sum % span) as usize
}

impl PanelState {
    pub open spec fn todo_at(self, scroll: usize) -> PanelState {
        PanelState { todo: Some(TodoDialog { scroll }), ..self }
    }

    pub open spec fn card_at(self, scroll: usize) -> PanelState {
        PanelState { card: Some(Card { scroll, ..self.card->0 }), ..self }
    }

    pub open spec fn ask_at(self, sel: usize) -> PanelState {
        PanelState { ask: Some(Ask { sel, ..self.ask->0 }), ..self }
    }
}

impl Panels {
    fn set_card_scroll(&mut self, scroll: usize)
        requires
            old(self)@.card is Some,
        ensures
            final(self)@ == old(self)@.card_at(scroll),
    {
        match &mut self.view_overlay {
            Some(v) => {
                v.scroll = scroll;
            },
            None => {},
        }
    }

    fn set_ask_sel(&mut self, sel: usize)
        requires
            old(self)@.ask is Some,
        ensures
            final(self)@ == old(self)@.ask_at(sel),
    {
        match &mut self.permission_ask {
            Some(a) => {
                a.sel = sel;
            },
            None => {},
        }
    }

    fn walk_picker(&mut self, code: KeyCode, page: usize)
        ensures
            final(self)@ == (PanelState {
                picker: match old(self)@.picker {
                    Some(p) => Some(p.walked(code, page as int)),
                    None => None,
                },
                ..old(self)@
            }),
    {
        match &mut self.picker {
            Some(p) => {
                p.walk(code, page);
            },
            None => {},
        }
    }

    fn wheel_picker(&mut self, down: bool, n: usize)
        ensures
            final(self)@ == (PanelState {
                picker: match old(self)@.picker {
                    Some(p) => Some(p.wheeled(down, n as int)),
                    None => None,
                },
                ..old(self)@
            }),
    {
        match &mut self.picker {
            Some(p) => {
                p.wheel(down, n);
            },
            None => {},
        }
    }
}

impl ChatState {
    /// Another transcript on show: at its tail, nothing selected, and the
    /// place of the last jump forgotten.
    pub open spec fn turned(self) -> ChatState {
        ChatState {
            scroll_up: 0,
            sel: None,
            jump_cell: None,
            flash: None,
            flash_lines: None,
            ..self
        }
    }
}

impl Chat {
    fn turn(&mut self)
        ensures
            final(self)@ == old(self)@.turned(),
    {
        self.scroll_up = 0;
        self.sel = None;
        self.prompt_jump_cell = None;
        self.prompt_flash = None;
        self.prompt_flash_lines = None;
    }
}

/// The keys that move a highlight.
pub open spec fn walks(code: KeyCode) -> bool {
    code == KeyCode::Up || code == KeyCode::Down || code == KeyCode::PageUp || code
        == KeyCode::PageDown || code == KeyCode::Home || code == KeyCode::End
}

impl Scene {
    pub open spec fn paneled(self, panels: PanelState) -> Scene {
        Scene { panels, ..self }
    }

    /// The chat scrolled.
    #[verifier::opaque]
    pub open spec fn scrolled(self, delta: int) -> Scene {
        self.chatting(
            ChatState { scroll_up: chat_scrolled(self.chat.scroll_up, delta) as usize, ..self.chat },
        ).redrawn()
    }

    /// The checklist opened, where there is one.
    #[verifier::opaque]
    pub open spec fn todo_opened(self) -> Scene {
        if self.panels.plan is None {
            self
        } else {
            self.paneled(self.panels.todo_at(0)).redrawn()
        }
    }

    #[verifier::opaque]
    pub open spec fn todo_moved(self, down: bool, n: int) -> Scene {
        match self.panels.todo {
            Some(d) => self.paneled(
                self.panels.todo_at(picker::scrolled(d.scroll, down, n)),
            ).redrawn(),
            None => self,
        }
    }

    #[verifier::opaque]
    pub open spec fn todo_set(self, scroll: usize) -> Scene {
        if self.panels.todo is Some {
            self.paneled(self.panels.todo_at(scroll)).redrawn()
        } else {
            self
        }
    }

    /// A key over the checklist: the arrows scroll it, esc and enter close it.
    #[verifier::opaque]
    pub open spec fn todo_keyed(self, key: KeyEvent) -> Scene {
        match key.code {
            KeyCode::Up => self.todo_moved(false, 1),
            KeyCode::Down => self.todo_moved(true, 1),
            KeyCode::PageUp => self.todo_moved(false, 5),
            KeyCode::PageDown => self.todo_moved(true, 5),
            KeyCode::Home => self.todo_set(0),
            KeyCode::End => self.todo_set(usize::MAX),
            _ => if (key.code == KeyCode::Esc || key.code == KeyCode::Enter) && key.modifiers
                == KeyModifiers::empty() {
                self.paneled(PanelState { todo: None, ..self.panels }).redrawn()
            } else {
                self
            },
        }
    }

    #[verifier::opaque]
    pub open spec fn card_moved(self, down: bool, n: int) -> Scene {
        match self.panels.card {
            Some(v) => self.paneled(
                self.panels.card_at(picker::scrolled(v.scroll, down, n)),
            ).redrawn(),
            None => self,
        }
    }

    #[verifier::opaque]
    pub open spec fn card_set(self, scroll: usize) -> Scene {
        if self.panels.card is Some {
            self.paneled(self.panels.card_at(scroll)).redrawn()
        } else {
            self
        }
    }

    /// A key over a card: the arrows scroll it whatever is held with them, esc
    /// and enter close it.
    #[verifier::opaque]
    pub open spec fn card_keyed(self, key: KeyEvent) -> Scene {
        match key.code {
            KeyCode::Up => self.card_moved(false, 1),
            KeyCode::Down => self.card_moved(true, 1),
            KeyCode::PageUp => self.card_moved(false, 5),
            KeyCode::PageDown => self.card_moved(true, 5),
            KeyCode::Home => self.card_set(0),
            KeyCode::End => self.card_set(usize::MAX),
            _ => if (key.code == KeyCode::Esc || key.code == KeyCode::Enter) && key.modifiers
                == KeyModifiers::empty() {
                self.paneled(PanelState { card: None, ..self.panels })
            } else {
                self
            },
        }
    }

    /// A question put. One still open is given up.
    #[verifier::opaque]
    pub open spec fn asked(self, title: Seq<char>, options: Seq<PermissionAskOption>) -> Scene {
        let s = if self.panels.ask is Some {
            self.done(Deed::Reply(Answer::Cancelled))
        } else {
            self
        };
        s.paneled(
            PanelState {
                ask: Some(Ask { title, sel: bus::default_option(options) as usize, options }),
                ..s.panels
            },
        ).redrawn()
    }

    /// The open question answered.
    #[verifier::opaque]
    pub open spec fn answered(self, answer: Answer) -> Scene {
        if self.panels.ask is Some {
            self.paneled(PanelState { ask: None, ..self.panels }).done(
                Deed::Reply(answer),
            ).redrawn()
        } else {
            self.redrawn()
        }
    }

    /// What enter would answer.
    pub open spec fn answer_at(self, ask: Ask) -> Answer {
        if ask.sel < ask.options.len() {
            Answer::Selected(ask.options[ask.sel as int].option_id@)
        } else {
            Answer::Cancelled
        }
    }

    /// A key over the open question.
    #[verifier::opaque]
    pub open spec fn ask_keyed(self, key: KeyEvent) -> Scene {
        match self.panels.ask {
            None => self,
            Some(ask) => {
                let n = if ask.options.len() == 0 {
                    1
                } else {
                    ask.options.len() as int
                };
                if key.code == KeyCode::Esc || (key.code == KeyCode::Char('c')
                    && key.modifiers.control) {
                    self.answered(Answer::Cancelled)
                } else if key.code == KeyCode::Up {
                    self.paneled(self.panels.ask_at(picker::wrap_up(ask.sel, n)))
                } else if key.code == KeyCode::Down {
                    self.paneled(self.panels.ask_at(picker::wrap_down(ask.sel, n)))
                } else if key.code == KeyCode::Enter {
                    self.answered(self.answer_at(ask))
                } else {
                    self
                }
            },
        }
    }

    /// What a key is classified by.
    pub open spec fn key_context(self) -> KeyCtx {
        KeyCtx {
            input_empty: self.draft.input.area.text.len() == 0,
            history_active: self.draft.input.hist_pos is Some,
        }
    }

    /// An effort picked for the session.
    #[verifier::opaque]
    pub open spec fn effort_picked(self, effort: Seq<char>) -> Scene {
        self.run(self.session.of_effort(effort)).sent(
            Order::SelectModel {
                session_id: self.session.id,
                provider: None,
                model: None,
                effort: Some(effort),
            },
        ).noticed(
            NoticeLevel::Info,
            self.tr("reasoning effort"@, "推理强度"@) + " → "@ + effort,
        )
    }

    /// A subagent's transcript on show, or the session's own.
    #[verifier::opaque]
    pub open spec fn turned_to(self, id: Seq<char>) -> Scene {
        (Scene {
            active: if id != self.session.id && session::child_at(self.subagents, id, 0) is Some {
                Some(id)
            } else {
                None
            },
            ..self
        }).chatting(self.chat.turned())
    }

    /// The row of a closed list taken.
    #[verifier::opaque]
    pub open spec fn row_taken(self, kind: PickerKind, row: Row) -> Scene {
        match kind {
            PickerKind::Model => self.model_picked(row),
            PickerKind::Theme => self.palette_activated(row.id),
            PickerKind::Permission => self.permission_asked(row.id),
            PickerKind::Session => self.session_asked(row.id),
            PickerKind::Queue => self.edit_begun(row.id),
            PickerKind::Subagent => self.turned_to(row.id),
            PickerKind::Effort => self.effort_picked(row.id),
        }
    }

    /// The open list is of that kind, and its highlight is elsewhere.
    pub open spec fn highlight_moved(self, kind: PickerKind, from: usize) -> bool {
        match self.panels.picker {
            Some(p) => p.kind == kind && p.sel != from,
            None => false,
        }
    }

    /// A row that was armed for deletion is not, once the highlight has left
    /// it.
    #[verifier::opaque]
    pub open spec fn disarmed(self, from: usize) -> Scene {
        if self.highlight_moved(PickerKind::Queue, from) && self.queue.armed is Some {
            self.queueing(Line { armed: None, ..self.queue }).queue_list_refreshed()
        } else {
            self
        }
    }

    /// What a key does to the open list itself.
    #[verifier::opaque]
    pub open spec fn list_keyed(self, key: KeyEvent, p: Choice) -> Scene {
        let page = if self.panels.page_rows == 0 {
            1
        } else {
            self.panels.page_rows as int
        };
        if key.code == KeyCode::Esc {
            self.picking(None).queueing(Line { armed: None, ..self.queue })
        } else if key.code == KeyCode::Enter {
            match p.current() {
                Some(row) => self.picking(None).row_taken(p.kind, row),
                None => self.picking(None),
            }
        } else if key.code == KeyCode::Char('d') && p.kind == PickerKind::Queue
            && key.modifiers.control {
            match p.current() {
                Some(row) => self.row_deleted(row.id),
                None => self,
            }
        } else {
            self.picking(Some(p.walked(key.code, page)))
        }
    }

    /// A key over the open list. The theme dialog tries on what the highlight
    /// comes to, and its own ctrl+t turns dark to light.
    #[verifier::opaque]
    pub open spec fn picker_keyed(self, key: KeyEvent) -> Scene {
        match self.panels.picker {
            None => self,
            Some(p) => if p.kind == PickerKind::Theme && keymap::bound(
                key.code,
                key.modifiers,
                self.key_context(),
            ) == Some(Action::ToggleTheme) {
                self.mode_set(self.look.mode.other())
            } else {
                let s = self.list_keyed(key, p);
                (if p.kind == PickerKind::Theme && walks(key.code) && s.highlight_moved(
                    PickerKind::Theme,
                    p.sel,
                ) {
                    s.dialog_previewed()
                } else {
                    s
                }).disarmed(p.sel)
            },
        }
    }

    /// The wheel over the open list: each notch one row.
    #[verifier::opaque]
    pub open spec fn picker_wheeled(self, down: bool, n: int) -> Scene {
        match self.panels.picker {
            None => self,
            Some(p) => {
                let s = self.picking(Some(p.wheeled(down, n))).redrawn();
                (if s.highlight_moved(PickerKind::Theme, p.sel) {
                    s.dialog_previewed()
                } else {
                    s
                }).disarmed(p.sel)
            },
        }
    }

    pub open spec fn child_row(self, c: Child) -> Row {
        Row {
            id: c.id,
            label: c.label,
            meta: if c.running {
                self.tr("running"@, "运行中"@)
            } else {
                self.tr("finished"@, "已完成"@)
            },
            provider: None,
        }
    }

    pub open spec fn agent_rows(self) -> Seq<Row> {
        seq![
            Row {
                id: self.session.id,
                label: self.tr("main"@, "主会话"@),
                meta: self.tr("current session"@, "当前会话"@),
                provider: None,
            },
        ] + self.subagents.map_values(|c: Child| self.child_row(c))
    }

    /// The list of agents, its highlight one past the agent on show.
    #[verifier::opaque]
    pub open spec fn agents_listed(self) -> Scene {
        let items = self.agent_rows();
        let current = match self.active {
            Some(id) => id,
            None => self.session.id,
        };
        self.picking(
            Some(
                Choice {
                    kind: PickerKind::Subagent,
                    title: self.tr(
                        " agents · ↑/↓ select · enter open · esc close "@,
                        " Agent · ↑/↓ 选择 · enter 打开 · esc 关闭 "@,
                    ),
                    sel: picker::wrap_down(picker::row_or_first(items, current), items.len() as int),
                    items,
                },
            ),
        )
    }
}

impl App {
    /// Scroll the chat.
    pub fn scroll_by(&mut self, delta: i64)
        ensures
            final(self)@ == old(self)@.scrolled(delta as int),
    {
        reveal(Scene::scrolled);
        self.chat.scroll_up = scroll_chat(self.chat.scroll_up, delta);
        self.needs_redraw = true;
    }

    /// Open the checklist.
    pub fn open_todo_dialog(&mut self)
        ensures
            final(self)@ == old(self)@.todo_opened(),
    {
        reveal(Scene::todo_opened);
        if self.panels.plan.is_none() {
            return;
        }
        self.panels.todo_dialog = Some(TodoDialog { scroll: 0 });
        self.needs_redraw = true;
    }

    pub fn todo_dialog_scroll_by(&mut self, down: bool, n: usize)
        ensures
            final(self)@ == old(self)@.todo_moved(down, n as int),
    {
        reveal(Scene::todo_moved);
        match self.panels.todo_dialog {
            Some(d) => {
                self.panels.todo_dialog = Some(TodoDialog { scroll: scroll_to(d.scroll, down, n) });
                self.needs_redraw = true;
            },
            None => {},
        }
    }

    fn set_todo_scroll(&mut self, scroll: usize)
        ensures
            final(self)@ == old(self)@.todo_set(scroll),
    {
        reveal(Scene::todo_set);
        if self.panels.todo_dialog.is_some() {
            self.panels.todo_dialog = Some(TodoDialog { scroll });
            self.needs_redraw = true;
        }
    }

    pub fn handle_todo_dialog_key(&mut self, key: &KeyEvent)
        ensures
            final(self)@ == old(self)@.todo_keyed(*key),
    {
        reveal(Scene::todo_keyed);
        match key.code {
            KeyCode::Up => self.todo_dialog_scroll_by(false, 1),
            KeyCode::Down => self.todo_dialog_scroll_by(true, 1),
            KeyCode::PageUp => self.todo_dialog_scroll_by(false, 5),
            KeyCode::PageDown => self.todo_dialog_scroll_by(true, 5),
            KeyCode::Home => self.set_todo_scroll(0),
            KeyCode::End => self.set_todo_scroll(usize::MAX),
            KeyCode::Esc | KeyCode::Enter => {
                if key.modifiers.is_empty() {
                    self.panels.todo_dialog = None;
                    self.needs_redraw = true;
                }
            },
            _ => {},
        }
    }

    pub fn view_scroll_by(&mut self, down: bool, n: usize)
        ensures
            final(self)@ == old(self)@.card_moved(down, n as int),
    {
        reveal(Scene::card_moved);
        let at: usize = match &self.panels.view_overlay {
            Some(v) => v.scroll,
            None => {
                return;
            },
        };
        self.panels.set_card_scroll(scroll_to(at, down, n));
        self.needs_redraw = true;
    }

    fn set_view_scroll(&mut self, scroll: usize)
        ensures
            final(self)@ == old(self)@.card_set(scroll),
    {
        reveal(Scene::card_set);
        if self.panels.view_overlay.is_some() {
            self.panels.set_card_scroll(scroll);
            self.needs_redraw = true;
        }
    }

    pub fn handle_view_key(&mut self, key: &KeyEvent)
        ensures
            final(self)@ == old(self)@.card_keyed(*key),
    {
        reveal(Scene::card_keyed);
        match key.code {
            KeyCode::Up => self.view_scroll_by(false, 1),
            KeyCode::Down => self.view_scroll_by(true, 1),
            KeyCode::PageUp => self.view_scroll_by(false, 5),
            KeyCode::PageDown => self.view_scroll_by(true, 5),
            KeyCode::Home => self.set_view_scroll(0),
            KeyCode::End => self.set_view_scroll(usize::MAX),
            KeyCode::Esc | KeyCode::Enter => {
                if key.modifiers.is_empty() {
                    self.panels.view_overlay = None;
                }
            },
            _ => {},
        }
    }

    /// Put a question.
    pub fn open_permission_ask(&mut self, title: String, options: Vec<PermissionAskOption>)
        ensures
            final(self)@ == old(self)@.asked(title@, options@),
    {
        reveal(Scene::asked);
        if self.panels.permission_ask.is_some() {
            self.ctl.push(Effect::Reply(PermissionAskReply::Cancelled));
        }
        let sel: usize = permission_ask_default_sel(&options);
        self.panels.permission_ask = Some(PermissionAskOverlay { title, sel, options });
        self.needs_redraw = true;
    }

    pub fn finish_permission_ask(&mut self, reply: PermissionAskReply)
        ensures
            final(self)@ == old(self)@.answered(controller::answer(reply)),
    {
        reveal(Scene::answered);
        if self.panels.permission_ask.is_some() {
            self.panels.permission_ask = None;
            self.ctl.push(Effect::Reply(reply));
        }
        self.needs_redraw = true;
    }

    pub fn handle_permission_ask_key(&mut self, key: &KeyEvent)
        ensures
            final(self)@ == old(self)@.ask_keyed(*key),
    {
        reveal(Scene::ask_keyed);
        let (sel, n, chosen): (usize, usize, PermissionAskReply) =
            match &self.panels.permission_ask {
            Some(ask) => {
                let n: usize = if ask.options.len() == 0 {
                    1
                } else {
                    ask.options.len()
                };
                let chosen = if ask.sel < ask.options.len() {
                    PermissionAskReply::Selected(ask.options[ask.sel].option_id.clone())
                } else {
                    PermissionAskReply::Cancelled
                };
                (ask.sel, n, chosen)
            },
            None => {
                return;
            },
        };
        match key.code {
            KeyCode::Esc => self.finish_permission_ask(PermissionAskReply::Cancelled),
            KeyCode::Char('c') => {
                if key.modifiers.control {
                    self.finish_permission_ask(PermissionAskReply::Cancelled);
                }
            },
            KeyCode::Up => self.panels.set_ask_sel(step_up(sel, n)),
            KeyCode::Down => self.panels.set_ask_sel(step_down(sel, n)),
            KeyCode::Enter => self.finish_permission_ask(chosen),
            _ => {},
        }
    }

    pub fn key_ctx(&self) -> (r: KeyCtx)
        ensures
            r == self@.key_context(),
    {
        KeyCtx {
            input_empty: self.draft.input.is_empty(),
            history_active: self.draft.input.hist_pos.is_some(),
        }
    }

    fn pick_effort(&mut self, effort: &str)
        ensures
            final(self)@ == old(self)@.effort_picked(effort@),
    {
        reveal(Scene::effort_picked);
        self.session.set_effort(String::from_str(effort));
        let session_id = self.session.session_id.clone();
        self.ctl.send(
            Cmd::SelectModel {
                session_id,
                provider: None,
                model: None,
                effort: Some(String::from_str(effort)),
            },
        );
        let t = cat3(self.locale.tr("reasoning effort", "推理强度"), " → ", effort);
        self.notice(NoticeLevel::Info, t);
    }

    fn turn_to(&mut self, id: &str)
        ensures
            final(self)@ == old(self)@.turned_to(id@),
    {
        reveal(Scene::turned_to);
        self.active_subagent = if !same(id, self.session.session_id.as_str())
            && session::find_child(&self.subagents, id).is_some() {
            Some(String::from_str(id))
        } else {
            None
        };
        self.chat.turn();
    }

    fn take_row(&mut self, kind: PickerKind, item: PickerItem)
        ensures
            final(self)@ == old(self)@.row_taken(kind, item@),
    {
        reveal(Scene::row_taken);
        match kind {
            PickerKind::Model => self.select_model(item),
            PickerKind::Theme => self.activate_palette(item.id.as_str()),
            PickerKind::Permission => self.set_permission(item.id),
            PickerKind::Session => self.load_acp_session(item.id.as_str()),
            PickerKind::Queue => self.begin_queue_edit(item.id.as_str()),
            PickerKind::Subagent => self.turn_to(item.id.as_str()),
            PickerKind::Effort => self.pick_effort(item.id.as_str()),
        }
    }

    fn has_moved(&self, kind: PickerKind, from: usize) -> (r: bool)
        ensures
            r == self@.highlight_moved(kind, from),
    {
        match &self.panels.picker {
            Some(p) => p.kind == kind && p.sel != from,
            None => false,
        }
    }

    fn disarm(&mut self, from: usize)
        ensures
            final(self)@ == old(self)@.disarmed(from),
    {
        reveal(Scene::disarmed);
        if self.has_moved(PickerKind::Queue, from) && self.queue.queue_delete_armed.is_some() {
            self.queue.queue_delete_armed = None;
            self.refresh_queue_picker();
        }
    }

    fn close_list(&mut self)
        ensures
            final(self)@ == old(self)@.picking(None).queueing(
                Line { armed: None, ..old(self)@.queue },
            ),
    {
        self.panels.picker = None;
        self.queue.queue_delete_armed = None;
    }

    fn walk_list(&mut self, code: KeyCode)
        requires
            old(self)@.panels.picker is Some,
        ensures
            final(self)@ == old(self)@.picking(
                Some(
                    (old(self)@.panels.picker->0).walked(
                        code,
                        if old(self)@.panels.page_rows == 0 {
                            1
                        } else {
                            old(self)@.panels.page_rows as int
                        },
                    ),
                ),
            ),
    {
        let page: usize = if self.panels.picker_page_rows == 0 {
            1
        } else {
            self.panels.picker_page_rows
        };
        self.panels.walk_picker(code, page);
    }

    fn handle_list_key(&mut self, key: &KeyEvent, kind: PickerKind, row: Option<PickerItem>)
        requires
            old(self)@.panels.picker is Some,
            (old(self)@.panels.picker->0).kind == kind,
            match row {
                Some(i) => (old(self)@.panels.picker->0).current() == Some(i@),
                None => (old(self)@.panels.picker->0).current() is None,
            },
        ensures
            final(self)@ == old(self)@.list_keyed(*key, old(self)@.panels.picker->0),
    {
        reveal(Scene::list_keyed);
        if key.code == KeyCode::Esc {
            self.close_list();
        } else if key.code == KeyCode::Enter {
            self.set_picker(None);
            match row {
                Some(item) => self.take_row(kind, item),
                None => {},
            }
        } else if key.code == KeyCode::Char('d') && kind == PickerKind::Queue
            && key.modifiers.control {
            match row {
                Some(item) => self.press_queue_delete(item.id.as_str()),
                None => {},
            }
        } else {
            self.walk_list(key.code);
        }
    }

    pub fn handle_picker_key(&mut self, key: &KeyEvent)
        ensures
            final(self)@ == old(self)@.picker_keyed(*key),
    {
        reveal(Scene::picker_keyed);
        let (kind, sel, row): (PickerKind, usize, Option<PickerItem>) = match &self.panels.picker {
            Some(p) => (p.kind, p.sel, p.current()),
            None => {
                return;
            },
        };
        if kind == PickerKind::Theme {
            let light = match classify(key, self.key_ctx()) {
                Some(Action::ToggleTheme) => true,
                _ => false,
            };
            if light {
                self.set_mode(self.look.mode.toggled());
                return;
            }
        }
        self.handle_list_key(key, kind, row);
        let walk = match key.code {
            KeyCode::Up
            | KeyCode::Down
            | KeyCode::PageUp
            | KeyCode::PageDown
            | KeyCode::Home
            | KeyCode::End => true,
            _ => false,
        };
        if kind == PickerKind::Theme && walk && self.has_moved(PickerKind::Theme, sel) {
            self.preview_picker_theme();
        }
        self.disarm(sel);
    }

    /// The wheel over the open list.
    pub fn picker_scroll_by(&mut self, down: bool, n: usize)
        ensures
            final(self)@ == old(self)@.picker_wheeled(down, n as int),
    {
        reveal(Scene::picker_wheeled);
        let sel: usize = match &self.panels.picker {
            Some(p) => p.sel,
            None => {
                return;
            },
        };
        self.panels.wheel_picker(down, n);
        self.needs_redraw = true;
        if self.has_moved(PickerKind::Theme, sel) {
            self.preview_picker_theme();
        }
        self.disarm(sel);
    }

    fn child_item(&self, c: &SubagentView) -> (r: PickerItem)
        ensures
            r@ == self@.child_row(c@),
    {
        PickerItem {
            id: c.id.clone(),
            label: c.label.clone(),
            meta: String::from_str(
                if c.running {
                    self.locale.tr("running", "运行中")
                } else {
                    self.locale.tr("finished", "已完成")
                },
            ),
            provider: None,
        }
    }

    fn agent_items(&self) -> (r: Vec<PickerItem>)
        ensures
            picker::rows(r@) == self@.agent_rows(),
    {
        let mut out: Vec<PickerItem> = Vec::new();
        out.push(
            PickerItem {
                id: self.session.session_id.clone(),
                label: String::from_str(self.locale.tr("main", "主会话")),
                meta: String::from_str(self.locale.tr("current session", "当前会话")),
                provider: None,
            },
        );
        let ghost head = picker::rows(out@);
        let ghost all = self@.subagents.map_values(|c: Child| self@.child_row(c));
        let mut i: usize = 0;
        assert(picker::rows(out@) == head + all.take(0));
        while i < self.subagents.len()
            invariant
                i <= self.subagents.len(),
                all == self@.subagents.map_values(|c: Child| self@.child_row(c)),
                picker::rows(out@) == head + all.take(i as int),
            decreases self.subagents.len() - i,
        {
            let ghost before = picker::rows(out@);
            let item = self.child_item(&self.subagents[i]);
            out.push(item);
            assert(picker::rows(out@) == before.push(all[i as int]));
            assert(all.take(i + 1) == all.take(i as int).push(all[i as int]));
            i += 1;
        }
        assert(all.take(i as int) == all);
        assert(picker::rows(out@) == self@.agent_rows());
        out
    }

    /// Open the list of agents.
    pub fn open_subagent_switcher(&mut self)
        ensures
            final(self)@ == old(self)@.agents_listed(),
    {
        reveal(Scene::agents_listed);
        let items = self.agent_items();
        assert(picker::rows(items@).len() == items@.len());
        let current = match &self.active_subagent {
            Some(id) => id.clone(),
            None => self.session.session_id.clone(),
        };
        let at: usize = find_row_or_first(&items, current.as_str());
        let sel: usize = step_down(at, items.len());
        let title = String::from_str(
            self.locale.tr(
                " agents · ↑/↓ select · enter open · esc close ",
                " Agent · ↑/↓ 选择 · enter 打开 · esc 关闭 ",
            ),
        );
        self.set_picker(Some(Picker { kind: PickerKind::Subagent, title, sel, items }));
    }
}

} // verus!
