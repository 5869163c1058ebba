//! The keys: what each action does, and who gets a key first.

use vstd::prelude::*;
use vstd::string::*;
use crate::app;
use crate::app::{App, Scene, QUIT_CONFIRM_WINDOW};
use crate::app::draft;
use crate::app::pickers;
use crate::app::state::{ChatState, CtrlCQuitChord, Draft, DraftState, RunState};
use crate::bus::{Cmd, Order, PermissionAskReply};
use crate::controller::{Answer, BrowserMove, Deed, Effect};
use crate::input::area;
use crate::input::area::Motion;
use crate::input::composer;
use crate::input::composer::{Composer, ComposerEditor};
use crate::input::keymap;
use crate::input::keymap::{classify, Action, KeyCtx};
use crate::input::keys::{KeyCode, KeyEvent, KeyModifiers};
use crate::input::vim;
use crate::input::vim::VimMode;
use crate::picker;
use crate::picker::{step_down, step_up};
use crate::text;
use crate::text::{cat3, is_blank, number, starts_with_char};
use crate::transcript::Timeline;

verus! {

/// The actions that end the drag's highlight in the well: its cells would no
/// longer show the same text.
pub open spec fn unsettles(action: Action) -> bool {
    match action {
        Action::Insert(_)
        | Action::Newline
        | Action::Backspace
        | Action::DeleteForward
        | Action::DeleteWordBack
        | Action::KillToEnd
        | Action::KillToStart
        | Action::KillLine
        | Action::Undo
        | Action::Redo
        | Action::YankPaste
        | Action::SelectLeft
        | Action::SelectRight
        | Action::SelectUp
        | Action::SelectDown
        | Action::SelectWordLeft
        | Action::SelectWordRight
        | Action::SelectLineStart
        | Action::SelectLineEnd => true,
        _ => false,
    }
}

fn is_unsettling(action: Action) -> (r: bool)
    ensures
        r == unsettles(action),
{
    match action {
        Action::Insert(_)
        | Action::Newline
        | Action::Backspace
        | Action::DeleteForward
        | Action::DeleteWordBack
        | Action::KillToEnd
        | Action::KillToStart
        | Action::KillLine
        | Action::Undo
        | Action::Redo
        | Action::YankPaste
        | Action::SelectLeft
        | Action::SelectRight
        | Action::SelectUp
        | Action::SelectDown
        | Action::SelectWordLeft
        | Action::SelectWordRight
        | Action::SelectLineStart
        | Action::SelectLineEnd => true,
        _ => false,
    }
}

/// The composer after an action that concerns it alone; none for the others.
#[verifier::opaque]
pub open spec fn edited(c: Composer, action: Action, width: int) -> Option<Composer> {
    match action {
        Action::Newline => Some(c.edited(c.area.inserted(seq!['\n']))),
        Action::CursorLeft => Some(c.moved(Motion::Back)),
        Action::CursorRight => Some(c.moved(Motion::Forward)),
        Action::CursorDown => Some(c.moved(Motion::Down)),
        Action::WordLeft => Some(c.moved(Motion::WordBack)),
        Action::WordRight => Some(c.moved(Motion::WordForward)),
        Action::LineStart => Some(c.to_row_start(width)),
        Action::LineEnd => Some(c.to_row_end(width)),
        Action::DeleteWordBack => Some(c.edited(c.area.deleted_word())),
        Action::Undo => Some(c.undone()),
        Action::Redo => Some(c.redone()),
        Action::KillToEnd => Some(c.killed_to_end(width)),
        Action::KillToStart => Some(c.killed_to_start(width)),
        Action::KillLine => Some(c.line_killed()),
        Action::YankPaste => Some(c.pasted()),
        Action::SelectLeft => Some(c.extended(Motion::Back)),
        Action::SelectRight => Some(c.extended(Motion::Forward)),
        Action::SelectUp => Some(c.extended(Motion::Up)),
        Action::SelectDown => Some(c.extended(Motion::Down)),
        Action::SelectWordLeft => Some(c.extended(Motion::WordBack)),
        Action::SelectWordRight => Some(c.extended(Motion::WordForward)),
        Action::SelectLineStart => Some(c.extended(Motion::Head)),
        Action::SelectLineEnd => Some(c.extended(Motion::End)),
        _ => None,
    }
}

/// Apply an action that concerns the composer alone.
pub fn edit(input: &mut ComposerEditor, action: Action, width: usize) -> (r: bool)
    ensures
        r == (edited(old(input)@, action, width as int) is Some),
        final(input)@ == match edited(old(input)@, action, width as int) {
            Some(c) => c,
            None => old(input)@,
        },
{
    reveal(edited);
    match action {
        Action::Newline => input.insert_newline(),
        Action::CursorLeft => input.move_left(),
        Action::CursorRight => input.move_right(),
        Action::CursorDown => input.move_down(),
        Action::WordLeft => input.word_left(),
        Action::WordRight => input.word_right(),
        Action::LineStart => input.line_start(width),
        Action::LineEnd => input.line_end(width),
        Action::DeleteWordBack => input.delete_word_back(),
        Action::Undo => {
            let _ = input.undo();
        },
        Action::Redo => {
            let _ = input.redo();
        },
        Action::KillToEnd => input.kill_to_end(width),
        Action::KillToStart => input.kill_to_start(width),
        Action::KillLine => input.kill_line(),
        Action::YankPaste => {
            let _ = input.paste_yank();
        },
        Action::SelectLeft => input.select_left(),
        Action::SelectRight => input.select_right(),
        Action::SelectUp => input.select_up(),
        Action::SelectDown => input.select_down(),
        Action::SelectWordLeft => input.select_word_left(),
        Action::SelectWordRight => input.select_word_right(),
        Action::SelectLineStart => input.select_line_start(),
        Action::SelectLineEnd => input.select_line_end(),
        _ => {
            return false;
        },
    }
    true
}

/// What a key asks of the browser of an open menu.
pub open spec fn browsed(key: KeyEvent) -> Option<BrowserMove> {
    if key.modifiers == (KeyModifiers { control: true, ..KeyModifiers::empty() }) && key.code
        == KeyCode::Char('h') {
        Some(BrowserMove::ToggleShowHidden)
    } else if key.modifiers != KeyModifiers::empty() {
        None
    } else {
        match key.code {
            KeyCode::Up => Some(BrowserMove::Up),
            KeyCode::Down => Some(BrowserMove::Down),
            KeyCode::Home => Some(BrowserMove::Home),
            KeyCode::End => Some(BrowserMove::End),
            KeyCode::PageUp => Some(BrowserMove::PageUp),
            KeyCode::PageDown => Some(BrowserMove::PageDown),
            KeyCode::Left => Some(BrowserMove::Left),
            _ => None,
        }
    }
}

fn browser_move(key: &KeyEvent) -> (r: Option<BrowserMove>)
    ensures
        r == browsed(*key),
{
    if key.modifiers == KeyModifiers::control() && key.code == KeyCode::Char('h') {
        return Some(BrowserMove::ToggleShowHidden);
    }
    if !key.modifiers.is_empty() {
        return None;
    }
    match key.code {
        KeyCode::Up => Some(BrowserMove::Up),
        KeyCode::Down => Some(BrowserMove::Down),
        KeyCode::Home => Some(BrowserMove::Home),
        KeyCode::End => Some(BrowserMove::End),
        KeyCode::PageUp => Some(BrowserMove::PageUp),
        KeyCode::PageDown => Some(BrowserMove::PageDown),
        KeyCode::Left => Some(BrowserMove::Left),
        _ => None,
    }
}

/// The actions that work while a subagent is on show.
pub open spec fn views(action: Action) -> bool {
    match action {
        Action::Esc
        | Action::Quit
        | Action::ToggleTheme
        | Action::ScrollHalfUp
        | Action::ScrollHalfDown
        | Action::PageUp
        | Action::PageDown
        | Action::JumpTop
        | Action::JumpTail => true,
        _ => false,
    }
}

fn is_viewing(action: Action) -> (r: bool)
    ensures
        r == views(action),
{
    match action {
        Action::Esc
        | Action::Quit
        | Action::ToggleTheme
        | Action::ScrollHalfUp
        | Action::ScrollHalfDown
        | Action::PageUp
        | Action::PageDown
        | Action::JumpTop
        | Action::JumpTail => true,
        _ => false,
    }
}

impl DraftState {
    pub open spec fn undragged(self) -> DraftState {
        DraftState { input_sel: None, ..self }
    }

    /// A character typed.
    pub open spec fn struck(self, ch: char) -> DraftState {
        DraftState {
            slash_sel: 0,
            ..self.typed(
                self.input.edited(
                    self.input.area.inserted(
                        seq![
                            if ch == '\r' {
                                '\n'
                            } else {
                                ch
                            },
                        ],
                    ),
                ),
            )
        }
    }

    /// Vim editing taking a key.
    pub open spec fn vimmed(self, key: KeyEvent) -> DraftState {
        if self.vim.mode == VimMode::Off {
            self
        } else {
            let (vim, input) = vim::stepped(self.vim, key, self.input);
            DraftState { vim, ..self.typed(input) }
        }
    }
}

impl Draft {
    fn strike(&mut self, ch: char)
        ensures
            final(self)@ == old(self)@.struck(ch),
    {
        self.input.insert_char(ch);
        self.slash_sel = 0;
    }

    fn take_vim_key(&mut self, key: &KeyEvent) -> (r: bool)
        ensures
            r == (old(self)@.vim.mode != VimMode::Off && vim::consumes(old(self)@.vim, *key)),
            final(self)@ == old(self)@.vimmed(*key),
    {
        if !self.vim.is_active() {
            return false;
        }
        self.vim.handle_key(key, &mut self.input)
    }
}

impl Scene {
    /// What enter does: it saves the queued prompt being edited, or with
    /// nothing drafted sends the head of the queue, or accepts the row of the
    /// slash menu, or submits the draft.
    #[verifier::opaque]
    pub open spec fn entered(self) -> Scene {
        if self.queue.edit is Some {
            self.edit_saved()
        } else if self.draft.input.area.text.len() == 0 && self.draft.images.items.len() == 0
            && self.queue.waiting.len() > 0 {
            self.head_sent()
        } else {
            match self.highlighted() {
                Some(e) => self.entry_accepted(e),
                None => self.submitted(),
            }
        }
    }

    /// The draft completed from the slash menu.
    #[verifier::opaque]
    pub open spec fn completed(self) -> Scene {
        match self.highlighted() {
            Some(e) => self.typed(
                self.draft.input.replaced(
                    match e.completion {
                        Some(line) => line,
                        None => "/"@ + e.name + " "@,
                    },
                ),
            ),
            None => self,
        }
    }

    /// The draft put in the history and the images of its tokens with it.
    pub open spec fn draft_dropped(self) -> Scene {
        self.draft_kept().tray_settled().told_tr(
            "draft cleared — ↑ recalls it"@,
            "草稿已清空 —— ↑ 可召回"@,
        )
    }

    /// The running turn cancelled; the draft stays.
    #[verifier::opaque]
    pub open spec fn turn_interrupted(self) -> Scene {
        (Scene { ctl: self.ctl.interrupted(), ..self }).sent(
            Order::Interrupt { session_id: self.session.id },
        ).noted(self.tr("cancelling"@, "正在取消"@))
    }

    /// Esc with nothing open: a highlight is dismissed first when idle, a
    /// slash line is cleared, a turn is interrupted, a draft is cleared.
    #[verifier::opaque]
    pub open spec fn backed_out(self) -> Scene {
        let lit = self.draft.input_sel is Some || self.chat.sel is Some;
        let s = self.drafted(self.draft.undragged()).chatting(
            ChatState { sel: None, ..self.chat },
        );
        if lit && self.session.state == RunState::Idle {
            s.redrawn()
        } else if text::leads(s.draft.input.area.text, '/') && s.menu().len() > 0 {
            s.typed(s.draft.input.emptied())
        } else if self.session.state != RunState::Idle {
            s.turn_interrupted()
        } else if s.draft.input.area.text.len() > 0 {
            s.draft_dropped()
        } else {
            s.told_tr(
                "esc — idle · a running turn is interrupted with esc"@,
                "esc —— 空闲；运行中按 esc 会中断本轮"@,
            )
        }
    }

    /// What esc does: it closes what is open first.
    #[verifier::opaque]
    pub open spec fn escaped(self) -> Scene {
        if self.panels.ask is Some {
            self.answered(Answer::Cancelled)
        } else if self.panels.picker is Some {
            self.picking(None)
        } else if self.active is Some {
            (Scene { active: None, ..self }).chatting(
                ChatState { scroll_up: 0, sel: None, ..self.chat },
            ).redrawn()
        } else if self.queue.edit is Some {
            self.edit_ended().told_tr("queued prompt edit cancelled"@, "已取消编辑排队消息"@)
        } else {
            self.backed_out()
        }
    }

    /// What ctrl+c does: it clears a draft, and without one counts towards
    /// leaving. It interrupts nothing.
    #[verifier::opaque]
    pub open spec fn broken(self) -> Scene {
        if self.draft.input.area.text.len() > 0 {
            (Scene { ctrl_c: None, ..self }).draft_dropped()
        } else {
            let c = match self.ctrl_c {
                Some(c) => c,
                None => CtrlCQuitChord { started: self.host.now, presses: 0, required: 2 },
            };
            let presses = if c.presses == u8::MAX {
                u8::MAX
            } else {
                (c.presses + 1) as u8
            };
            if presses >= c.required {
                Scene { quit: true, ctrl_c: None, ..self }
            } else {
                let left = c.required - presses;
                let s = Scene { ctrl_c: Some(CtrlCQuitChord { presses, ..c }), ..self };
                s.told(
                    if left == 1 {
                        s.tr("press ctrl+c again to exit"@, "再按一次 ctrl+c 退出"@)
                    } else {
                        s.tr("press ctrl+c "@, "Agent 运行中：再按 "@) + text::decimal(
                            left as nat,
                        ) + s.tr(
                            " more times to exit while the agent is running"@,
                            " 次 ctrl+c 退出"@,
                        )
                    },
                )
            }
        }
    }

    /// Whether the quit key was pressed, and another press still confirms it.
    pub open spec fn quit_confirmed(self) -> bool {
        self.quit_armed is Some && app::since(self.host.now, self.quit_armed->0)
            <= QUIT_CONFIRM_WINDOW
    }

    /// What the quit key does: it asks to be pressed again, and leaves where
    /// it was.
    #[verifier::opaque]
    pub open spec fn quit_pressed(self) -> Scene {
        if self.quit_confirmed() {
            Scene { quit: true, quit_armed: None, ..self }
        } else {
            (Scene { quit_armed: Some(self.host.now), ..self }).told_tr(
                "press ctrl+q again to exit"@,
                "再按一次 ctrl+q 退出"@,
            )
        }
    }

    /// All thoughts and tool results shown in full, or none.
    pub open spec fn expansion_toggled(self) -> Scene {
        let expand_all = !self.transcript.expand_all;
        self.telling(Timeline { expand_all, ..self.transcript }).told(
            if expand_all {
                self.tr("expanded all thoughts and tool results"@, "已展开全部思考与工具结果"@)
            } else {
                self.tr("collapsed all thoughts and tool results"@, "已折叠全部思考与工具结果"@)
            },
        )
    }

    /// Up a row, and from the first row into the history.
    #[verifier::opaque]
    pub open spec fn raised(self) -> Scene {
        let c = self.draft.input;
        let up = c.moved(Motion::Up);
        if up.area.cursor == c.area.cursor {
            self.typed(draft::recalled(up))
        } else {
            self.typed(up)
        }
    }

    pub open spec fn history_back(self) -> Scene {
        let c = self.draft.input;
        if c.area.text.len() > 0 && c.hist_pos is None {
            self
        } else {
            self.typed(draft::recalled(c))
        }
    }

    /// A character deleted, or the whole token that it belongs to.
    #[verifier::opaque]
    pub open spec fn deleted(self, backward: bool) -> Scene {
        let c = self.draft.input;
        match self.token_in_the_way(c.area.cursor, backward) {
            Some(s) => self.token_deleted(s),
            None => self.typed(
                c.edited(
                    if backward {
                        c.area.backspaced()
                    } else {
                        c.area.deleted_forward()
                    },
                ),
            ),
        }
    }

    /// The keyboard's selection copied, or else the drag's.
    #[verifier::opaque]
    pub open spec fn selection_copied(self) -> Scene {
        let c = self.draft.input;
        match c.selection() {
            Some(t) => if text::blank(t) {
                self
            } else {
                self.typed(c.with(c.area.copied())).done(Deed::Copy(t))
            },
            None => {
                let s = self.drafted(self.draft.measured());
                match self.draft.dragged() {
                    Some((a, b)) => {
                        let t = composer::between(c.area.text, a, b);
                        if text::blank(t) {
                            s
                        } else {
                            s.done(Deed::Copy(t))
                        }
                    },
                    None => s,
                }
            },
        }
    }

    pub open spec fn nothing_to_cut(self) -> Scene {
        self.told_tr(
            "nothing to cut — select with shift+arrows, or drag in the box"@,
            "无可剪切 —— 用 shift+方向键或直接在输入框里拖选"@,
        )
    }

    /// The keyboard's selection cut, or else the drag's.
    #[verifier::opaque]
    pub open spec fn selection_cut(self) -> Scene {
        let c = self.draft.input;
        match c.selection() {
            Some(t) => if text::blank(t) {
                self.nothing_to_cut()
            } else {
                self.typed(c.edited(c.area.cut())).done(Deed::Copy(t))
            },
            None => {
                let s = self.drafted(self.draft.measured());
                match self.draft.dragged() {
                    Some((a, b)) => {
                        let t = composer::between(c.area.text, a, b);
                        if text::blank(t) {
                            s.nothing_to_cut()
                        } else {
                            s.drafted(
                                s.draft.typed(s.draft.input.cut_range(a, b)).undragged(),
                            ).done(Deed::Copy(t))
                        }
                    },
                    None => s.nothing_to_cut(),
                }
            },
        }
    }

    /// The actions that are not the composer's alone.
    #[verifier::opaque]
    pub open spec fn performed(self, action: Action) -> Scene {
        match action {
            Action::Insert(ch) => self.drafted(self.draft.struck(ch)),
            Action::Enter => self.entered(),
            Action::TabComplete => self.completed(),
            Action::Esc => self.escaped(),
            Action::CtrlC => self.broken(),
            Action::Quit => self.quit_pressed(),
            Action::ClearScrollback => self.scrollback_cleared(),
            Action::ToggleTheme => self.mode_set(self.look.mode.other()),
            Action::CycleToolOutput => self.expansion_toggled(),
            Action::SendNow => self.sent_now(),
            Action::EditQueuedPrompt => self.queue_opened(),
            Action::AttachClipboard => self.done(Deed::ReadClipboard { caption: ""@ }),
            Action::ModelPicker => self.models_opened(),
            Action::CyclePermission => self.permission_asked(
                pickers::preset_after(self.session.permission()),
            ),
            Action::HistoryPrev => self.history_back(),
            Action::HistoryNext => self.typed(draft::returned(self.draft.input)),
            Action::ScrollHalfUp => self.scrolled(10),
            Action::ScrollHalfDown => self.scrolled(-10),
            Action::PageUp => self.scrolled(20),
            Action::PageDown => self.scrolled(-20),
            Action::JumpTop => self.chatting(ChatState { scroll_up: usize::MAX, ..self.chat }),
            Action::JumpTail => self.at_tail(),
            Action::CursorUp => self.raised(),
            Action::Backspace => self.deleted(true),
            Action::DeleteForward => self.deleted(false),
            Action::CopySelection => self.selection_copied(),
            Action::CutSelection => self.selection_cut(),
            _ => self,
        }
    }

    /// What an action does.
    #[verifier::opaque]
    pub open spec fn acted(self, action: Action) -> Scene {
        let s = if unsettles(action) {
            self.drafted(self.draft.undragged())
        } else {
            self
        };
        match edited(s.draft.input, action, s.draft.wrap_width as int) {
            Some(c) => s.typed(c),
            None => s.performed(action),
        }
    }

    /// A key while a subagent is on show.
    #[verifier::opaque]
    pub open spec fn agent_keyed(self, key: KeyEvent) -> Scene {
        let plain = key.modifiers == KeyModifiers::empty();
        let action = keymap::bound(
            key.code,
            key.modifiers,
            KeyCtx { input_empty: true, history_active: false },
        );
        if key.code == KeyCode::Char('q') && plain {
            self.escaped()
        } else if key.code == KeyCode::Down && plain {
            self.agents_listed()
        } else if action is Some && views(action->0) {
            self.acted(action->0)
        } else {
            self
        }
    }

    /// A key for the open `@` menu; none where it is not the menu's.
    #[verifier::opaque]
    pub open spec fn menu_keyed(self, key: KeyEvent) -> Option<Scene> {
        let plain = key.modifiers == KeyModifiers::empty();
        if self.draft.file_menu is None {
            None
        } else if browsed(key) is Some {
            Some(self.done(Deed::Browse(browsed(key)->0)))
        } else if plain && (key.code == KeyCode::Right || key.code == KeyCode::Tab) {
            Some(self.menu_drilled())
        } else if plain && key.code == KeyCode::Enter {
            Some(self.menu_settled())
        } else if plain && key.code == KeyCode::Esc {
            Some(self.menu_dismissed())
        } else {
            None
        }
    }

    /// An arrow for the open slash menu; none where it is not the menu's.
    #[verifier::opaque]
    pub open spec fn slash_keyed(self, key: KeyEvent) -> Option<Scene> {
        let n = self.menu().len() as int;
        if key.modifiers != KeyModifiers::empty() || !text::leads(
            self.draft.input.area.text,
            '/',
        ) || n == 0 {
            None
        } else if key.code == KeyCode::Up {
            Some(
                self.drafted(
                    DraftState {
                        slash_sel: picker::wrap_up(self.draft.slash_sel, n),
                        ..self.draft
                    },
                ).menu_previewed(),
            )
        } else if key.code == KeyCode::Down {
            Some(
                self.drafted(
                    DraftState {
                        slash_sel: picker::wrap_down(self.draft.slash_sel, n),
                        ..self.draft
                    },
                ).menu_previewed(),
            )
        } else {
            None
        }
    }

    /// A key for the draft itself. Any edit may cut a token or open a menu.
    #[verifier::opaque]
    pub open spec fn draft_keyed(self, key: KeyEvent) -> Scene {
        if self.queue.edit is Some && key.modifiers.control && key.code == KeyCode::Char('d') {
            self.edit_deleted()
        } else {
            (match keymap::bound(key.code, key.modifiers, self.key_context()) {
                Some(action) => self.acted(action),
                None => self,
            }).tray_settled().menu_refreshed()
        }
    }

    /// A key for the composer: vim editing has it first, and the open menus.
    #[verifier::opaque]
    pub open spec fn composer_keyed(self, key: KeyEvent) -> Scene {
        if key.code == KeyCode::Down && key.modifiers == KeyModifiers::empty()
            && self.draft.input.area.text.len() == 0 && self.draft.input.hist_pos is None
            && self.subagents.len() > 0 {
            self.agents_listed()
        } else {
            let s = self.drafted(self.draft.vimmed(key));
            if self.draft.vim.mode != VimMode::Off && vim::consumes(self.draft.vim, key) {
                s.tray_settled().menu_refreshed()
            } else {
                match s.menu_keyed(key) {
                    Some(t) => t,
                    None => match s.slash_keyed(key) {
                        Some(t) => t,
                        None => s.draft_keyed(key),
                    },
                }
            }
        }
    }

    /// Who has a key: the open question, then the checklist, a card, a list,
    /// the subagent on show, the composer.
    #[verifier::opaque]
    pub open spec fn key_given(self, key: KeyEvent) -> Scene {
        let s = self.redrawn();
        if s.panels.ask is Some {
            s.ask_keyed(key)
        } else if s.panels.todo is Some {
            s.todo_keyed(key)
        } else if s.panels.card is Some {
            s.card_keyed(key)
        } else if s.panels.picker is Some {
            s.picker_keyed(key)
        } else if s.active is Some {
            s.agent_keyed(key)
        } else {
            s.composer_keyed(key)
        }
    }

    /// A key handled.
    pub open spec fn keyed(self, key: KeyEvent) -> Scene {
        self.key_given(key).preview_settled()
    }
}

impl App {
    fn enter(&mut self)
        ensures
            final(self)@ == old(self)@.entered(),
    {
        reveal(Scene::entered);
        if self.queue.queue_edit.is_some() {
            self.save_queue_edit();
            return;
        }
        if self.draft.input.is_empty() && self.draft.pending_images.is_empty()
            && self.queue.prompt_queue.len() > 0 {
            self.send_queue_head_now();
            return;
        }
        match self.slash_highlight() {
            Some(e) => self.accept_slash(&e),
            None => self.submit(),
        }
    }

    fn complete(&mut self)
        ensures
            final(self)@ == old(self)@.completed(),
    {
        reveal(Scene::completed);
        match self.slash_highlight() {
            Some(e) => {
                let line = match &e.completion {
                    Some(line) => line.clone(),
                    None => cat3("/", e.name.as_str(), " "),
                };
                self.draft.input.set(line);
            },
            None => {},
        }
    }

    fn drop_draft(&mut self)
        ensures
            final(self)@ == old(self)@.draft_dropped(),
    {
        self.keep_draft();
        self.reconcile_attachments();
        self.tip_tr("draft cleared — ↑ recalls it", "草稿已清空 —— ↑ 可召回");
    }

    fn interrupt_turn(&mut self)
        ensures
            final(self)@ == old(self)@.turn_interrupted(),
    {
        reveal(Scene::turn_interrupted);
        let _ = self.ctl.interrupt_now();
        let session_id = self.session.session_id.clone();
        self.ctl.send(Cmd::Interrupt { session_id });
        self.session.state_note = String::from_str(self.locale.tr("cancelling", "正在取消"));
    }

    fn dismiss_highlights(&mut self)
        ensures
            final(self)@ == old(self)@.drafted(old(self)@.draft.undragged()).chatting(
                ChatState { sel: None, ..old(self)@.chat },
            ),
    {
        self.draft.input_sel = None;
        self.chat.sel = None;
    }

    fn clear_line(&mut self)
        ensures
            final(self)@ == old(self)@.typed(old(self)@.draft.input.emptied()),
    {
        self.draft.input.clear();
    }

    fn back_out(&mut self)
        ensures
            final(self)@ == old(self)@.backed_out(),
    {
        reveal(Scene::backed_out);
        let lit = self.draft.input_sel.is_some() || self.chat.sel.is_some();
        self.dismiss_highlights();
        if lit && self.session.state == RunState::Idle {
            self.needs_redraw = true;
            return;
        }
        let line = self.draft.input.buf();
        if starts_with_char(line.as_str(), '/') && self.slash_completion_open() {
            self.clear_line();
            return;
        }
        if self.session.state != RunState::Idle {
            self.interrupt_turn();
        } else if !self.draft.input.is_empty() {
            self.drop_draft();
        } else {
            self.tip_tr(
                "esc — idle · a running turn is interrupted with esc",
                "esc —— 空闲；运行中按 esc 会中断本轮",
            );
        }
    }

    fn leave_agent(&mut self)
        ensures
            final(self)@ == (Scene { active: None, ..old(self)@ }).chatting(
                ChatState { scroll_up: 0, sel: None, ..old(self)@.chat },
            ).redrawn(),
    {
        self.active_subagent = None;
        self.chat.scroll_up = 0;
        self.chat.sel = None;
        self.needs_redraw = true;
    }

    pub fn handle_esc(&mut self)
        ensures
            final(self)@ == old(self)@.escaped(),
    {
        reveal(Scene::escaped);
        if self.panels.permission_ask.is_some() {
            self.finish_permission_ask(PermissionAskReply::Cancelled);
        } else if self.panels.picker.is_some() {
            self.set_picker(None);
        } else if self.active_subagent.is_some() {
            self.leave_agent();
        } else if self.queue.queue_edit.is_some() {
            self.finish_queue_edit();
            self.tip_tr("queued prompt edit cancelled", "已取消编辑排队消息");
        } else {
            self.back_out();
        }
    }

    pub fn handle_ctrl_c(&mut self)
        ensures
            final(self)@ == old(self)@.broken(),
    {
        reveal(Scene::broken);
        if !self.draft.input.is_empty() {
            self.ctrl_c_armed = None;
            self.drop_draft();
            return;
        }
        let c = match self.ctrl_c_armed {
            Some(c) => c,
            None => CtrlCQuitChord { started: self.host.now, presses: 0, required: 2 },
        };
        let presses: u8 = c.presses.saturating_add(1);
        if presses >= c.required {
            self.ctrl_c_armed = None;
            self.quit = true;
            return;
        }
        let left: u8 = c.required - presses;
        self.ctrl_c_armed = Some(
            CtrlCQuitChord { started: c.started, presses, required: c.required },
        );
        let t = if left == 1 {
            String::from_str(
                self.locale.tr("press ctrl+c again to exit", "再按一次 ctrl+c 退出"),
            )
        } else {
            let n = number(left as u64);
            cat3(
                self.locale.tr("press ctrl+c ", "Agent 运行中：再按 "),
                n.as_str(),
                self.locale.tr(
                    " more times to exit while the agent is running",
                    " 次 ctrl+c 退出",
                ),
            )
        };
        self.show_tip(t);
    }

    fn toggle_expansion(&mut self)
        ensures
            final(self)@ == old(self)@.expansion_toggled(),
    {
        self.transcript.expand_all = !self.transcript.expand_all;
        if self.transcript.expand_all {
            self.tip_tr("expanded all thoughts and tool results", "已展开全部思考与工具结果");
        } else {
            self.tip_tr("collapsed all thoughts and tool results", "已折叠全部思考与工具结果");
        }
    }

    fn raise(&mut self)
        ensures
            final(self)@ == old(self)@.raised(),
    {
        reveal(Scene::raised);
        let before: usize = self.draft.input.cursor_char();
        self.draft.input.move_up();
        if self.draft.input.cursor_char() == before {
            self.history_prev_from_draft();
        }
    }

    fn delete(&mut self, backward: bool)
        ensures
            final(self)@ == old(self)@.deleted(backward),
    {
        reveal(Scene::deleted);
        let cursor: usize = self.draft.input.cursor_char();
        if !self.delete_token_at(cursor, backward) {
            if backward {
                self.draft.input.backspace();
            } else {
                self.draft.input.delete_forward();
            }
        }
    }

    fn copy_selection(&mut self)
        ensures
            final(self)@ == old(self)@.selection_copied(),
    {
        reveal(Scene::selection_copied);
        match self.draft.input.selection_text() {
            Some(t) => {
                if !is_blank(t.as_str()) {
                    self.draft.input.copy_selection_to_yank();
                    self.copy_text(t);
                }
            },
            None => {
                match self.input_selection_range() {
                    Some((a, b)) => {
                        let t = self.draft.input.chars_between(a, b);
                        if !is_blank(t.as_str()) {
                            self.copy_text(t);
                        }
                    },
                    None => {},
                }
            },
        }
    }

    fn say_nothing_to_cut(&mut self)
        ensures
            final(self)@ == old(self)@.nothing_to_cut(),
    {
        self.tip_tr(
            "nothing to cut — select with shift+arrows, or drag in the box",
            "无可剪切 —— 用 shift+方向键或直接在输入框里拖选",
        );
    }

    fn cut_drag(&mut self, a: usize, b: usize)
        ensures
            final(self)@ == old(self)@.drafted(
                old(self)@.draft.typed(
                    old(self)@.draft.input.cut_range(a as int, b as int),
                ).undragged(),
            ),
    {
        self.draft.input.delete_char_range(a, b);
        self.draft.input_sel = None;
    }

    fn cut_selection(&mut self)
        ensures
            final(self)@ == old(self)@.selection_cut(),
    {
        reveal(Scene::selection_cut);
        match self.draft.input.selection_text() {
            Some(t) => {
                if !is_blank(t.as_str()) {
                    self.draft.input.cut_selection_to_yank();
                    self.copy_text(t);
                } else {
                    self.say_nothing_to_cut();
                }
            },
            None => {
                match self.input_selection_range() {
                    Some((a, b)) => {
                        let t = self.draft.input.chars_between(a, b);
                        if !is_blank(t.as_str()) {
                            self.cut_drag(a, b);
                            self.copy_text(t);
                        } else {
                            self.say_nothing_to_cut();
                        }
                    },
                    None => self.say_nothing_to_cut(),
                }
            },
        }
    }

    fn strike(&mut self, ch: char)
        ensures
            final(self)@ == old(self)@.drafted(old(self)@.draft.struck(ch)),
    {
        self.draft.strike(ch);
    }

    /// Whether the quit key was pressed, and another press still confirms it.
    pub fn is_quit_confirmed(&self) -> (r: bool)
        ensures
            r == self@.quit_confirmed(),
    {
        match self.quit_armed {
            Some(at) => self.host.now.saturating_sub(at) <= QUIT_CONFIRM_WINDOW,
            None => false,
        }
    }

    fn press_quit(&mut self)
        ensures
            final(self)@ == old(self)@.quit_pressed(),
            final(self)@.quit == (old(self)@.quit || old(self)@.quit_confirmed()),
    {
        reveal(Scene::quit_pressed);
        if self.is_quit_confirmed() {
            self.quit = true;
            self.quit_armed = None;
        } else {
            self.quit_armed = Some(self.host.now);
            self.tip_tr("press ctrl+q again to exit", "再按一次 ctrl+q 退出");
        }
    }

    fn jump_to(&mut self, scroll_up: usize)
        ensures
            final(self)@ == old(self)@.chatting(ChatState { scroll_up, ..old(self)@.chat }),
    {
        self.chat.scroll_up = scroll_up;
    }

    fn perform(&mut self, action: Action)
        ensures
            final(self)@ == old(self)@.performed(action),
    {
        reveal(Scene::performed);
        match action {
            Action::Insert(ch) => self.strike(ch),
            Action::Enter => self.enter(),
            Action::TabComplete => self.complete(),
            Action::Esc => self.handle_esc(),
            Action::CtrlC => self.handle_ctrl_c(),
            Action::Quit => self.press_quit(),
            Action::ClearScrollback => self.clear_scrollback(),
            Action::ToggleTheme => self.set_mode(self.look.mode.toggled()),
            Action::CycleToolOutput => self.toggle_expansion(),
            Action::SendNow => self.send_now(),
            Action::EditQueuedPrompt => self.open_queue_selector(),
            Action::AttachClipboard => self.clip_image(""),
            Action::ModelPicker => self.open_model_picker(),
            Action::CyclePermission => self.cycle_permission(),
            Action::HistoryPrev => self.history_prev(),
            Action::HistoryNext => self.history_next(),
            Action::ScrollHalfUp => self.scroll_by(10),
            Action::ScrollHalfDown => self.scroll_by(-10),
            Action::PageUp => self.scroll_by(20),
            Action::PageDown => self.scroll_by(-20),
            Action::JumpTop => self.jump_to(usize::MAX),
            Action::JumpTail => self.jump_to(0),
            Action::CursorUp => self.raise(),
            Action::Backspace => self.delete(true),
            Action::DeleteForward => self.delete(false),
            Action::CopySelection => self.copy_selection(),
            Action::CutSelection => self.cut_selection(),
            _ => {},
        }
    }

    fn undrag(&mut self)
        ensures
            final(self)@ == old(self)@.drafted(old(self)@.draft.undragged()),
    {
        self.draft.input_sel = None;
    }

    fn edit_draft(&mut self, action: Action) -> (r: bool)
        ensures
            match edited(old(self)@.draft.input, action, old(self)@.draft.wrap_width as int) {
                Some(c) => r && final(self)@ == old(self)@.typed(c),
                None => !r && final(self)@ == old(self)@,
            },
    {
        edit(&mut self.draft.input, action, self.draft.wrap_width)
    }

    /// Apply an action: the one place where keys touch the state.
    pub fn dispatch(&mut self, action: Action)
        ensures
            final(self)@ == old(self)@.acted(action),
    {
        reveal(Scene::acted);
        if is_unsettling(action) {
            self.undrag();
        }
        if !self.edit_draft(action) {
            self.perform(action);
        }
    }

    fn handle_agent_key(&mut self, key: &KeyEvent)
        ensures
            final(self)@ == old(self)@.agent_keyed(*key),
    {
        reveal(Scene::agent_keyed);
        if key.code == KeyCode::Char('q') && key.modifiers.is_empty() {
            self.handle_esc();
            return;
        }
        if key.code == KeyCode::Down && key.modifiers.is_empty() {
            self.open_subagent_switcher();
            return;
        }
        match classify(key, KeyCtx { input_empty: true, history_active: false }) {
            Some(action) => {
                if is_viewing(action) {
                    self.dispatch(action);
                }
            },
            None => {},
        }
    }

    fn browse(&mut self, to: BrowserMove)
        ensures
            final(self)@ == old(self)@.done(Deed::Browse(to)),
    {
        self.ctl.push(Effect::Browse(to));
    }

    fn handle_menu_key(&mut self, key: &KeyEvent) -> (r: bool)
        ensures
            match old(self)@.menu_keyed(*key) {
                Some(s) => r && final(self)@ == s,
                None => !r && final(self)@ == old(self)@,
            },
    {
        reveal(Scene::menu_keyed);
        if self.draft.file_menu.is_none() {
            return false;
        }
        match browser_move(key) {
            Some(to) => {
                self.browse(to);
                return true;
            },
            None => {},
        }
        if !key.modifiers.is_empty() {
            return false;
        }
        match key.code {
            KeyCode::Right | KeyCode::Tab => self.file_menu_drill(),
            KeyCode::Enter => self.file_menu_settle(),
            KeyCode::Esc => self.dismiss_file_menu(),
            _ => {
                return false;
            },
        }
        true
    }

    fn highlight(&mut self, slash_sel: usize)
        ensures
            final(self)@ == old(self)@.drafted(
                DraftState { slash_sel, ..old(self)@.draft },
            ).menu_previewed(),
    {
        self.draft.slash_sel = slash_sel;
        self.preview_slash_theme();
    }

    fn handle_slash_key(&mut self, key: &KeyEvent) -> (r: bool)
        ensures
            match old(self)@.slash_keyed(*key) {
                Some(s) => r && final(self)@ == s,
                None => !r && final(self)@ == old(self)@,
            },
    {
        reveal(Scene::slash_keyed);
        if !key.modifiers.is_empty() {
            return false;
        }
        let line = self.draft.input.buf();
        if !starts_with_char(line.as_str(), '/') {
            return false;
        }
        let rows = self.slash_matches();
        let n: usize = rows.len();
        assert(picker::suggestions(rows@).len() == n);
        if n == 0 {
            return false;
        }
        match key.code {
            KeyCode::Up => self.highlight(step_up(self.draft.slash_sel, n)),
            KeyCode::Down => self.highlight(step_down(self.draft.slash_sel, n)),
            _ => {
                return false;
            },
        }
        true
    }

    fn handle_draft_key(&mut self, key: &KeyEvent)
        ensures
            final(self)@ == old(self)@.draft_keyed(*key),
    {
        reveal(Scene::draft_keyed);
        if self.queue.queue_edit.is_some() && key.modifiers.control && key.code == KeyCode::Char(
            'd',
        ) {
            self.delete_queue_edit();
            return;
        }
        match classify(key, self.key_ctx()) {
            Some(action) => self.dispatch(action),
            None => {},
        }
        self.reconcile_attachments();
        self.refresh_file_menu();
    }

    fn take_vim_key(&mut self, key: &KeyEvent) -> (r: bool)
        ensures
            r == (old(self)@.draft.vim.mode != VimMode::Off && vim::consumes(
                old(self)@.draft.vim,
                *key,
            )),
            final(self)@ == old(self)@.drafted(old(self)@.draft.vimmed(*key)),
    {
        self.draft.take_vim_key(key)
    }

    fn handle_composer_key(&mut self, key: &KeyEvent)
        ensures
            final(self)@ == old(self)@.composer_keyed(*key),
    {
        reveal(Scene::composer_keyed);
        assert(self@.subagents.len() == self.subagents@.len());
        if key.code == KeyCode::Down && key.modifiers.is_empty() && self.draft.input.is_empty()
            && self.draft.input.hist_pos.is_none() && self.subagents.len() > 0 {
            self.open_subagent_switcher();
            return;
        }
        if self.take_vim_key(key) {
            self.reconcile_attachments();
            self.refresh_file_menu();
            return;
        }
        if self.handle_menu_key(key) {
            return;
        }
        if self.handle_slash_key(key) {
            return;
        }
        self.handle_draft_key(key);
    }

    fn handle_key_inner(&mut self, key: &KeyEvent)
        ensures
            final(self)@ == old(self)@.key_given(*key),
    {
        reveal(Scene::key_given);
        self.needs_redraw = true;
        if self.panels.permission_ask.is_some() {
            self.handle_permission_ask_key(key);
        } else if self.panels.todo_dialog.is_some() {
            self.handle_todo_dialog_key(key);
        } else if self.panels.view_overlay.is_some() {
            self.handle_view_key(key);
        } else if self.panels.picker.is_some() {
            self.handle_picker_key(key);
        } else if self.active_subagent.is_some() {
            self.handle_agent_key(key);
        } else {
            self.handle_composer_key(key);
        }
    }

    /// Handle a key.
    pub fn handle_key(&mut self, key: &KeyEvent)
        ensures
            final(self)@ == old(self)@.keyed(*key),
    {
        self.handle_key_inner(key);
        self.reconcile_theme_preview();
    }
}

/// The quit key leaves only when it is pressed again: a first press is asked to
/// be confirmed, and a second one right behind it leaves.
pub proof fn quitting_is_confirmed(scene: Scene)
    requires
        !scene.quit_confirmed(),
    ensures
        scene.acted(Action::Quit).quit == scene.quit,
        scene.acted(Action::Quit).quit_confirmed(),
        scene.acted(Action::Quit).acted(Action::Quit).quit,
{
    reveal(Scene::acted);
    reveal(Scene::performed);
    reveal(Scene::quit_pressed);
    reveal(edited);
}

/// Ctrl+c clears a draft or counts towards leaving: it sends nothing, and so
/// interrupts nothing.
pub proof fn ctrl_c_interrupts_nothing(scene: Scene)
    ensures
        scene.broken().ctl == scene.ctl,
        scene.broken().session == scene.session,
        scene.broken().queue == scene.queue,
{
    reveal(Scene::broken);
    reveal(Scene::tray_settled);
}

/// Esc interrupts a running turn and leaves the draft and its images as they
/// are.
pub proof fn interrupting_keeps_the_draft(scene: Scene)
    requires
        scene.session.state != RunState::Idle,
        !text::leads(scene.draft.input.area.text, '/'),
    ensures
        scene.backed_out().draft == scene.draft.undragged(),
        scene.backed_out().queue == scene.queue,
        scene.backed_out().ctl == scene.ctl.interrupted().with(
            Deed::Send(Order::Interrupt { session_id: scene.session.id }),
        ),
{
    reveal(Scene::backed_out);
    reveal(Scene::turn_interrupted);
}

} // verus!
