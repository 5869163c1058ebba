//! The mouse: the wheel, the buttons of the composer's rim, and the drags that
//! select text in the chat and in the well.

use vstd::prelude::*;
use vstd::string::*;
use crate::app;
use crate::app::{App, Scene, DOUBLE_CLICK_WINDOW, PROMPT_FLASH_TTL};
use crate::app::draft;
use crate::app::session;
use crate::app::session::find_child;
use crate::app::state;
use crate::app::state::{Chat, ChatState, Child, Draft, DraftState, PanelState};
use crate::bus::{MouseButton, MouseEvent, MouseEventKind};
use crate::controller::Deed;
use crate::picker;
use crate::selection;
use crate::selection::{is_over, word_span, InputSel, Pane, PromptRow, SelPoint, Selection};
use crate::text;
use crate::text::{cat3, cat5, is_blank, number};
use crate::transcript::{Timeline, Transcript};

verus! {

/// The first of the prompts from `i` on that is that cell.
pub open spec fn prompt_of(users: Seq<PromptRow>, cell: usize, i: int) -> Option<int>
    decreases users.len() - i,
{
    if 0 <= i < users.len() {
        if users[i].cell == cell {
            Some(i)
        } else {
            prompt_of(users, cell, i + 1)
        }
    } else {
        None
    }
}

/// How many prompts there are from the last of that cell on, among the first
/// `n`.
pub open spec fn from_newest(users: Seq<PromptRow>, cell: usize, n: int) -> int
    decreases n,
{
    if n <= 0 {
        1
    } else if users[n - 1].cell == cell {
        users.len() - (n - 1)
    } else {
        from_newest(users, cell, n - 1)
    }
}

fn find_prompt(users: &Vec<PromptRow>, cell: usize) -> (r: Option<usize>)
    ensures
        match r {
            Some(i) => prompt_of(users@, cell, 0) == Some(i as int) && i < users.len(),
            None => prompt_of(users@, cell, 0) is None,
        },
{
    let mut i: usize = 0;
    while i < users.len()
        invariant
            i <= users.len(),
            prompt_of(users@, cell, 0) == prompt_of(users@, cell, i as int),
        decreases users.len() - i,
    {
        if users[i].cell == cell {
            return Some(i);
        }
        i += 1;
    }
    None
}

fn count_from_newest(users: &Vec<PromptRow>, cell: usize) -> (r: usize)
    ensures
        r == from_newest(users@, cell, users@.len() as int),
{
    let mut n: usize = users.len();
    while n > 0
        invariant
            n <= users.len(),
            from_newest(users@, cell, users@.len() as int) == from_newest(users@, cell, n as int),
        decreases n,
    {
        if users[n - 1].cell == cell {
            return users.len() - (n - 1);
        }
        n -= 1;
    }
    1
}

impl Pane {
    /// The prompt that a jump goes to: the one before the last jump's, and
    /// from the oldest, or without an earlier jump, the newest.
    pub open spec fn jump_target(self, last: Option<usize>) -> PromptRow {
        let rank = match last {
            Some(cell) => prompt_of(self.users, cell, 0),
            None => None,
        };
        if rank is Some && rank->0 > 0 {
            self.users[rank->0 - 1]
        } else {
            self.users.last()
        }
    }

    /// How far up the chat stands with that line at the top of the pane.
    pub open spec fn anchored(self, line: usize) -> int {
        let h = self.area.height as int;
        let total = self.total as int;
        let start = picker::lesser(line as int, picker::less(total, h));
        picker::less(total, picker::lesser(start + h, total))
    }
}

impl ChatState {
    /// Nothing selected, and no drag under way.
    pub open spec fn unselected(self) -> ChatState {
        ChatState { sel: None, selecting: false, ..self }
    }

    pub open spec fn unclicked(self) -> ChatState {
        ChatState { sel: None, selecting: false, last_click: None, ..self }
    }

    /// This click follows another on the same spot.
    pub open spec fn doubled(self, now: u64, col: u16, row: u16) -> bool {
        match self.last_click {
            Some((at, x, y)) => app::since(now, at) < DOUBLE_CLICK_WINDOW && x - col <= 1 && col - x
                <= 1 && y == row,
            None => false,
        }
    }

    /// A drag begun.
    pub open spec fn grabbed(self, now: u64, col: u16, row: u16, p: SelPoint) -> ChatState {
        ChatState {
            sel: Some(Selection { anchor: p, head: p }),
            selecting: true,
            last_click: Some((now, col, row)),
            ..self
        }
    }

    pub open spec fn clicked(self, now: u64, col: u16, row: u16) -> ChatState {
        ChatState { last_click: Some((now, col, row)), ..self }
    }

    pub open spec fn headed(self, head: SelPoint) -> ChatState {
        ChatState {
            sel: match self.sel {
                Some(s) => Some(Selection { head, ..s }),
                None => None,
            },
            ..self
        }
    }

    /// The prompt that was jumped to at the top of the pane, and washed.
    pub open spec fn jumped(self, now: u64) -> ChatState {
        let target = self.view.jump_target(self.jump_cell);
        ChatState {
            jump_cell: Some(target.cell),
            scroll_up: self.view.anchored(target.line) as usize,
            flash: Some(
                (
                    target.cell,
                    picker::lesser(now + PROMPT_FLASH_TTL, u64::MAX as int) as u64,
                ),
            ),
            ..self
        }
    }

    /// The word at a point selected.
    pub open spec fn word_marked(self, line: usize, start: int, width: int) -> ChatState {
        ChatState {
            sel: Some(
                Selection {
                    anchor: SelPoint { line, col: start as usize },
                    head: SelPoint {
                        line,
                        col: picker::less(
                            picker::lesser(start + width, usize::MAX as int),
                            1,
                        ) as usize,
                    },
                },
            ),
            selecting: false,
            ..self
        }
    }
}

impl Chat {
    fn unselect(&mut self)
        ensures
            final(self)@ == old(self)@.unselected(),
    {
        self.sel = None;
        self.selecting = false;
    }

    fn unclick(&mut self)
        ensures
            final(self)@ == old(self)@.unclicked(),
    {
        self.sel = None;
        self.selecting = false;
        self.last_click = None;
    }

    fn is_double(&self, now: u64, col: u16, row: u16) -> (r: bool)
        ensures
            r == self@.doubled(now, col, row),
    {
        match self.last_click {
            Some((at, x, y)) => {
                let gap: u16 = if x >= col {
                    x - col
                } else {
                    col - x
                };
                now.saturating_sub(at) < DOUBLE_CLICK_WINDOW && gap <= 1 && y == row
            },
            None => false,
        }
    }

    fn grab(&mut self, now: u64, col: u16, row: u16, p: SelPoint)
        ensures
            final(self)@ == old(self)@.grabbed(now, col, row, p),
    {
        self.sel = Some(Selection { anchor: p, head: p });
        self.selecting = true;
        self.last_click = Some((now, col, row));
    }

    fn click(&mut self, now: u64, col: u16, row: u16)
        ensures
            final(self)@ == old(self)@.clicked(now, col, row),
    {
        self.last_click = Some((now, col, row));
    }

    fn head(&mut self, head: SelPoint)
        ensures
            final(self)@ == old(self)@.headed(head),
    {
        match self.sel {
            Some(s) => {
                self.sel = Some(Selection { anchor: s.anchor, head });
            },
            None => {},
        }
    }

    fn jump(&mut self, now: u64) -> (r: usize)
        requires
            old(self)@.view.users.len() > 0,
        ensures
            final(self)@ == old(self)@.jumped(now),
            r == from_newest(
                old(self)@.view.users,
                old(self)@.view.jump_target(old(self)@.jump_cell).cell,
                old(self)@.view.users.len() as int,
            ),
    {
        let users = &self.view.users;
        let rank: Option<usize> = match self.prompt_jump_cell {
            Some(cell) => find_prompt(users, cell),
            None => None,
        };
        let target: PromptRow = match rank {
            Some(i) => if i > 0 {
                users[i - 1]
            } else {
                users[users.len() - 1]
            },
            None => users[users.len() - 1],
        };
        let place: usize = count_from_newest(users, target.cell);
        let h: usize = self.view.area.height as usize;
        let total: usize = self.view.total;
        let most: usize = total.saturating_sub(h);
        let start: usize = if target.line <= most {
            target.line
        } else {
            most
        };
        let end: usize = start.saturating_add(h);
        let end: usize = if end <= total {
            end
        } else {
            total
        };
        self.prompt_jump_cell = Some(target.cell);
        self.scroll_up = total.saturating_sub(end);
        self.prompt_flash = Some((target.cell, now.saturating_add(PROMPT_FLASH_TTL)));
        place
    }

    fn mark_word(&mut self, line: usize, start: usize, width: usize)
        ensures
            final(self)@ == old(self)@.word_marked(line, start as int, width as int),
    {
        self.sel = Some(
            Selection {
                anchor: SelPoint { line, col: start },
                head: SelPoint { line, col: start.saturating_add(width).saturating_sub(1) },
            },
        );
        self.selecting = false;
    }
}

impl DraftState {
    /// Nothing selected in the well, and no drag under way.
    pub open spec fn unselected(self) -> DraftState {
        DraftState { input_sel: None, input_selecting: false, ..self }
    }

    /// The caret placed at a cell, and a drag begun there.
    pub open spec fn grabbed(self, cell: (usize, usize)) -> DraftState {
        let m = self.input.mirrored(self.wrap_width as int);
        DraftState {
            input_sel: Some(InputSel { anchor: cell, head: cell }),
            input_selecting: true,
            ..self.typed(
                m.at(
                    self.input.mirror(self.wrap_width as int).boundary_before(
                        cell.0 as int,
                        cell.1 as int,
                    ),
                ),
            )
        }
    }

    pub open spec fn headed(self, head: (usize, usize)) -> DraftState {
        DraftState {
            input_sel: match self.input_sel {
                Some(s) => Some(InputSel { head, ..s }),
                None => None,
            },
            ..self
        }
    }
}

impl Draft {
    fn unselect(&mut self)
        ensures
            final(self)@ == old(self)@.unselected(),
    {
        self.input_sel = None;
        self.input_selecting = false;
    }

    fn grab(&mut self, cell: (usize, usize))
        ensures
            final(self)@ == old(self)@.grabbed(cell),
    {
        let offset: usize = self.input.screen_to_char(self.wrap_width, cell.0, cell.1);
        self.input.set_cursor_char(offset);
        self.input_sel = Some(InputSel { anchor: cell, head: cell });
        self.input_selecting = true;
    }

    fn head(&mut self, head: (usize, usize))
        ensures
            final(self)@ == old(self)@.headed(head),
    {
        match self.input_sel {
            Some(s) => {
                self.input_sel = Some(InputSel { anchor: s.anchor, head });
            },
            None => {},
        }
    }
}

impl PanelState {
    /// Something stands over the chat: no click reaches what is behind it.
    pub open spec fn modal(self) -> bool {
        self.todo is Some || self.card is Some || self.ask is Some || self.picker is Some
    }
}

impl Scene {
    /// The subagent on show, where there is one.
    pub open spec fn shown_child(self) -> Option<int> {
        match self.active {
            Some(id) => session::child_at(self.subagents, id, 0),
            None => None,
        }
    }

    /// The timeline on show.
    pub open spec fn shown(self) -> Timeline {
        match self.shown_child() {
            Some(i) => self.subagents[i].transcript,
            None => self.transcript,
        }
    }

    pub open spec fn showing(self, t: Timeline) -> Scene {
        match self.shown_child() {
            Some(i) => self.raising(
                self.subagents.update(i, Child { transcript: t, ..self.subagents[i] }),
            ),
            None => self.telling(t),
        }
    }

    /// A cell of the timeline on show shown in full, or folded again.
    #[verifier::opaque]
    pub open spec fn cell_turned(self, i: int) -> Scene {
        if i >= self.shown().cells.len() {
            self
        } else {
            let open = !self.shown().cells[i].expanded;
            self.showing(self.shown().turned(i)).told(
                (if open {
                    self.tr("expanded"@, "已展开"@)
                } else {
                    self.tr("collapsed"@, "已折叠"@)
                }) + " "@ + self.tr("tool output · click toggles"@, "工具输出 · 点击切换"@),
            )
        }
    }

    /// The chat taken to one of the user's prompts.
    #[verifier::opaque]
    pub open spec fn prompt_jumped(self) -> Scene {
        let v = self.chat.view;
        if v.area.width == 0 || v.area.height == 0 {
            self
        } else if v.users.len() == 0 {
            self.told_tr(
                "no user prompts yet — ↥ finds them once you send one"@,
                "还没有用户输入 —— 发送后 ↥ 即可跳转"@,
            )
        } else {
            let target = v.jump_target(self.chat.jump_cell);
            let place = from_newest(v.users, target.cell, v.users.len() as int);
            self.chatting(self.chat.jumped(self.host.now)).told(
                "↥ "@ + self.tr("user prompt"@, "用户输入"@) + " "@ + text::decimal(place as nat)
                    + "/"@ + text::decimal(v.users.len()) + " · "@ + self.tr(
                    "newest first"@,
                    "从最新往前"@,
                ),
            )
        }
    }

    /// The drag in the chat ended: what it covers is copied, and a click, or
    /// white space alone, is no selection.
    #[verifier::opaque]
    pub open spec fn chat_drag_ended(self) -> Scene {
        match self.chat.sel {
            None => self.redrawn(),
            Some(sel) => {
                let t = self.chat.view.selected(sel);
                if sel.anchor == sel.head || text::blank(t) {
                    self.chatting(ChatState { sel: None, ..self.chat }).redrawn()
                } else {
                    self.redrawn().done(Deed::Copy(t))
                }
            },
        }
    }

    /// The word at a point selected and copied.
    #[verifier::opaque]
    pub open spec fn word_selected(self, p: SelPoint) -> Scene {
        match self.chat.view.line_text(p.line as int) {
            None => self,
            Some(line) => match selection::word_at(line, p.col as int) {
                None => self.chatting(ChatState { sel: None, ..self.chat }),
                Some((a, b)) => self.chatting(
                    self.chat.word_marked(
                        p.line,
                        selection::cells_of(line, 0, a),
                        selection::cells_of(line, a, b),
                    ),
                ).done(Deed::Copy(line.subrange(a, b))),
            },
        }
    }

    /// The tool cell that owns the line under a cell of the screen.
    pub open spec fn tool_under(self, col: u16, row: u16) -> Option<usize> {
        match self.chat.view.hit(col, row) {
            Some(p) => self.chat.view.line_owner(p.line as int),
            None => None,
        }
    }

    pub open spec fn well_released(self) -> Scene {
        self.drafted(self.draft.unselected())
    }

    /// A click in the chat, or outside of it.
    #[verifier::opaque]
    pub open spec fn chat_pressed(self, col: u16, row: u16) -> Scene {
        let s = self.well_released();
        match self.chat.view.hit(col, row) {
            None => s.chatting(s.chat.unselected()),
            Some(p) => if self.chat.doubled(self.host.now, col, row) {
                s.chatting(s.chat.clicked(self.host.now, col, row)).word_selected(p)
            } else {
                s.chatting(s.chat.grabbed(self.host.now, col, row, p))
            },
        }
    }

    /// A click in the well.
    #[verifier::opaque]
    pub open spec fn well_pressed(self, col: u16, row: u16) -> Scene {
        self.chatting(self.chat.unclicked()).drafted(
            self.draft.grabbed(self.draft.cell_at(col, row)),
        ).menu_refreshed()
    }

    /// The left button pressed: on a button of the rim, on a tool's card, in
    /// the well, or in the chat.
    #[verifier::opaque]
    pub open spec fn pressed(self, col: u16, row: u16) -> Scene {
        let s = self.redrawn();
        let free = !s.panels.modal();
        if free && selection::over(s.panels.plan_chip, col, row) {
            s.well_released().todo_opened()
        } else if free && selection::over(s.panels.jump_btn, col, row) {
            s.well_released().prompt_jumped()
        } else if s.tool_under(col, row) is Some {
            s.chatting(s.chat.unclicked()).drafted(
                DraftState { input_selecting: false, ..s.draft },
            ).cell_turned(s.tool_under(col, row)->0 as int)
        } else if free && selection::over(s.panels.expand_btn, col, row) {
            s.well_released().paneled(PanelState { expanded: !s.panels.expanded, ..s.panels })
        } else if free && selection::over(s.panels.scroll_btn, col, row) {
            s.well_released().at_tail()
        } else if free && s.draft.area.covers(col, row) {
            s.well_pressed(col, row)
        } else {
            s.chat_pressed(col, row)
        }
    }

    /// A drag in the chat followed. Past the pane's edge it scrolls.
    #[verifier::opaque]
    pub open spec fn chat_dragged(self, col: u16, row: u16) -> Scene {
        let a = self.chat.view.area;
        let s = if row < a.y {
            self.scrolled(2)
        } else if row >= selection::edge(a.y, a.height) {
            self.scrolled(-2)
        } else {
            self
        };
        s.chatting(s.chat.headed(s.chat.view.nearest(col, row))).redrawn()
    }

    #[verifier::opaque]
    pub open spec fn dragged(self, col: u16, row: u16) -> Scene {
        if self.chat.selecting {
            self.chat_dragged(col, row)
        } else if self.draft.input_selecting {
            self.drafted(self.draft.headed(self.draft.cell_at(col, row))).redrawn()
        } else {
            self
        }
    }

    #[verifier::opaque]
    pub open spec fn lifted(self) -> Scene {
        if self.chat.selecting {
            self.chatting(ChatState { selecting: false, ..self.chat }).chat_drag_ended()
        } else if self.draft.input_selecting {
            self.drafted(DraftState { input_selecting: false, ..self.draft }).drag_ended()
        } else {
            self
        }
    }

    /// The pointer moved: what it is over is lit.
    #[verifier::opaque]
    pub open spec fn hovered(self, col: u16, row: u16) -> Scene {
        let free = !self.panels.modal();
        let att = draft::chip_under(self.draft.att_chips, col, row, 0);
        let p = self.panels;
        let panels = PanelState {
            hover_plan_chip: free && selection::over(p.plan_chip, col, row),
            hover_jump_btn: free && selection::over(p.jump_btn, col, row),
            hover_expand_btn: free && selection::over(p.expand_btn, col, row),
            hover_scroll_btn: free && selection::over(p.scroll_btn, col, row),
            ..p
        };
        let s = self.paneled(panels).drafted(DraftState { hover_att: att, ..self.draft });
        if att == self.draft.hover_att && panels.hover_plan_chip == p.hover_plan_chip
            && panels.hover_jump_btn == p.hover_jump_btn && panels.hover_expand_btn
            == p.hover_expand_btn && panels.hover_scroll_btn == p.hover_scroll_btn {
            s
        } else {
            s.redrawn()
        }
    }

    /// The wheel: over what is open, else over the chat.
    #[verifier::opaque]
    pub open spec fn wheeled(self, down: bool) -> Scene {
        if self.panels.todo is Some {
            self.todo_moved(down, 3)
        } else if self.panels.card is Some {
            self.card_moved(down, 3)
        } else if self.panels.picker is Some {
            self.picker_wheeled(down, 1)
        } else {
            self.scrolled(
                if down {
                    -3
                } else {
                    3
                },
            )
        }
    }

    /// What a mouse event does.
    #[verifier::opaque]
    pub open spec fn moused(self, m: MouseEvent) -> Scene {
        match m.kind {
            MouseEventKind::ScrollUp => self.wheeled(false),
            MouseEventKind::ScrollDown => self.wheeled(true),
            MouseEventKind::Down(MouseButton::Left) => self.pressed(m.column, m.row),
            MouseEventKind::Drag(MouseButton::Left) => self.dragged(m.column, m.row),
            MouseEventKind::Up(MouseButton::Left) => self.lifted(),
            MouseEventKind::Moved => self.hovered(m.column, m.row),
            _ => self,
        }
    }
}

impl App {
    fn shown_child(&self) -> (r: Option<usize>)
        ensures
            match r {
                Some(i) => self@.shown_child() == Some(i as int) && i < self.subagents@.len(),
                None => self@.shown_child() is None,
            },
    {
        match &self.active_subagent {
            Some(id) => find_child(&self.subagents, id.as_str()),
            None => None,
        }
    }

    /// The transcript on show.
    pub fn displayed_transcript(&self) -> (r: &Transcript)
        ensures
            r@ == self@.shown(),
    {
        match self.shown_child() {
            Some(i) => &self.subagents[i].transcript,
            None => &self.transcript,
        }
    }

    fn turn_shown(&mut self, i: usize) -> (r: bool)
        requires
            i < old(self)@.shown().cells.len(),
        ensures
            final(self)@ == old(self)@.showing(old(self)@.shown().turned(i as int)),
            r == !old(self)@.shown().cells[i as int].expanded,
    {
        match self.shown_child() {
            Some(c) => {
                let ghost before = self@.subagents;
                assert(before[c as int] == self.subagents@[c as int]@);
                let open = self.subagents[c].transcript.turn(i);
                assert(state::children(self.subagents@) == before.update(
                    c as int,
                    Child {
                        transcript: before[c as int].transcript.turned(i as int),
                        ..before[c as int]
                    },
                ));
                open
            },
            None => self.transcript.turn(i),
        }
    }

    /// Show a cell in full, or fold it again.
    pub fn toggle_tool(&mut self, i: usize)
        ensures
            final(self)@ == old(self)@.cell_turned(i as int),
    {
        reveal(Scene::cell_turned);
        let shown = self.displayed_transcript();
        assert(shown@.cells.len() == shown.cells@.len());
        if i >= shown.cells.len() {
            return;
        }
        let open = self.turn_shown(i);
        let label = if open {
            self.locale.tr("expanded", "已展开")
        } else {
            self.locale.tr("collapsed", "已折叠")
        };
        let t = cat3(
            label,
            " ",
            self.locale.tr("tool output · click toggles", "工具输出 · 点击切换"),
        );
        self.show_tip(t);
    }

    /// Take the chat to one of the user's prompts: the newest first, then each
    /// time the one before, and round again.
    pub fn jump_to_user_prompt(&mut self)
        ensures
            final(self)@ == old(self)@.prompt_jumped(),
    {
        reveal(Scene::prompt_jumped);
        if self.chat.view.area.width == 0 || self.chat.view.area.height == 0 {
            return;
        }
        let n: usize = self.chat.view.users.len();
        if n == 0 {
            self.tip_tr(
                "no user prompts yet — ↥ finds them once you send one",
                "还没有用户输入 —— 发送后 ↥ 即可跳转",
            );
            return;
        }
        let place: usize = self.chat.jump(self.host.now);
        let place = number(place as u64);
        let all = number(n as u64);
        let mut t = cat5(
            "↥ ",
            self.locale.tr("user prompt", "用户输入"),
            " ",
            place.as_str(),
            "/",
        );
        t.append(all.as_str());
        t.append(" · ");
        t.append(self.locale.tr("newest first", "从最新往前"));
        self.show_tip(t);
    }

    fn unselect_chat(&mut self)
        ensures
            final(self)@ == old(self)@.chatting(ChatState { sel: None, ..old(self)@.chat }),
    {
        self.chat.sel = None;
    }

    pub fn finish_selection(&mut self)
        ensures
            final(self)@ == old(self)@.chat_drag_ended(),
    {
        reveal(Scene::chat_drag_ended);
        self.needs_redraw = true;
        let sel = match self.chat.sel {
            Some(s) => s,
            None => {
                return;
            },
        };
        if sel.is_caret() {
            self.unselect_chat();
            return;
        }
        let t = self.chat.view.selection_text(sel);
        if is_blank(t.as_str()) {
            self.unselect_chat();
            return;
        }
        self.copy_text(t);
    }

    pub fn select_word_at(&mut self, p: SelPoint)
        ensures
            final(self)@ == old(self)@.word_selected(p),
    {
        reveal(Scene::word_selected);
        let found: Option<(usize, usize, String)> = match self.chat.view.line_text(p.line) {
            Some(line) => word_span(line.as_str(), p.col),
            None => {
                return;
            },
        };
        match found {
            None => self.unselect_chat(),
            Some((start, width, word)) => {
                self.chat.mark_word(p.line, start, width);
                self.copy_text(word);
            },
        }
    }

    /// Something stands over the chat.
    pub fn modal_open(&self) -> (r: bool)
        ensures
            r == self@.panels.modal(),
    {
        self.panels.todo_dialog.is_some() || self.panels.view_overlay.is_some()
            || self.panels.permission_ask.is_some() || self.panels.picker.is_some()
    }

    pub fn tool_at(&self, col: u16, row: u16) -> (r: Option<usize>)
        ensures
            r == self@.tool_under(col, row),
    {
        match self.chat.view.hit(col, row) {
            Some(p) => self.chat.view.line_owner(p.line),
            None => None,
        }
    }

    fn release_well(&mut self)
        ensures
            final(self)@ == old(self)@.well_released(),
    {
        self.draft.unselect();
    }

    fn press_chat(&mut self, col: u16, row: u16)
        ensures
            final(self)@ == old(self)@.chat_pressed(col, row),
    {
        reveal(Scene::chat_pressed);
        self.release_well();
        match self.chat.view.hit(col, row) {
            None => self.chat.unselect(),
            Some(p) => {
                if self.chat.is_double(self.host.now, col, row) {
                    self.chat.click(self.host.now, col, row);
                    self.select_word_at(p);
                } else {
                    self.chat.grab(self.host.now, col, row, p);
                }
            },
        }
    }

    fn press_well(&mut self, col: u16, row: u16)
        ensures
            final(self)@ == old(self)@.well_pressed(col, row),
    {
        reveal(Scene::well_pressed);
        self.chat.unclick();
        let cell = self.input_cell_at(col, row);
        self.draft.grab(cell);
        self.refresh_file_menu();
    }

    fn press_tool(&mut self, i: usize)
        ensures
            final(self)@ == old(self)@.chatting(old(self)@.chat.unclicked()).drafted(
                DraftState { input_selecting: false, ..old(self)@.draft },
            ).cell_turned(i as int),
    {
        self.chat.unclick();
        self.draft.input_selecting = false;
        self.toggle_tool(i);
    }

    fn press_expand(&mut self)
        ensures
            final(self)@ == old(self)@.well_released().paneled(
                PanelState { expanded: !old(self)@.panels.expanded, ..old(self)@.panels },
            ),
    {
        self.release_well();
        self.panels.composer_expanded = !self.panels.composer_expanded;
    }

    fn press_tail(&mut self)
        ensures
            final(self)@ == old(self)@.well_released().at_tail(),
    {
        self.release_well();
        self.chat.scroll_up = 0;
    }

    fn press(&mut self, col: u16, row: u16)
        ensures
            final(self)@ == old(self)@.pressed(col, row),
    {
        reveal(Scene::pressed);
        self.needs_redraw = true;
        let free = !self.modal_open();
        if free && is_over(&self.panels.plan_chip, col, row) {
            self.release_well();
            self.open_todo_dialog();
            return;
        }
        if free && is_over(&self.panels.prompt_jump_btn, col, row) {
            self.release_well();
            self.jump_to_user_prompt();
            return;
        }
        match self.tool_at(col, row) {
            Some(i) => {
                self.press_tool(i);
                return;
            },
            None => {},
        }
        if free && is_over(&self.panels.expand_btn, col, row) {
            self.press_expand();
        } else if free && is_over(&self.panels.scroll_btn, col, row) {
            self.press_tail();
        } else if free && self.input_hit(col, row) {
            self.press_well(col, row);
        } else {
            self.press_chat(col, row);
        }
    }

    fn drag_chat(&mut self, col: u16, row: u16)
        ensures
            final(self)@ == old(self)@.chat_dragged(col, row),
    {
        reveal(Scene::chat_dragged);
        reveal(Scene::scrolled);
        let a = self.chat.view.area;
        if row < a.y {
            self.scroll_by(2);
        } else if row >= a.y.saturating_add(a.height) {
            self.scroll_by(-2);
        }
        let head = self.chat.view.clamp(col, row);
        self.chat.head(head);
        self.needs_redraw = true;
    }

    fn drag(&mut self, col: u16, row: u16)
        ensures
            final(self)@ == old(self)@.dragged(col, row),
    {
        reveal(Scene::dragged);
        if self.chat.selecting {
            self.drag_chat(col, row);
        } else if self.draft.input_selecting {
            let head = self.input_cell_at(col, row);
            self.draft.head(head);
            self.needs_redraw = true;
        }
    }

    fn lift(&mut self)
        ensures
            final(self)@ == old(self)@.lifted(),
    {
        reveal(Scene::lifted);
        if self.chat.selecting {
            self.chat.selecting = false;
            self.finish_selection();
        } else if self.draft.input_selecting {
            self.draft.input_selecting = false;
            self.finish_input_selection();
        }
    }

    fn hover_rim(&mut self, col: u16, row: u16) -> (r: bool)
        ensures
            ({
                let p = old(self)@.panels;
                let free = !p.modal();
                let panels = PanelState {
                    hover_plan_chip: free && selection::over(p.plan_chip, col, row),
                    hover_jump_btn: free && selection::over(p.jump_btn, col, row),
                    hover_expand_btn: free && selection::over(p.expand_btn, col, row),
                    hover_scroll_btn: free && selection::over(p.scroll_btn, col, row),
                    ..p
                };
                &&& final(self)@ == old(self)@.paneled(panels)
                &&& r == !(panels.hover_plan_chip == p.hover_plan_chip && panels.hover_jump_btn
                    == p.hover_jump_btn && panels.hover_expand_btn == p.hover_expand_btn
                    && panels.hover_scroll_btn == p.hover_scroll_btn)
            }),
    {
        let free = !self.modal_open();
        let plan = free && is_over(&self.panels.plan_chip, col, row);
        let jump = free && is_over(&self.panels.prompt_jump_btn, col, row);
        let expand = free && is_over(&self.panels.expand_btn, col, row);
        let scroll = free && is_over(&self.panels.scroll_btn, col, row);
        let new = plan != self.panels.hover_plan_chip || jump
            != self.panels.hover_prompt_jump_btn || expand != self.panels.hover_expand_btn || scroll
            != self.panels.hover_scroll_btn;
        self.panels.hover_plan_chip = plan;
        self.panels.hover_prompt_jump_btn = jump;
        self.panels.hover_expand_btn = expand;
        self.panels.hover_scroll_btn = scroll;
        new
    }

    fn hover_chip(&mut self, col: u16, row: u16) -> (r: bool)
        ensures
            final(self)@ == old(self)@.drafted(
                DraftState {
                    hover_att: draft::chip_under(old(self)@.draft.att_chips, col, row, 0),
                    ..old(self)@.draft
                },
            ),
            r == (draft::chip_under(old(self)@.draft.att_chips, col, row, 0)
                != old(self)@.draft.hover_att),
    {
        let att: Option<usize> = self.chip_at(col, row);
        let new = match (att, self.draft.hover_att) {
            (Some(a), Some(b)) => a != b,
            (None, None) => false,
            _ => true,
        };
        self.draft.hover_att = att;
        new
    }

    fn hover(&mut self, col: u16, row: u16)
        ensures
            final(self)@ == old(self)@.hovered(col, row),
    {
        reveal(Scene::hovered);
        let rim = self.hover_rim(col, row);
        let chip = self.hover_chip(col, row);
        if rim || chip {
            self.needs_redraw = true;
        }
    }

    fn wheel(&mut self, down: bool)
        ensures
            final(self)@ == old(self)@.wheeled(down),
    {
        reveal(Scene::wheeled);
        if self.panels.todo_dialog.is_some() {
            self.todo_dialog_scroll_by(down, 3);
        } else if self.panels.view_overlay.is_some() {
            self.view_scroll_by(down, 3);
        } else if self.panels.picker.is_some() {
            self.picker_scroll_by(down, 1);
        } else if down {
            self.scroll_by(-3);
        } else {
            self.scroll_by(3);
        }
    }

    /// Handle a mouse event.
    pub fn handle_mouse(&mut self, mouse: MouseEvent)
        ensures
            final(self)@ == old(self)@.moused(mouse),
    {
        reveal(Scene::moused);
        match mouse.kind {
            MouseEventKind::ScrollUp => self.wheel(false),
            MouseEventKind::ScrollDown => self.wheel(true),
            MouseEventKind::Down(MouseButton::Left) => self.press(mouse.column, mouse.row),
            MouseEventKind::Drag(MouseButton::Left) => self.drag(mouse.column, mouse.row),
            MouseEventKind::Up(MouseButton::Left) => self.lift(),
            MouseEventKind::Moved => self.hover(mouse.column, mouse.row),
            _ => {},
        }
    }
}

/// A modal owns the screen: a click does not reach the chrome behind it.
pub proof fn modal_keeps_clicks_out(scene: Scene, col: u16, row: u16)
    requires
        scene.panels.modal(),
    ensures
        scene.pressed(col, row).panels == scene.panels,
        scene.pressed(col, row).draft.input == scene.draft.input,
{
    reveal(Scene::pressed);
    reveal(Scene::chat_pressed);
    reveal(Scene::cell_turned);
    reveal(Scene::word_selected);
}

} // verus!
