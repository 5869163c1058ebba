//! What the mouse promises: what a press, a drag and a release do, and where a
//! jump goes.

use vstd::prelude::*;
use crate::app::draft;
use crate::app::mouse;
use crate::app::Scene;
use crate::app::state::{ChatState, DraftState};
use crate::bus::{MouseButton, MouseEvent, MouseEventKind};
use crate::controller::Deed;
use crate::input::composer;
use crate::selection;
use crate::selection::{Pane, PromptRow, Rect, SelPoint, Selection};
use crate::text;

verus! {

proof fn prompt_found(users: Seq<PromptRow>, cell: usize, i: int, k: int)
    requires
        0 <= i <= k < users.len(),
    ensures
        match mouse::prompt_of(users, cell, i) {
            Some(j) => i <= j < users.len() && users[j].cell == cell && (k < j ==> users[k].cell
                != cell),
            None => users[k].cell != cell,
        },
    decreases users.len() - i,
{
    if users[i].cell != cell {
        if i + 1 <= k {
            prompt_found(users, cell, i + 1, k);
        } else if i + 1 < users.len() {
            prompt_found(users, cell, i + 1, i + 1);
        }
    }
}

/// The first jump goes to the newest prompt, each further one to the prompt
/// before, and from the oldest it goes to the newest again.
pub proof fn jumps_walk_back_through_the_prompts(p: Pane, k: int)
    requires
        0 <= k < p.users.len(),
        forall|i: int, j: int|
            0 <= i < j < p.users.len() ==> (#[trigger] p.users[i]).cell != (
            #[trigger] p.users[j]).cell,
    ensures
        p.jump_target(None) == p.users[p.users.len() - 1],
        p.jump_target(Some(p.users[k].cell)) == p.users[if k == 0 {
            p.users.len() - 1
        } else {
            k - 1
        }],
{
    prompt_found(p.users, p.users[k].cell, 0, k);
    let j = mouse::prompt_of(p.users, p.users[k].cell, 0)->0;
    if j < k {
        assert(p.users[j].cell != p.users[k].cell);
    }
}

/// A line that is jumped to stands at the top of the pane, as far as there is
/// text to fill the pane below it.
pub proof fn a_jump_puts_the_line_at_the_top(p: Pane, line: usize)
    requires
        line < p.total,
    ensures
        ({
            let up = p.anchored(line);
            let h = p.area.height as int;
            &&& line + h <= p.total ==> p.total - h - up == line
            &&& line + h > p.total ==> up == 0
        }),
{
}

/// A jump remembers its prompt, shows it and washes it for a while; without a
/// prompt it only says so.
pub proof fn a_jump_remembers_its_prompt(scene: Scene)
    requires
        scene.chat.view.area.width > 0,
        scene.chat.view.area.height > 0,
        scene.host.now <= u64::MAX - 5000,
    ensures
        ({
            let s = scene.prompt_jumped();
            let v = scene.chat.view;
            &&& v.users.len() == 0 ==> s.chat == scene.chat
            &&& v.users.len() > 0 ==> {
                let t = v.jump_target(scene.chat.jump_cell);
                &&& s.chat.jump_cell == Some(t.cell)
                &&& s.chat.scroll_up == v.anchored(t.line) as usize
                &&& s.chat.flash == Some((t.cell, (scene.host.now + 5000) as u64))
            }
            &&& s.ctl == scene.ctl
            &&& s.draft == scene.draft
        }),
{
    reveal(Scene::prompt_jumped);
}

/// A second click soon after the first on the same spot is a double click: not
/// later, not on another row, and not more than a column away.
pub proof fn double_clicks_are_near_and_soon(c: ChatState, now: u64, col: u16, row: u16)
    ensures
        c.last_click is None ==> !c.doubled(now, col, row),
        c.last_click matches Some((at, x, y)) ==> (y != row ==> !c.doubled(now, col, row)),
        c.last_click matches Some((at, x, y)) ==> (x > col + 1 || col > x + 1 ==> !c.doubled(
            now,
            col,
            row,
        )),
        c.last_click matches Some((at, x, y)) ==> (now >= at && now - at
            >= 400 ==> !c.doubled(now, col, row)),
        c.last_click matches Some((at, x, y)) ==> (now >= at && now - at
            < 400 && x == col && y == row ==> c.doubled(now, col, row)),
{
}

/// A press in the chat begins a selection at the point under the pointer, and
/// puts out what was selected in the well; outside the chat it puts out both.
pub proof fn a_press_in_the_chat_begins_a_selection(scene: Scene, col: u16, row: u16)
    requires
        !scene.chat.doubled(scene.host.now, col, row),
    ensures
        ({
            let s = scene.chat_pressed(col, row);
            &&& scene.chat.view.hit(col, row) matches Some(p) ==> s.chat.sel == Some(
                Selection { anchor: p, head: p },
            ) && s.chat.selecting && s.chat.last_click == Some((scene.host.now, col, row))
            &&& scene.chat.view.hit(col, row) is None ==> s.chat.sel is None && !s.chat.selecting
            &&& s.draft.input_sel is None
            &&& !s.draft.input_selecting
            &&& s.draft.input == scene.draft.input
            &&& s.ctl == scene.ctl
        }),
{
    reveal(Scene::chat_pressed);
}

/// A double click selects the word under the pointer and copies it.
pub proof fn a_double_click_copies_the_word(scene: Scene, p: SelPoint, line: Seq<char>, a: int, b: int)
    requires
        scene.chat.view.line_text(p.line as int) == Some(line),
        selection::word_at(line, p.col as int) == Some((a, b)),
        0 <= a <= b <= line.len(),
    ensures
        scene.word_selected(p).ctl.effects == scene.ctl.effects.push(
            Deed::Copy(line.subrange(a, b)),
        ),
        scene.word_selected(p).chat.sel matches Some(s) && s.anchor.line == p.line && s.head.line
            == p.line,
{
    reveal(Scene::word_selected);
}

/// A drag moves the head of the selection to the pointer and leaves its anchor;
/// past the edges of the pane it scrolls.
pub proof fn a_drag_moves_the_head(scene: Scene, col: u16, row: u16)
    requires
        scene.chat.selecting,
        scene.chat.sel is Some,
    ensures
        ({
            let s = scene.dragged(col, row);
            let a = scene.chat.view.area;
            &&& s.chat.sel matches Some(x) && x.anchor == scene.chat.sel->0.anchor && x.head
                == scene.chat.view.nearest(col, row)
            &&& a.y <= row && row < selection::edge(a.y, a.height) ==> s.chat.scroll_up
                == scene.chat.scroll_up
            &&& row < a.y ==> s.chat.scroll_up == scene.scrolled(2).chat.scroll_up
            &&& row >= a.y && row >= selection::edge(a.y, a.height) ==> s.chat.scroll_up
                == scene.scrolled(-2).chat.scroll_up
            &&& s.ctl == scene.ctl
        }),
{
    reveal(Scene::dragged);
    reveal(Scene::chat_dragged);
    reveal(Scene::scrolled);
}

/// A release copies what the drag covered, and a click, or white space alone,
/// copies nothing and selects nothing.
pub proof fn a_release_copies_the_selection(scene: Scene)
    requires
        scene.chat.selecting,
        scene.chat.sel is Some,
    ensures
        ({
            let s = scene.lifted();
            let x = scene.chat.sel->0;
            let t = scene.chat.view.selected(x);
            &&& x.anchor != x.head && !text::blank(t) ==> s.ctl.effects == scene.ctl.effects.push(
                Deed::Copy(t),
            ) && s.chat.sel == scene.chat.sel
            &&& x.anchor == x.head || text::blank(t) ==> s.ctl == scene.ctl && s.chat.sel is None
            &&& !s.chat.selecting
            &&& s.draft == scene.draft
        }),
{
    reveal(Scene::lifted);
    reveal(Scene::chat_drag_ended);
}

/// A release in the well copies the characters that the drag covered, both of
/// its ends included; a click copies nothing and selects nothing.
pub proof fn a_release_in_the_well_copies_the_drag(scene: Scene)
    requires
        !scene.chat.selecting,
        scene.draft.input_selecting,
        scene.draft.input_sel is Some,
    ensures
        ({
            let s = scene.lifted();
            let x = scene.draft.input_sel->0;
            let (from, to) = x.ends();
            let m = scene.draft.input.mirror(scene.draft.avail());
            let a = m.boundary_before(from.0 as int, from.1 as int);
            let b = m.boundary_after(to.0 as int, to.1 as int);
            let t = composer::between(scene.draft.input.area.text, a, b);
            &&& x.anchor == x.head ==> s.ctl == scene.ctl && s.draft.input_sel is None
            &&& x.anchor != x.head && a < b && !text::blank(t) ==> s.ctl.effects
                == scene.ctl.effects.push(Deed::Copy(t)) && s.draft.input_sel
                == scene.draft.input_sel
            &&& x.anchor != x.head && (a >= b || text::blank(t)) ==> s.ctl == scene.ctl
                && s.draft.input_sel is None
            &&& !s.draft.input_selecting
            &&& s.draft.input.area == scene.draft.input.area
        }),
{
    reveal(Scene::lifted);
    reveal(Scene::drag_ended);
}

/// A press in the well puts the caret at the cell under the pointer and begins a
/// drag there; the text stays.
pub proof fn a_press_in_the_well_puts_the_caret(d: DraftState, cell: (usize, usize))
    ensures
        ({
            let g = d.grabbed(cell);
            let at = d.input.mirror(d.wrap_width as int).boundary_before(
                cell.0 as int,
                cell.1 as int,
            );
            &&& g.input.area.text == d.input.area.text
            &&& g.input.area.cursor == composer::landing(d.input.area.text, at)
            &&& g.input.area.anchor is None
            &&& g.input_selecting
            &&& g.input_sel matches Some(x) && x.anchor == cell && x.head == cell
        }),
{
}

/// The buttons of the rim do their own where nothing is open over them: the
/// progress chip opens the checklist, the others jump, expand and follow the
/// tail.
pub proof fn buttons_do_their_own(scene: Scene, col: u16, row: u16)
    requires
        scene.panels.todo is None,
        scene.panels.card is None,
        scene.panels.ask is None,
        scene.panels.picker is None,
    ensures
        ({
            let s = scene.pressed(col, row);
            let p = scene.panels;
            let on_plan = selection::over(p.plan_chip, col, row);
            let on_jump = selection::over(p.jump_btn, col, row);
            let on_tool = scene.tool_under(col, row) is Some;
            let on_expand = selection::over(p.expand_btn, col, row);
            let on_tail = selection::over(p.scroll_btn, col, row);
            &&& on_plan && p.plan is Some ==> s.panels.todo is Some
            &&& !on_plan && !on_jump && !on_tool && on_expand ==> s.panels.expanded
                == !scene.panels.expanded
            &&& !on_plan && !on_jump && !on_tool && !on_expand && on_tail ==> s.chat.scroll_up == 0
            &&& !on_plan && !on_jump && !on_tool && !on_expand && !on_tail
                && scene.draft.area.covers(col, row) ==> s.chat.sel is None
        }),
{
    reveal(Scene::pressed);
    reveal(Scene::todo_opened);
    reveal(Scene::well_pressed);
    reveal(Scene::menu_refreshed);
    reveal(Scene::menu_followed);
}

/// The wheel moves what is open, and the chat where nothing is: up shows what
/// was said before, down what came after.
pub proof fn the_wheel_has_a_direction(scene: Scene, m: MouseEvent)
    ensures
        ({
            let p = scene.panels;
            let s = scene.moused(m);
            let free = p.todo is None && p.card is None && p.picker is None;
            &&& m.kind == MouseEventKind::ScrollUp && free ==> s == scene.scrolled(3)
            &&& m.kind == MouseEventKind::ScrollDown && free ==> s == scene.scrolled(-3)
            &&& m.kind == MouseEventKind::ScrollUp && p.todo is Some ==> s == scene.todo_moved(
                false,
                3,
            )
            &&& m.kind == MouseEventKind::ScrollDown && p.todo is Some ==> s == scene.todo_moved(
                true,
                3,
            )
            &&& m.kind == MouseEventKind::ScrollUp && p.todo is None && p.card is Some ==> s
                == scene.card_moved(false, 3)
            &&& m.kind == MouseEventKind::ScrollDown && p.todo is None && p.card is Some ==> s
                == scene.card_moved(true, 3)
            &&& m.kind == MouseEventKind::ScrollUp && p.todo is None && p.card is None && p.picker
                is Some ==> s == scene.picker_wheeled(false, 1)
            &&& m.kind == MouseEventKind::ScrollDown && p.todo is None && p.card is None
                && p.picker is Some ==> s == scene.picker_wheeled(true, 1)
        }),
{
    reveal(Scene::moused);
    reveal(Scene::wheeled);
}

/// The left button presses, drags and releases; the other buttons do nothing.
pub proof fn the_left_button_acts(scene: Scene, m: MouseEvent)
    ensures
        m.kind == MouseEventKind::Down(MouseButton::Left) ==> scene.moused(m) == scene.pressed(
            m.column,
            m.row,
        ),
        m.kind == MouseEventKind::Drag(MouseButton::Left) ==> scene.moused(m) == scene.dragged(
            m.column,
            m.row,
        ),
        m.kind == MouseEventKind::Up(MouseButton::Left) ==> scene.moused(m) == scene.lifted(),
        m.kind == MouseEventKind::Moved ==> scene.moused(m) == scene.hovered(m.column, m.row),
        m.kind == MouseEventKind::Down(MouseButton::Right) ==> scene.moused(m) == scene,
{
    reveal(Scene::moused);
}

proof fn chip_found(chips: Seq<(Rect, usize)>, col: u16, row: u16, i: int, k: int)
    requires
        0 <= i <= k < chips.len(),
    ensures
        draft::chip_under(chips, col, row, i) is None ==> !chips[k].0.covers(col, row),
        draft::chip_under(chips, col, row, i) matches Some(x) ==> exists|j: int|
            i <= j < chips.len() && (#[trigger] chips[j]).0.covers(col, row) && chips[j].1 == x,
    decreases chips.len() - i,
{
    if !chips[i].0.covers(col, row) {
        if i + 1 <= k {
            chip_found(chips, col, row, i + 1, k);
        } else if i + 1 < chips.len() {
            chip_found(chips, col, row, i + 1, i + 1);
        }
    }
}

/// What the pointer is over is lit, and nothing else: a chip of the draft, and a
/// button where nothing is open over it.
pub proof fn the_pointer_lights_what_it_is_over(scene: Scene, col: u16, row: u16, k: int)
    requires
        0 <= k < scene.draft.att_chips.len(),
    ensures
        ({
            let s = scene.hovered(col, row);
            let p = scene.panels;
            let free = p.todo is None && p.card is None && p.ask is None && p.picker is None;
            &&& s.panels.hover_plan_chip == (free && selection::over(p.plan_chip, col, row))
            &&& s.panels.hover_jump_btn == (free && selection::over(p.jump_btn, col, row))
            &&& s.panels.hover_expand_btn == (free && selection::over(p.expand_btn, col, row))
            &&& s.panels.hover_scroll_btn == (free && selection::over(p.scroll_btn, col, row))
            &&& s.draft.hover_att is None ==> !scene.draft.att_chips[k].0.covers(col, row)
            &&& s.draft.hover_att matches Some(x) ==> exists|j: int|
                0 <= j < scene.draft.att_chips.len() && (
                #[trigger] scene.draft.att_chips[j]).0.covers(col, row)
                    && scene.draft.att_chips[j].1 == x
            &&& s.ctl == scene.ctl
            &&& s.draft.input == scene.draft.input
        }),
{
    reveal(Scene::hovered);
    chip_found(scene.draft.att_chips, col, row, 0, k);
}

/// A click on a tool's output unfolds it and folds it again, and touches no
/// other cell.
pub proof fn a_click_unfolds_a_cell(scene: Scene, i: int, k: int)
    requires
        scene.active is None,
        0 <= i < scene.transcript.cells.len(),
        0 <= k < scene.transcript.cells.len(),
    ensures
        ({
            let s = scene.cell_turned(i);
            &&& s.transcript.cells.len() == scene.transcript.cells.len()
            &&& s.transcript.cells[i].expanded == !scene.transcript.cells[i].expanded
            &&& s.transcript.cells[i].note == scene.transcript.cells[i].note
            &&& k != i ==> s.transcript.cells[k] == scene.transcript.cells[k]
            &&& s.ctl == scene.ctl
        }),
{
    reveal(Scene::cell_turned);
}

} // verus!
