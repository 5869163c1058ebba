//! What keys promise, action by action: what happens to the draft, what goes
//! out, and what stays.

use vstd::prelude::*;
use crate::app;
use crate::app::draft;
use crate::app::keys;
use crate::app::pickers;
use crate::app::Scene;
use crate::app::state::RunState;
use crate::app::CtrlCQuitChord;
use crate::bus::Order;
use crate::controller::{Answer, BrowserMove, Deed};
use crate::input::area;
use crate::input::area::Motion;
use crate::input::composer;
use crate::input::composer::Composer;
use crate::input::keymap::Action;
use crate::input::keys::{KeyCode, KeyEvent, KeyModifiers};
use crate::staging::Span;
use crate::text;

verus! {

// --- the draft ----------------------------------------------------------------

/// A typed character stands at the cursor, or in place of the selection, and
/// the menu's highlight goes to its first row. Nothing goes out.
pub proof fn a_character_is_typed(scene: Scene, ch: char)
    requires
        scene.draft.input.area.ok(),
        scene.draft.input.area.anchor is None,
        ch != '\r',
    ensures
        ({
            let a = scene.draft.input.area;
            let s = scene.acted(Action::Insert(ch));
            &&& s.draft.input.area.text == a.text.take(a.cursor) + seq![ch] + a.text.skip(a.cursor)
            &&& s.draft.input.area.cursor == a.cursor + 1
            &&& s.draft.slash_sel == 0
            &&& s.draft.input_sel is None
            &&& s.ctl == scene.ctl
            &&& s.queue == scene.queue
            &&& s.session == scene.session
        }),
{
    reveal(Scene::acted);
    reveal(Scene::performed);
    reveal(keys::edited);
}

/// A line break is typed like a character.
pub proof fn a_line_break_is_typed(scene: Scene)
    requires
        scene.draft.input.area.ok(),
        scene.draft.input.area.anchor is None,
    ensures
        ({
            let a = scene.draft.input.area;
            let s = scene.acted(Action::Newline);
            &&& s.draft.input.area.text == a.text.take(a.cursor) + seq!['\n'] + a.text.skip(
                a.cursor,
            )
            &&& s.draft.input.area.cursor == a.cursor + 1
            &&& s.ctl == scene.ctl
        }),
{
    reveal(Scene::acted);
    reveal(keys::edited);
}

/// The arrows move the cursor each in its own direction; with shift held they
/// select from where the cursor was. The text stays, and nothing goes out.
pub proof fn arrows_move_the_cursor(scene: Scene, action: Action, m: Motion, selecting: bool)
    requires
        ({
            ||| action == Action::CursorLeft && m == Motion::Back && !selecting
            ||| action == Action::CursorRight && m == Motion::Forward && !selecting
            ||| action == Action::CursorDown && m == Motion::Down && !selecting
            ||| action == Action::WordLeft && m == Motion::WordBack && !selecting
            ||| action == Action::WordRight && m == Motion::WordForward && !selecting
            ||| action == Action::SelectLeft && m == Motion::Back && selecting
            ||| action == Action::SelectRight && m == Motion::Forward && selecting
            ||| action == Action::SelectUp && m == Motion::Up && selecting
            ||| action == Action::SelectDown && m == Motion::Down && selecting
            ||| action == Action::SelectWordLeft && m == Motion::WordBack && selecting
            ||| action == Action::SelectWordRight && m == Motion::WordForward && selecting
        }),
    ensures
        ({
            let a = scene.draft.input.area;
            let s = scene.acted(action);
            &&& s.draft.input.area.cursor == area::area_step(a.text, a.cursor, a.layout, m)
            &&& s.draft.input.area.text == a.text
            &&& !selecting ==> s.draft.input.area.anchor is None
            &&& selecting ==> s.draft.input.area.anchor == Some(
                match a.anchor {
                    Some(x) => x,
                    None => a.cursor,
                },
            )
            &&& s.ctl == scene.ctl
            &&& s.session == scene.session
        }),
{
    reveal(Scene::acted);
    reveal(keys::edited);
}

/// Home and end go to the ends of the row on screen, and selecting to the ends
/// of the logical line.
pub proof fn ends_of_the_row(scene: Scene)
    ensures
        ({
            let c = scene.draft.input;
            let w = scene.draft.wrap_width as int;
            &&& scene.acted(Action::LineStart).draft.input == c.to_row_start(w)
            &&& scene.acted(Action::LineEnd).draft.input == c.to_row_end(w)
            &&& scene.acted(Action::KillToEnd).draft.input == c.killed_to_end(w)
            &&& scene.acted(Action::KillToStart).draft.input == c.killed_to_start(w)
            &&& scene.acted(Action::KillLine).draft.input == c.line_killed()
            &&& scene.acted(Action::SelectLineStart).draft.input.area.cursor == area::line_start(
                c.area.text,
                c.area.cursor,
            )
            &&& scene.acted(Action::SelectLineEnd).draft.input.area.cursor == area::line_end(
                c.area.text,
                c.area.cursor,
            )
        }),
{
    reveal(Scene::acted);
    reveal(keys::edited);
}

/// Undo gives back what stood before the last edit, redo what stood after it,
/// and the yank inserts what was killed at the cursor.
pub proof fn edits_are_undone_and_killed_text_comes_back(scene: Scene)
    requires
        scene.draft.input.area.ok(),
        scene.draft.input.area.anchor is None,
    ensures
        ({
            let a = scene.draft.input.area;
            let u = scene.acted(Action::Undo).draft.input.area;
            let r = scene.acted(Action::Redo).draft.input.area;
            let y = scene.acted(Action::YankPaste).draft.input.area;
            &&& a.past.len() > 0 ==> u.text == a.past.last().before && u.cursor
                == a.past.last().before_at
            &&& a.past.len() == 0 ==> u.text == a.text && u.cursor == a.cursor
            &&& a.future.len() > 0 ==> r.text == a.future.last().after && r.cursor
                == a.future.last().after_at
            &&& a.future.len() == 0 ==> r.text == a.text
            &&& y.text == a.text.take(a.cursor) + a.yank + a.text.skip(a.cursor)
            &&& y.cursor == a.cursor + a.yank.len()
        }),
{
    reveal(Scene::acted);
    reveal(keys::edited);
    let a = scene.draft.input.area;
    assert(a.yank.len() == 0 ==> a.text.take(a.cursor) + a.yank + a.text.skip(a.cursor) =~= a.text);
}

proof fn span_found(sp: Seq<Span>, at: int, end_too: bool, i: int, k: int)
    requires
        0 <= i <= k < sp.len(),
    ensures
        match draft::span_at(sp, at, end_too, i) {
            Some(s) => s.start <= at && (at < s.end || (end_too && at == s.end)) && sp.contains(s),
            None => !(sp[k].start <= at < sp[k].end) && !(end_too && sp[k].start <= at == sp[k].end),
        },
    decreases sp.len() - i,
{
    if sp[i].start <= at && (at < sp[i].end || (end_too && at == sp[i].end)) {
    } else if i + 1 <= k {
        span_found(sp, at, end_too, i + 1, k);
    } else if i + 1 < sp.len() {
        span_found(sp, at, end_too, i + 1, i + 1);
    }
}

/// Backspace and delete that would cut into an image's token take the whole
/// token, and its image with it; every other image stays in order.
pub proof fn a_token_is_deleted_whole(scene: Scene, s: Span)
    requires
        scene.draft.input.area.ok(),
        0 <= s.start < s.end <= scene.draft.input.area.text.len(),
        0 <= s.idx < scene.draft.images.items.len(),
        composer::landing(scene.draft.input.area.text, s.start) == s.start,
    ensures
        ({
            let t = scene.draft.input.area.text;
            let d = scene.token_deleted(s).draft;
            &&& d.input.area.text == t.take(s.start) + t.skip(s.end)
            &&& d.input.area.cursor == s.start
            &&& d.images.items == scene.draft.images.items.remove(s.idx)
            &&& scene.token_deleted(s).ctl == scene.ctl
        }),
{
    reveal(Scene::token_deleted);
}

/// Deleting looks for a token on the side that it deletes from, and takes a
/// single character where there is none.
pub proof fn deleting_looks_for_a_token(scene: Scene, backward: bool, k: int)
    requires
        scene.draft.input.area.ok(),
        scene.draft.input.area.anchor is None,
        backward ==> scene.draft.input.area.cursor > 0,
    ensures
        ({
            let a = scene.draft.input.area;
            let at = if backward { a.cursor - 1 } else { a.cursor };
            let sp = scene.draft.spans();
            let d = scene.deleted(backward);
            &&& (forall|i: int| 0 <= i < sp.len() ==> !((#[trigger] sp[i]).start <= at < sp[i].end))
                && backward ==> d.draft.input.area.text == a.text.take(a.cursor - 1) + a.text.skip(
                a.cursor,
            ) && d.draft.input.area.cursor == a.cursor - 1 && d.draft.images == scene.draft.images
            &&& 0 <= k < sp.len() && sp[k].start <= at < sp[k].end ==> exists|s: Span|
                sp.contains(s) && s.start <= at < s.end && d == #[trigger] scene.token_deleted(s)
            &&& d.ctl == scene.ctl
        }),
{
    reveal(Scene::deleted);
    reveal(Scene::token_deleted);
    let a = scene.draft.input.area;
    let at = if backward { a.cursor - 1 } else { a.cursor };
    let sp = scene.draft.spans();
    if sp.len() > 0 {
        span_found(sp, at, false, 0, 0);
    }
    if 0 <= k < sp.len() {
        span_found(sp, at, false, 0, k);
    }
    if let Some(s) = draft::span_at(sp, at, false, 0) {
        if sp.len() > 0 {
            assert(sp.contains(s));
            let j = choose|j: int| 0 <= j < sp.len() && sp[j] == s;
            assert(sp[j].start <= at < sp[j].end);
        }
    }
}

/// The image to preview is the one under the pointer; without one it is the
/// one whose token the cursor is in or right behind.
pub proof fn the_preview_follows_pointer_and_cursor(scene: Scene, k: int)
    ensures
        scene.draft.hover_att matches Some(i) ==> scene.previewed_image() == Some(i),
        scene.draft.hover_att is None && 0 <= k < scene.draft.spans().len()
            && scene.draft.spans()[k].start <= scene.draft.input.area.cursor
            <= scene.draft.spans()[k].end ==> scene.previewed_image() is Some,
{
    let sp = scene.draft.spans();
    if 0 <= k < sp.len() {
        span_found(sp, scene.draft.input.area.cursor, true, 0, k);
    }
}

/// An image that is staged gets the next token, which stands at the cursor; it
/// is the last of the tray. A full tray takes none.
pub proof fn a_staged_image_gets_a_token(
    scene: Scene,
    name: Seq<char>,
    path: Seq<char>,
    media_type: Seq<char>,
    data: Seq<u8>,
)
    requires
        scene.draft.input.area.ok(),
        scene.draft.input.area.anchor is None,
    ensures
        ({
            let s = scene.image_staged(name, path, media_type, data, Seq::empty());
            let items = scene.draft.images.items;
            let a = scene.draft.input.area;
            &&& items.len() >= crate::attachments::MAX_STAGED ==> s.draft == scene.draft && s.ctl
                == scene.ctl
            &&& items.len() < crate::attachments::MAX_STAGED ==> {
                let t = area::unreturned(s.draft.images.items.last().token);
                let gap = if a.cursor > 0 && !text::space(a.text[a.cursor - 1]) {
                    seq![' ']
                } else {
                    Seq::empty()
                };
                &&& s.draft.images.items.len() == items.len() + 1
                &&& s.draft.images.items.drop_last() == items
                &&& s.draft.images.items.last().name == name
                &&& s.draft.images.items.last().path == path
                &&& s.draft.images.items.last().media_type == media_type
                &&& s.draft.images.items.last().data == data
                &&& s.draft.input.area.text == a.text.take(a.cursor) + gap + t + a.text.skip(
                    a.cursor,
                )
            }
        }),
{
    reveal(Scene::image_staged);
    let s = scene.image_staged(name, path, media_type, data, Seq::empty());
    let a = scene.draft.input.area;
    if scene.draft.images.items.len() < crate::attachments::MAX_STAGED {
        assert(s.draft.images.items.drop_last() =~= scene.draft.images.items);
        let t = area::unreturned(s.draft.images.items.last().token);
        if scene.crowded() {
            let b = a.inserted(seq![' ']);
            assert(b.text.take(b.cursor) =~= a.text.take(a.cursor) + seq![' ']);
            assert(b.text.skip(b.cursor) =~= a.text.skip(a.cursor));
            assert(s.draft.input.area.text =~= a.text.take(a.cursor) + seq![' '] + t + a.text.skip(
                a.cursor,
            ));
        } else {
            assert(s.draft.input.area.text =~= a.text.take(a.cursor) + Seq::<char>::empty() + t
                + a.text.skip(a.cursor));
        }
    }
}

// --- the history --------------------------------------------------------------

/// The first step back puts the newest prompt in the draft and the draft by;
/// each further step goes one prompt back, as far as the oldest.
pub proof fn steps_back_walk_the_history(c: Composer)
    requires
        0 < c.history.len() <= usize::MAX,
        c.hist_pos matches Some(p) ==> p < c.history.len(),
    ensures
        ({
            let r = draft::recalled(c);
            &&& r.history == c.history
            &&& c.hist_pos is None ==> r.area.text == c.history.last() && r.stash == c.area.text
                && r.hist_pos == Some((c.history.len() - 1) as usize)
            &&& c.hist_pos matches Some(p) ==> (p > 0 ==> r.area.text == c.history[p - 1]
                && r.hist_pos == Some((p - 1) as usize)) && (p == 0 ==> r.area.text
                == c.history[0] && r.hist_pos == Some(0usize)) && r.stash == c.stash
            &&& r.area.cursor == r.area.text.len()
        }),
{
}

/// A step forward goes one prompt on, and past the newest gives the draft back
/// that was put by.
pub proof fn steps_forward_return_to_the_draft(c: Composer)
    requires
        c.history.len() <= usize::MAX,
    ensures
        ({
            let r = draft::returned(c);
            &&& r.history == c.history
            &&& c.hist_pos is None ==> r == c
            &&& c.hist_pos matches Some(p) ==> (p + 1 < c.history.len() ==> r.area.text
                == c.history[p + 1] && r.hist_pos == Some((p + 1) as usize)) && (p + 1
                >= c.history.len() ==> r.area.text == c.stash && r.hist_pos is None)
        }),
{
}

/// A step back and a step forward give the draft back.
pub proof fn a_step_back_is_taken_back(c: Composer)
    requires
        0 < c.history.len() <= usize::MAX,
        c.hist_pos is None,
    ensures
        draft::returned(draft::recalled(c)).area.text == c.area.text,
        draft::returned(draft::recalled(c)).hist_pos is None,
{
}

/// The key for the prompt before recalls one only into an empty draft or while
/// the history is walked; up from the first row recalls it whatever is drafted.
pub proof fn history_keys_spare_a_draft(scene: Scene)
    ensures
        scene.draft.input.area.text.len() > 0 && scene.draft.input.hist_pos is None ==> scene.history_back() == scene,
        scene.draft.input.area.text.len() == 0 || scene.draft.input.hist_pos is Some
            ==> scene.history_back().draft.input == draft::recalled(
            scene.draft.input,
        ),
        ({
            let a = scene.draft.input.area;
            let n = area::area_step(a.text, a.cursor, a.layout, Motion::Up);
            let s = scene.raised();
            &&& n != a.cursor ==> s.draft.input.area.cursor == n && s.draft.input.area.text
                == a.text
            &&& n == a.cursor && scene.draft.input.history.len() > 0
                && scene.draft.input.hist_pos is None ==> s.draft.input.area.text
                == scene.draft.input.history.last() && s.draft.input.stash == a.text
        }),
{
    reveal(Scene::raised);
}

// --- esc, ctrl+c and leaving --------------------------------------------------

/// Esc while a turn runs cancels it with one order for the session on show, and
/// the draft stays.
pub proof fn esc_interrupts_a_turn(scene: Scene)
    requires
        scene.panels.ask is None,
        scene.panels.picker is None,
        scene.active is None,
        scene.queue.edit is None,
        scene.session.state != RunState::Idle,
        !text::leads(scene.draft.input.area.text, '/'),
    ensures
        ({
            let s = scene.escaped();
            let e = scene.ctl.effects;
            let order = Deed::Send(Order::Interrupt { session_id: scene.session.id });
            &&& scene.ctl.attached ==> s.ctl.effects == e.push(Deed::Interrupt).push(order)
            &&& !scene.ctl.attached ==> s.ctl.effects == e.push(order)
            &&& s.draft.input == scene.draft.input
            &&& s.draft.images == scene.draft.images
            &&& s.queue == scene.queue
            &&& s.transcript == scene.transcript
        }),
{
    reveal(Scene::escaped);
    reveal(Scene::backed_out);
    reveal(Scene::turn_interrupted);
}

/// Esc closes what is open before anything else: an ask is given up, a list
/// closes, a subagent's view is left, an edit of the queue is called off.
pub proof fn esc_closes_what_is_open(scene: Scene)
    ensures
        ({
            let s = scene.escaped();
            &&& scene.panels.ask is Some ==> s.panels.ask is None && s.ctl.effects
                == scene.ctl.effects.push(Deed::Reply(Answer::Cancelled)) && s.draft == scene.draft
            &&& scene.panels.ask is None && scene.panels.picker is Some ==> s.panels.picker is None
                && s.ctl == scene.ctl && s.draft == scene.draft && s.active == scene.active
            &&& scene.panels.ask is None && scene.panels.picker is None && scene.active is Some
                ==> s.active is None && s.ctl == scene.ctl && s.draft == scene.draft
                && s.chat.scroll_up == 0
            &&& scene.panels.ask is None && scene.panels.picker is None && scene.active is None
                && scene.queue.edit is Some ==> s.queue.edit is None && s.queue.waiting
                == scene.queue.waiting && s.ctl == scene.ctl
        }),
{
    reveal(Scene::escaped);
    reveal(Scene::answered);
    reveal(Scene::edit_ended);
    reveal(Scene::tray_settled);
}

/// Esc at rest first puts out what is highlighted, then clears the draft, which
/// the history keeps. It sends nothing.
pub proof fn esc_at_rest_clears_the_draft(scene: Scene)
    requires
        scene.panels.ask is None,
        scene.panels.picker is None,
        scene.active is None,
        scene.queue.edit is None,
        scene.session.state == RunState::Idle,
        !text::leads(scene.draft.input.area.text, '/'),
    ensures
        ({
            let s = scene.escaped();
            let lit = scene.draft.input_sel is Some || scene.chat.sel is Some;
            &&& s.ctl == scene.ctl
            &&& s.draft.input_sel is None
            &&& s.chat.sel is None
            &&& lit ==> s.draft.input == scene.draft.input
            &&& !lit && scene.draft.input.area.text.len() > 0 ==> s.draft.input.area.text.len() == 0
                && s.draft.input.history == scene.draft.input.history.push(
                scene.draft.input.area.text,
            )
            &&& scene.draft.input.area.text.len() == 0 ==> s.draft.input == scene.draft.input
        }),
{
    reveal(Scene::escaped);
    reveal(Scene::backed_out);
    reveal(Scene::tray_settled);
    let t = scene.draft.input.area.text;
    assert(t.take(0) + t.skip(t.len() as int) =~= Seq::<char>::empty());
}

/// Ctrl+c clears a draft, which the history keeps, and does not count then;
/// without one the first press asks and the second leaves.
pub proof fn ctrl_c_clears_then_leaves(scene: Scene)
    ensures
        ({
            let s = scene.broken();
            let t = scene.draft.input.area.text;
            &&& t.len() > 0 ==> s.draft.input.area.text.len() == 0 && s.draft.input.history
                == scene.draft.input.history.push(t) && s.quit == scene.quit && s.ctrl_c is None
            &&& t.len() == 0 && scene.ctrl_c is None ==> s.quit == scene.quit && s.ctrl_c == Some(
                CtrlCQuitChord { started: scene.host.now, presses: 1, required: 2 },
            )
            &&& t.len() == 0 && scene.ctrl_c is None ==> s.broken().quit
            &&& s.ctl == scene.ctl
            &&& s.session == scene.session
        }),
{
    reveal(Scene::broken);
    reveal(Scene::tray_settled);
    let t = scene.draft.input.area.text;
    assert(t.take(0) + t.skip(t.len() as int) =~= Seq::<char>::empty());
}

/// The quit key pressed twice in time leaves; a press alone, or too late a
/// second one, only asks.
pub proof fn the_quit_key_is_pressed_twice(scene: Scene)
    ensures
        ({
            let s = scene.quit_pressed();
            let now = scene.host.now;
            &&& scene.quit_armed is None ==> s.quit == scene.quit && s.quit_armed == Some(now)
            &&& scene.quit_armed matches Some(at) ==> (now >= at && now - at <= 1500 ==> s.quit)
            &&& scene.quit_armed matches Some(at) ==> (now >= at && now - at > 1500 ==> s.quit
                == scene.quit && s.quit_armed == Some(now))
        }),
{
    reveal(Scene::quit_pressed);
}

// --- enter and the rest -------------------------------------------------------

/// Enter saves the queued prompt under edit, and with nothing drafted sends the
/// head of the queue ahead.
pub proof fn enter_serves_the_queue(scene: Scene)
    ensures
        scene.queue.edit is Some ==> scene.entered() == scene.edit_saved(),
        scene.queue.edit is None && scene.draft.input.area.text.len() == 0
            && scene.draft.images.items.len() == 0 && scene.queue.waiting.len() > 0 ==> scene.entered().queue.waiting == scene.queue.waiting.skip(1),
{
    reveal(Scene::entered);
    reveal(Scene::head_sent);
}

/// The actions that are not the composer's alone.
pub proof fn not_the_composers_alone(c: Composer, action: Action, width: int)
    requires
        action is Esc || action is CtrlC || action is Quit || action is Enter || action
            is TabComplete || action is SendNow || action is EditQueuedPrompt || action
            is CopySelection || action is CutSelection || action is HistoryPrev || action
            is HistoryNext || action is CursorUp || action is ScrollHalfUp || action
            is ScrollHalfDown || action is PageUp || action is PageDown || action is JumpTail
            || action is JumpTop || action is ModelPicker || action is ClearScrollback || action
            is CyclePermission || action is ToggleTheme || action is CycleToolOutput || action
            is AttachClipboard || action is Backspace || action is DeleteForward || action
            is Insert,
    ensures
        keys::edited(c, action, width) is None,
{
    reveal(keys::edited);
}

/// Each action does its own: the keys that page through the chat move it by
/// their stretch and to its ends, the one for the mode turns dark to light and
/// back, the one for the permissions asks for the preset after the one in
/// force, and the others do what they are named for.
pub proof fn actions_do_their_own(scene: Scene, action: Action)
    ensures
        ({
            let s = scene.performed(action);
            match action {
                Action::Esc => s == scene.escaped(),
                Action::CtrlC => s == scene.broken(),
                Action::Quit => s == scene.quit_pressed(),
                Action::Enter => s == scene.entered(),
                Action::TabComplete => s == scene.completed(),
                Action::SendNow => s == scene.sent_now(),
                Action::EditQueuedPrompt => s == scene.queue_opened(),
                Action::CopySelection => s == scene.selection_copied(),
                Action::CutSelection => s == scene.selection_cut(),
                Action::HistoryPrev => s == scene.history_back(),
                Action::HistoryNext => s.draft.input == draft::returned(scene.draft.input),
                Action::CursorUp => s == scene.raised(),
                Action::ScrollHalfUp => s == scene.scrolled(10),
                Action::ScrollHalfDown => s == scene.scrolled(-10),
                Action::PageUp => s == scene.scrolled(20),
                Action::PageDown => s == scene.scrolled(-20),
                Action::JumpTail => s.chat.scroll_up == 0,
                Action::JumpTop => s.chat.scroll_up == usize::MAX,
                Action::ModelPicker => s == scene.models_opened(),
                Action::ClearScrollback => s == scene.scrollback_cleared(),
                Action::CyclePermission => s == scene.permission_asked(
                    pickers::preset_after(scene.session.permission()),
                ),
                Action::ToggleTheme => s.look.mode != scene.look.mode,
                Action::CycleToolOutput => s.transcript.expand_all == !scene.transcript.expand_all
                    && s.transcript.cells == scene.transcript.cells,
                Action::AttachClipboard => s.ctl.effects == scene.ctl.effects.push(
                    Deed::ReadClipboard { caption: ""@ },
                ),
                Action::Backspace => s == scene.deleted(true),
                Action::DeleteForward => s == scene.deleted(false),
                _ => true,
            }
        }),
{
    reveal(Scene::performed);
}

/// An action that is not the composer's alone is performed, after it has put
/// out the drag where it edits.
pub proof fn actions_are_performed(scene: Scene, action: Action)
    requires
        keys::edited(scene.draft.input, action, scene.draft.wrap_width as int) is None,
    ensures
        action is Backspace || action is DeleteForward || action is Insert ==> scene.acted(action)
            == scene.drafted(scene.draft.undragged()).performed(action),
        action is Esc || action is CtrlC || action is Quit || action is Enter || action
            is TabComplete || action is SendNow || action is EditQueuedPrompt || action
            is CopySelection || action is CutSelection || action is HistoryPrev || action
            is HistoryNext || action is CursorUp || action is ScrollHalfUp || action
            is ScrollHalfDown || action is PageUp || action is PageDown || action is JumpTail
            || action is JumpTop || action is ModelPicker || action is ClearScrollback || action
            is CyclePermission || action is ToggleTheme || action is CycleToolOutput || action
            is AttachClipboard ==> scene.acted(action) == scene.performed(action),
{
    reveal(Scene::acted);
}

/// To put out a drag changes nothing of the draft itself.
pub proof fn putting_out_a_drag_keeps_the_draft(scene: Scene)
    ensures
        scene.draft.undragged().input == scene.draft.input,
        scene.draft.undragged().images == scene.draft.images,
        scene.draft.undragged().input_sel is None,
{
}

/// A key goes to what is open, in this order: the ask, the checklist, a card, a
/// list, a subagent's view, the composer. What is behind does not get it.
pub proof fn what_is_open_has_the_key(scene: Scene, key: KeyEvent)
    ensures
        ({
            let s = scene.redrawn();
            let p = scene.panels;
            &&& p.ask is Some ==> scene.key_given(key) == s.ask_keyed(key)
            &&& p.ask is None && p.todo is Some ==> scene.key_given(key) == s.todo_keyed(key)
            &&& p.ask is None && p.todo is None && p.card is Some ==> scene.key_given(key)
                == s.card_keyed(key)
            &&& p.ask is None && p.todo is None && p.card is None && p.picker is Some
                ==> scene.key_given(key) == s.picker_keyed(key)
            &&& p.ask is None && p.todo is None && p.card is None && p.picker is None
                && scene.active is Some ==> scene.key_given(key) == s.agent_keyed(key)
            &&& p.ask is None && p.todo is None && p.card is None && p.picker is None
                && scene.active is None ==> scene.key_given(key) == s.composer_keyed(key)
            &&& s.panels == p && s.draft == scene.draft && s.ctl == scene.ctl
        }),
{
    reveal(Scene::key_given);
}

/// The arrows over the menu of commands move its highlight by one row, round at
/// the ends, and change no text.
pub proof fn arrows_walk_the_command_menu(scene: Scene, key: KeyEvent)
    requires
        key.modifiers == KeyModifiers::empty(),
        key.code == KeyCode::Up || key.code == KeyCode::Down,
        text::leads(scene.draft.input.area.text, '/'),
        scene.draft.slash_sel < scene.menu().len() <= usize::MAX,
    ensures
        scene.slash_keyed(key) is Some,
        ({
            let n = scene.menu().len();
            let s = scene.slash_keyed(key)->0;
            let at = scene.draft.slash_sel;
            &&& s.draft.input == scene.draft.input
            &&& s.ctl == scene.ctl
            &&& key.code == KeyCode::Down ==> s.draft.slash_sel == if at + 1 == n {
                0int
            } else {
                at + 1
            }
            &&& key.code == KeyCode::Up ==> s.draft.slash_sel == if at == 0 {
                n - 1
            } else {
                at - 1
            }
        }),
{
    reveal(Scene::slash_keyed);
    reveal(Scene::menu_previewed);
    reveal(Scene::previewed);
    reveal(Scene::unpreviewed);
    crate::app::overlay_laws::steps_go_one_row(scene.draft.slash_sel, scene.menu().len() as int);
}

/// The keys of the open `@` menu move its browser each in its own way; they
/// type nothing.
pub proof fn keys_browse_the_menu(scene: Scene, key: KeyEvent, m: BrowserMove)
    requires
        scene.draft.file_menu is Some,
        key.modifiers == KeyModifiers::empty(),
        ({
            ||| key.code == KeyCode::Up && m == BrowserMove::Up
            ||| key.code == KeyCode::Down && m == BrowserMove::Down
            ||| key.code == KeyCode::Home && m == BrowserMove::Home
            ||| key.code == KeyCode::End && m == BrowserMove::End
            ||| key.code == KeyCode::PageUp && m == BrowserMove::PageUp
            ||| key.code == KeyCode::PageDown && m == BrowserMove::PageDown
            ||| key.code == KeyCode::Left && m == BrowserMove::Left
        }),
    ensures
        scene.menu_keyed(key) is Some,
        scene.menu_keyed(key)->0.ctl.effects == scene.ctl.effects.push(Deed::Browse(m)),
        scene.menu_keyed(key)->0.draft == scene.draft,
{
    reveal(Scene::menu_keyed);
}

/// Copying hands out the selected text and leaves the draft's; cutting takes it
/// out of the draft as well.
pub proof fn copies_and_cuts_hand_out_the_selection(scene: Scene)
    requires
        scene.draft.input.area.ok(),
        scene.draft.input.area.anchor matches Some(x) && x != scene.draft.input.area.cursor,
        scene.draft.input.selection() matches Some(t) && !text::blank(t),
    ensures
        ({
            let a = scene.draft.input.area;
            let x = a.anchor->0;
            let lo = if x < a.cursor { x } else { a.cursor };
            let hi = if x < a.cursor { a.cursor } else { x };
            let t = a.text.subrange(lo, hi);
            let c = scene.selection_copied();
            let d = scene.selection_cut();
            &&& c.ctl.effects == scene.ctl.effects.push(Deed::Copy(t))
            &&& c.draft.input.area.text == a.text
            &&& d.ctl.effects == scene.ctl.effects.push(Deed::Copy(t))
            &&& d.draft.input.area.text == a.text.take(lo) + a.text.skip(hi)
            &&& d.draft.input.area.yank == t
        }),
{
    reveal(Scene::selection_copied);
    reveal(Scene::selection_cut);
}

/// With nothing selected nothing is handed out, and nothing is cut.
pub proof fn without_a_selection_nothing_is_cut(scene: Scene)
    requires
        scene.draft.input.area.anchor is None,
        scene.draft.input_sel is None,
    ensures
        scene.selection_copied().ctl == scene.ctl,
        scene.selection_cut().ctl == scene.ctl,
        scene.selection_cut().draft.input.area == scene.draft.input.area,
{
    reveal(Scene::selection_copied);
    reveal(Scene::selection_cut);
}

/// Tab completes the line from the highlighted row: with what the row stands
/// for, or with the command's name and a space.
pub proof fn tab_completes_the_line(scene: Scene)
    ensures
        scene.highlighted() is None ==> scene.completed() == scene,
        scene.highlighted() matches Some(e) ==> scene.completed().draft.input.area.text == match e.completion {
            Some(line) => line,
            None => "/"@ + e.name + " "@,
        } && scene.completed().ctl == scene.ctl,
{
    reveal(Scene::completed);
}

} // verus!
