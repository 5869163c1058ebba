//! What every event keeps: the facts of a scene that no key, click, report or
//! command ever breaks.

use vstd::prelude::*;
use crate::app;
use crate::app::draft;
use crate::app::keys;
use crate::app::prompt;
use crate::app::queue;
use crate::app::state::{HostFacts, RunState, Waiting};
use crate::app::theme;
use crate::app::Scene;
use crate::appearance::Look;
use crate::attachments;
use crate::attachments::MAX_STAGED;
use crate::bus::{
    AppEvent, CatalogModel, CtlEvent, MouseEvent, PermissionAskOption, SessionListItem, TermEvent,
};
use crate::commands;
use crate::commands::Wording;
use crate::controller;
use crate::controller::Answer;
use crate::events::UiEvent;
use crate::file_ref;
use crate::file_ref::{Menu, Token};
use crate::input::area;
use crate::input::composer::Composer;
use crate::input::csi;
use crate::input::keymap;
use crate::input::keymap::{Action, KeyCtx};
use crate::input::keys::{KeyCode, KeyEvent, KeyModifiers};
use crate::picker::{Choice, PickerKind, Row, Suggestion};
use crate::runtime::{Config, Preferences};
use crate::selection::SelPoint;
use crate::staging;
use crate::staging::{Piece, Span};
use crate::text;
use crate::transcript::Timeline;

verus! {

broadcast use {area::group_coherent, attachments::kept_len, controller::group_desk};

/// The facts that hold of a scene from launch on:
/// the queue's count is that of the queue;
/// the main timeline is that of the session on show;
/// the edit history leads to the draft;
/// no more images are staged than fit;
/// the checklist is open only where there is a plan;
/// the clock of a turn runs exactly while the session is not idle;
/// a session with a prompt on its way is not idle;
/// and ctrl+c counts only up to the press that leaves.
pub open spec fn steady(scene: Scene) -> bool {
    &&& scene.queue.queued == scene.queue.waiting.len() as usize
    &&& scene.transcript.root == scene.session.id
    &&& area::coherent(scene.draft.input.area)
    &&& scene.draft.images.items.len() <= MAX_STAGED
    &&& scene.panels.todo is Some ==> scene.panels.plan is Some
    &&& scene.session.state == RunState::Idle <==> scene.session.run_started is None
    &&& scene.session.pending ==> scene.session.state != RunState::Idle
    &&& scene.ctrl_c matches Some(c) ==> c.presses < c.required
}

/// The asks that are open or answered.
pub open spec fn asks(scene: Scene) -> nat {
    controller::answers(scene.ctl.effects) + if scene.panels.ask is Some {
        1nat
    } else {
        0
    }
}

/// What was kept at launch is still known, and a model or a mode that was given
/// for the run alone is in force only as long as it was all along.
pub open spec fn loyal(from: Scene, to: Scene) -> bool {
    &&& to.session.kept_model == from.session.kept_model
    &&& to.kept_theme == from.kept_theme
    &&& to.session.cfg.flags.model ==> from.session.cfg.flags.model && to.session.cfg.model
        == from.session.cfg.model
    &&& to.session.cfg.flags.theme ==> from.session.cfg.flags.theme && to.look.mode
        == from.look.mode
}

/// What most changes keep: a steady scene stays so, no ask is lost or answered
/// twice, no turn is cancelled, and what the command line set stays its own.
pub open spec fn kept(from: Scene, to: Scene) -> bool {
    &&& steady(to)
    &&& loyal(from, to)
    &&& asks(to) == asks(from)
    &&& controller::calm(from.ctl) ==> controller::calm(to.ctl)
}

/// Keys none of which is esc.
pub open spec fn harmless(keys: Seq<KeyEvent>, n: int) -> bool {
    forall|i: int| 0 <= i < n ==> (#[trigger] keys[i]).code != KeyCode::Esc
}

/// A pasted text that spells no esc.
pub open spec fn quiet_text(t: Seq<char>) -> bool {
    csi::leaked(t) matches Some(keys) ==> harmless(keys, keys.len() as int)
}

/// A terminal event that brings no esc.
pub open spec fn quiet(ev: TermEvent) -> bool {
    match ev {
        TermEvent::Key(key) => key.code != KeyCode::Esc,
        TermEvent::Paste(t) => quiet_text(t@),
        _ => true,
    }
}

broadcast proof fn esc_is_esc(code: KeyCode, m: KeyModifiers, ctx: KeyCtx)
    ensures
        #[trigger] keymap::bound(code, m, ctx) == Some(Action::Esc) ==> code == KeyCode::Esc,
{
}

broadcast proof fn heard_root(t: Timeline, ui: UiEvent)
    ensures
        (#[trigger] t.heard(ui)).root == t.root,
{
    reveal(Timeline::heard);
}

broadcast proof fn echo_root(t: Timeline, p: Seq<Piece>, queued: bool, n: int)
    ensures
        (#[trigger] prompt::echoed(t, p, queued, n)).root == t.root,
    decreases n,
{
    if n > 0 {
        echo_root(t, p, queued, n - 1);
    }
}

broadcast proof fn index_within(w: Seq<Waiting>, id: u64, i: int)
    requires
        0 <= i,
    ensures
        #[trigger] queue::index_of(w, id, i) matches Some(k) ==> i <= k < w.len(),
    decreases w.len() - i,
{
    if i < w.len() {
        index_within(w, id, i + 1);
    }
}

broadcast proof fn action_coherent(c: Composer, action: Action, width: int)
    requires
        area::coherent(c.area),
    ensures
        #[trigger] keys::edited(c, action, width) matches Some(d) ==> area::coherent(d.area),
{
    reveal(keys::edited);
}

proof fn span_found(sp: Seq<Span>, at: int, end_too: bool, i: int)
    requires
        0 <= i,
    ensures
        draft::span_at(sp, at, end_too, i) matches Some(s) ==> exists|k: int|
            0 <= k < sp.len() && #[trigger] sp[k] == s,
    decreases sp.len() - i,
{
    if i < sp.len() {
        span_found(sp, at, end_too, i + 1);
    }
}

broadcast proof fn token_found(scene: Scene, cursor: int, backward: bool)
    ensures
        #[trigger] scene.token_in_the_way(cursor, backward) matches Some(s) ==> 0 <= s.idx
            < scene.draft.images.items.len(),
{
    let items = scene.draft.images.items;
    staging::span_indices(scene.draft.input.area.text, items, items.len() as int);
    let at = if backward {
        cursor - 1
    } else {
        cursor
    };
    span_found(scene.draft.spans(), at, false, 0);
}

broadcast proof fn keep_tray_settled(scene: Scene)
    requires
        steady(scene),
    ensures
        kept(scene, #[trigger] scene.tray_settled()),
{
    reveal(Scene::tray_settled);
}

broadcast proof fn keep_broken(scene: Scene)
    requires
        steady(scene),
    ensures
        kept(scene, #[trigger] scene.broken()),
{
    reveal(Scene::broken);
    broadcast use keep_tray_settled;
}

broadcast proof fn keep_completed(scene: Scene)
    requires
        steady(scene),
    ensures
        kept(scene, #[trigger] scene.completed()),
{
    reveal(Scene::completed);
}

broadcast proof fn keep_token_deleted(scene: Scene, s: Span)
    requires
        steady(scene),
        0 <= s.idx < scene.draft.images.items.len(),
    ensures
        kept(scene, #[trigger] scene.token_deleted(s)),
{
    reveal(Scene::token_deleted);
}

broadcast proof fn keep_deleted(scene: Scene, backward: bool)
    requires
        steady(scene),
    ensures
        kept(scene, #[trigger] scene.deleted(backward)),
{
    reveal(Scene::deleted);
    broadcast use {token_found, keep_token_deleted};
}

broadcast proof fn keep_next_sent(scene: Scene)
    requires
        steady(scene),
    ensures
        kept(scene, #[trigger] scene.next_sent()),
{
    reveal(Scene::next_sent);
}

broadcast proof fn keep_withdrawn(scene: Scene, at: Seq<usize>)
    requires
        steady(scene),
    ensures
        kept(scene, #[trigger] scene.withdrawn(at)),
{
    reveal(Scene::withdrawn);
}

broadcast proof fn keep_dropped(scene: Scene, i: int)
    requires
        steady(scene),
    ensures
        kept(scene, #[trigger] scene.dropped(i)),
{
    reveal(Scene::dropped);
    broadcast use {keep_next_sent, keep_withdrawn};
}

broadcast proof fn keep_edit_ended(scene: Scene)
    requires
        steady(scene),
    ensures
        kept(scene, #[trigger] scene.edit_ended()),
{
    reveal(Scene::edit_ended);
    broadcast use keep_tray_settled;
}

broadcast proof fn keep_edit_deleted(scene: Scene)
    requires
        steady(scene),
    ensures
        kept(scene, #[trigger] scene.edit_deleted()),
{
    reveal(Scene::edit_deleted);
    broadcast use {keep_dropped, keep_edit_ended};
}

broadcast proof fn keep_edit_put(scene: Scene, id: u64, p: Seq<Piece>)
    requires
        steady(scene),
    ensures
        kept(scene, #[trigger] scene.edit_put(id, p)),
{
    reveal(Scene::edit_put);
    broadcast use {index_within, keep_edit_ended, keep_next_sent};
}

broadcast proof fn keep_edit_saved(scene: Scene)
    requires
        steady(scene),
    ensures
        kept(scene, #[trigger] scene.edit_saved()),
{
    reveal(Scene::edit_saved);
    broadcast use {keep_edit_deleted, keep_edit_put, keep_tray_settled};
}

broadcast proof fn keep_effort_asked(scene: Scene, arg: Seq<char>)
    requires
        steady(scene),
    ensures
        kept(scene, #[trigger] scene.effort_asked(arg)),
{
    reveal(Scene::effort_asked);
}

broadcast proof fn keep_helped(scene: Scene)
    requires
        steady(scene),
    ensures
        kept(scene, #[trigger] scene.helped()),
{
    reveal(Scene::helped);
}

broadcast proof fn keep_image_asked(scene: Scene, arg: Seq<char>)
    requires
        steady(scene),
    ensures
        kept(scene, #[trigger] scene.image_asked(arg)),
{
    reveal(Scene::image_asked);
}

broadcast proof fn keep_in_language(scene: Scene, arg: Seq<char>)
    requires
        steady(scene),
    ensures
        kept(scene, #[trigger] scene.in_language(arg)),
{
    reveal(Scene::in_language);
}

broadcast proof fn keep_keys_shown(scene: Scene)
    requires
        steady(scene),
    ensures
        kept(scene, #[trigger] scene.keys_shown()),
{
    reveal(Scene::keys_shown);
}

broadcast proof fn keep_logging_in(scene: Scene, arg: Seq<char>)
    requires
        steady(scene),
    ensures
        kept(scene, #[trigger] scene.logging_in(arg)),
{
    reveal(Scene::logging_in);
}

broadcast proof fn keep_model_asked(scene: Scene, model: Seq<char>)
    requires
        steady(scene),
    ensures
        kept(scene, #[trigger] scene.model_asked(model)),
{
    reveal(Scene::model_asked);
}

broadcast proof fn keep_models_opened(scene: Scene)
    requires
        steady(scene),
    ensures
        kept(scene, #[trigger] scene.models_opened()),
{
    reveal(Scene::models_opened);
}

broadcast proof fn keep_new_asked(scene: Scene)
    requires
        steady(scene),
    ensures
        kept(scene, #[trigger] scene.new_asked()),
{
    reveal(Scene::new_asked);
}

broadcast proof fn keep_permission_asked(scene: Scene, preset: Seq<char>)
    requires
        steady(scene),
    ensures
        kept(scene, #[trigger] scene.permission_asked(preset)),
{
    reveal(Scene::permission_asked);
}

broadcast proof fn keep_permissions_opened(scene: Scene)
    requires
        steady(scene),
    ensures
        kept(scene, #[trigger] scene.permissions_opened()),
{
    reveal(Scene::permissions_opened);
}

broadcast proof fn keep_permission_worded(scene: Scene, arg: Seq<char>)
    requires
        steady(scene),
    ensures
        kept(scene, #[trigger] scene.permission_worded(arg)),
{
    reveal(Scene::permission_worded);
    broadcast use {keep_permission_asked, keep_permissions_opened};
}

broadcast proof fn keep_scrollback_cleared(scene: Scene)
    requires
        steady(scene),
    ensures
        kept(scene, #[trigger] scene.scrollback_cleared()),
{
    reveal(Scene::scrollback_cleared);
}

broadcast proof fn keep_sessions_asked(scene: Scene, arg: Seq<char>)
    requires
        steady(scene),
    ensures
        kept(scene, #[trigger] scene.sessions_asked(arg)),
{
    reveal(Scene::sessions_asked);
}

broadcast proof fn keep_skills_shown(scene: Scene)
    requires
        steady(scene),
    ensures
        kept(scene, #[trigger] scene.skills_shown()),
{
    reveal(Scene::skills_shown);
}

broadcast proof fn keep_text_sent(scene: Scene, text: Seq<char>)
    requires
        steady(scene),
    ensures
        kept(scene, #[trigger] scene.text_sent(text)),
{
    reveal(Scene::text_sent);
}

broadcast proof fn keep_skill_invoked(scene: Scene, arg: Seq<char>)
    requires
        steady(scene),
    ensures
        kept(scene, #[trigger] scene.skill_invoked(arg)),
{
    reveal(Scene::skill_invoked);
    broadcast use {keep_skills_shown, keep_text_sent};
}

broadcast proof fn keep_status_shown(scene: Scene)
    requires
        steady(scene),
    ensures
        kept(scene, #[trigger] scene.status_shown()),
{
    reveal(Scene::status_shown);
}

broadcast proof fn keep_palette_activated(scene: Scene, id: Seq<char>)
    requires
        steady(scene),
    ensures
        kept(scene, #[trigger] scene.palette_activated(id)),
{
    reveal(Scene::palette_activated);
}

broadcast proof fn keep_theme_set(scene: Scene, arg: Seq<char>)
    requires
        steady(scene),
    ensures
        kept(scene, #[trigger] scene.theme_set(arg)),
{
    reveal(Scene::theme_set);
    broadcast use keep_palette_activated;
}

broadcast proof fn keep_vim_set(scene: Scene, arg: Seq<char>)
    requires
        steady(scene),
    ensures
        kept(scene, #[trigger] scene.vim_set(arg)),
{
    reveal(Scene::vim_set);
}

#[verifier::rlimit(50)]
broadcast proof fn keep_commanded(scene: Scene, name: Seq<char>, arg: Seq<char>)
    requires
        steady(scene),
    ensures
        kept(scene, #[trigger] scene.commanded(name, arg)),
{
    reveal(Scene::commanded);
    broadcast use {
        keep_effort_asked,
        keep_helped,
        keep_image_asked,
        keep_in_language,
        keep_keys_shown,
        keep_logging_in,
        keep_model_asked,
        keep_models_opened,
        keep_new_asked,
        keep_permission_worded,
        keep_scrollback_cleared,
        keep_sessions_asked,
        keep_skill_invoked,
        keep_status_shown,
        keep_text_sent,
        keep_theme_set,
        keep_vim_set,
    };
}

broadcast proof fn keep_entry_accepted(scene: Scene, e: Suggestion)
    requires
        steady(scene),
    ensures
        kept(scene, #[trigger] scene.entry_accepted(e)),
{
    reveal(Scene::entry_accepted);
    broadcast use keep_commanded;
}

broadcast proof fn keep_head_sent(scene: Scene)
    requires
        steady(scene),
    ensures
        kept(scene, #[trigger] scene.head_sent()),
{
    reveal(Scene::head_sent);
}

broadcast proof fn keep_emitted(scene: Scene, p: Seq<Piece>, queued: bool, steer: Option<u64>)
    requires
        steady(scene),
    ensures
        kept(scene, #[trigger] scene.emitted(p, queued, steer)),
{
    reveal(Scene::emitted);
    broadcast use echo_root;
}

broadcast proof fn keep_staged_sent(scene: Scene, p: Seq<Piece>)
    requires
        steady(scene),
    ensures
        kept(scene, #[trigger] scene.staged_sent(p)),
{
    reveal(Scene::staged_sent);
    broadcast use keep_emitted;
}

broadcast proof fn keep_images_submitted(scene: Scene)
    requires
        steady(scene),
    ensures
        kept(scene, #[trigger] scene.images_submitted()),
{
    reveal(Scene::images_submitted);
    broadcast use {keep_staged_sent, keep_tray_settled};
}

broadcast proof fn keep_line_kept(scene: Scene, line: Seq<char>)
    requires
        steady(scene),
    ensures
        kept(scene, #[trigger] scene.line_kept(line)),
{
    reveal(Scene::line_kept);
}

broadcast proof fn keep_line_run(scene: Scene, line: Seq<char>)
    requires
        steady(scene),
    ensures
        kept(scene, #[trigger] scene.line_run(line)),
{
    reveal(Scene::line_run);
    broadcast use {keep_commanded, keep_line_kept, keep_text_sent};
}

broadcast proof fn keep_submitted(scene: Scene)
    requires
        steady(scene),
    ensures
        kept(scene, #[trigger] scene.submitted()),
{
    reveal(Scene::submitted);
    broadcast use {keep_images_submitted, keep_line_kept, keep_line_run, keep_text_sent};
}

broadcast proof fn keep_entered(scene: Scene)
    requires
        steady(scene),
    ensures
        kept(scene, #[trigger] scene.entered()),
{
    reveal(Scene::entered);
    broadcast use {keep_edit_saved, keep_entry_accepted, keep_head_sent, keep_submitted};
}

broadcast proof fn keep_answered(scene: Scene, answer: Answer)
    requires
        steady(scene),
    ensures
        kept(scene, #[trigger] scene.answered(answer)),
{
    reveal(Scene::answered);
}

broadcast proof fn keep_turn_interrupted(scene: Scene)
    requires
        steady(scene),
    ensures
        steady(#[trigger] scene.turn_interrupted()),
        loyal(scene, scene.turn_interrupted()),
        asks(scene.turn_interrupted()) == asks(scene),
{
    reveal(Scene::turn_interrupted);
}

broadcast proof fn keep_backed_out(scene: Scene)
    requires
        steady(scene),
    ensures
        steady(#[trigger] scene.backed_out()),
        loyal(scene, scene.backed_out()),
        asks(scene.backed_out()) == asks(scene),
{
    reveal(Scene::backed_out);
    broadcast use {keep_tray_settled, keep_turn_interrupted};
}

broadcast proof fn keep_escaped(scene: Scene)
    requires
        steady(scene),
    ensures
        steady(#[trigger] scene.escaped()),
        loyal(scene, scene.escaped()),
        asks(scene.escaped()) == asks(scene),
        scene.active is Some && controller::calm(scene.ctl) ==> controller::calm(scene.escaped().ctl),
{
    reveal(Scene::escaped);
    broadcast use {keep_answered, keep_backed_out, keep_edit_ended};
}

broadcast proof fn keep_queue_opened(scene: Scene)
    requires
        steady(scene),
    ensures
        kept(scene, #[trigger] scene.queue_opened()),
{
    reveal(Scene::queue_opened);
}

broadcast proof fn keep_quit_pressed(scene: Scene)
    requires
        steady(scene),
    ensures
        kept(scene, #[trigger] scene.quit_pressed()),
{
    reveal(Scene::quit_pressed);
}

broadcast proof fn keep_raised(scene: Scene)
    requires
        steady(scene),
    ensures
        kept(scene, #[trigger] scene.raised()),
{
    reveal(Scene::raised);
}

broadcast proof fn keep_scrolled(scene: Scene, delta: int)
    requires
        steady(scene),
    ensures
        kept(scene, #[trigger] scene.scrolled(delta)),
{
    reveal(Scene::scrolled);
}

broadcast proof fn keep_chat_dragged(scene: Scene, col: u16, row: u16)
    requires
        steady(scene),
    ensures
        kept(scene, #[trigger] scene.chat_dragged(col, row)),
{
    reveal(Scene::chat_dragged);
    broadcast use keep_scrolled;
}

broadcast proof fn keep_dragged(scene: Scene, col: u16, row: u16)
    requires
        steady(scene),
    ensures
        kept(scene, #[trigger] scene.dragged(col, row)),
{
    reveal(Scene::dragged);
    broadcast use keep_chat_dragged;
}

broadcast proof fn keep_selection_copied(scene: Scene)
    requires
        steady(scene),
    ensures
        kept(scene, #[trigger] scene.selection_copied()),
{
    reveal(Scene::selection_copied);
    broadcast use keep_dragged;
}

broadcast proof fn keep_selection_cut(scene: Scene)
    requires
        steady(scene),
    ensures
        kept(scene, #[trigger] scene.selection_cut()),
{
    reveal(Scene::selection_cut);
    broadcast use keep_dragged;
}

broadcast proof fn keep_pieces_sent_now(scene: Scene, p: Seq<Piece>)
    requires
        steady(scene),
    ensures
        kept(scene, #[trigger] scene.pieces_sent_now(p)),
{
    reveal(Scene::pieces_sent_now);
    broadcast use keep_emitted;
}

broadcast proof fn keep_sent_now(scene: Scene)
    requires
        steady(scene),
    ensures
        kept(scene, #[trigger] scene.sent_now()),
{
    reveal(Scene::sent_now);
    broadcast use {keep_pieces_sent_now, keep_tray_settled};
}

#[verifier::rlimit(50)]
broadcast proof fn keep_performed(scene: Scene, action: Action)
    requires
        steady(scene),
    ensures
        steady(#[trigger] scene.performed(action)),
        loyal(scene, scene.performed(action)),
        asks(scene.performed(action)) == asks(scene),
        action != Action::Esc && controller::calm(scene.ctl) ==> controller::calm(scene.performed(action).ctl),
{
    reveal(Scene::performed);
    broadcast use {
        keep_broken,
        keep_completed,
        keep_deleted,
        keep_entered,
        keep_escaped,
        keep_models_opened,
        keep_permission_asked,
        keep_queue_opened,
        keep_quit_pressed,
        keep_raised,
        keep_scrollback_cleared,
        keep_scrolled,
        keep_selection_copied,
        keep_selection_cut,
        keep_sent_now,
    };
}

broadcast proof fn keep_acted(scene: Scene, action: Action)
    requires
        steady(scene),
    ensures
        steady(#[trigger] scene.acted(action)),
        loyal(scene, scene.acted(action)),
        asks(scene.acted(action)) == asks(scene),
        action != Action::Esc && controller::calm(scene.ctl) ==> controller::calm(scene.acted(action).ctl),
{
    reveal(Scene::acted);
    broadcast use {action_coherent, keep_performed};
}

broadcast proof fn keep_agents_listed(scene: Scene)
    requires
        steady(scene),
    ensures
        kept(scene, #[trigger] scene.agents_listed()),
{
    reveal(Scene::agents_listed);
}

broadcast proof fn keep_agent_keyed(scene: Scene, key: KeyEvent)
    requires
        steady(scene),
    ensures
        steady(#[trigger] scene.agent_keyed(key)),
        loyal(scene, scene.agent_keyed(key)),
        asks(scene.agent_keyed(key)) == asks(scene),
        scene.active is Some && key.code != KeyCode::Esc && controller::calm(scene.ctl) ==> controller::calm(scene.agent_keyed(key).ctl),
{
    reveal(Scene::agent_keyed);
    broadcast use {esc_is_esc, keep_acted, keep_agents_listed, keep_escaped};
}

broadcast proof fn keep_ask_keyed(scene: Scene, key: KeyEvent)
    requires
        steady(scene),
    ensures
        kept(scene, #[trigger] scene.ask_keyed(key)),
{
    reveal(Scene::ask_keyed);
    broadcast use keep_answered;
}

broadcast proof fn keep_card_moved(scene: Scene, down: bool, n: int)
    requires
        steady(scene),
    ensures
        kept(scene, #[trigger] scene.card_moved(down, n)),
{
    reveal(Scene::card_moved);
}

broadcast proof fn keep_card_set(scene: Scene, scroll: usize)
    requires
        steady(scene),
    ensures
        kept(scene, #[trigger] scene.card_set(scroll)),
{
    reveal(Scene::card_set);
}

broadcast proof fn keep_card_keyed(scene: Scene, key: KeyEvent)
    requires
        steady(scene),
    ensures
        kept(scene, #[trigger] scene.card_keyed(key)),
{
    reveal(Scene::card_keyed);
    broadcast use {keep_card_moved, keep_card_set};
}

broadcast proof fn keep_menu_followed(scene: Scene, menu: Menu, row: int, token: Token)
    requires
        steady(scene),
    ensures
        kept(scene, #[trigger] scene.menu_followed(menu, row, token)),
{
    reveal(Scene::menu_followed);
}

broadcast proof fn keep_menu_refreshed(scene: Scene)
    requires
        steady(scene),
    ensures
        kept(scene, #[trigger] scene.menu_refreshed()),
{
    reveal(Scene::menu_refreshed);
    broadcast use keep_menu_followed;
}

broadcast proof fn keep_draft_keyed(scene: Scene, key: KeyEvent)
    requires
        steady(scene),
    ensures
        steady(#[trigger] scene.draft_keyed(key)),
        loyal(scene, scene.draft_keyed(key)),
        asks(scene.draft_keyed(key)) == asks(scene),
        key.code != KeyCode::Esc && controller::calm(scene.ctl) ==> controller::calm(scene.draft_keyed(key).ctl),
{
    reveal(Scene::draft_keyed);
    broadcast use {
        esc_is_esc,
        keep_acted,
        keep_edit_deleted,
        keep_menu_refreshed,
        keep_tray_settled,
    };
}

broadcast proof fn keep_menu_dismissed(scene: Scene)
    requires
        steady(scene),
    ensures
        kept(scene, #[trigger] scene.menu_dismissed()),
{
    reveal(Scene::menu_dismissed);
}

broadcast proof fn keep_menu_settled(scene: Scene)
    requires
        steady(scene),
    ensures
        kept(scene, #[trigger] scene.menu_settled()),
{
    reveal(Scene::menu_settled);
    broadcast use keep_tray_settled;
}

broadcast proof fn keep_menu_drilled(scene: Scene)
    requires
        steady(scene),
    ensures
        kept(scene, #[trigger] scene.menu_drilled()),
{
    reveal(Scene::menu_drilled);
    broadcast use {keep_menu_refreshed, keep_menu_settled};
}

broadcast proof fn keep_menu_keyed(scene: Scene, key: KeyEvent)
    requires
        steady(scene),
    ensures
        #[trigger] scene.menu_keyed(key) matches Some(next) ==> kept(scene, next),
{
    reveal(Scene::menu_keyed);
    broadcast use {keep_menu_dismissed, keep_menu_drilled, keep_menu_settled};
}

broadcast proof fn keep_unpreviewed(scene: Scene)
    requires
        steady(scene),
    ensures
        kept(scene, #[trigger] scene.unpreviewed()),
{
    reveal(Scene::unpreviewed);
}

broadcast proof fn keep_previewed(scene: Scene, id: Seq<char>)
    requires
        steady(scene),
    ensures
        kept(scene, #[trigger] scene.previewed(id)),
{
    reveal(Scene::previewed);
    broadcast use keep_unpreviewed;
}

broadcast proof fn keep_slash_keyed(scene: Scene, key: KeyEvent)
    requires
        steady(scene),
    ensures
        #[trigger] scene.slash_keyed(key) matches Some(next) ==> kept(scene, next),
{
    reveal(Scene::slash_keyed);
    broadcast use keep_previewed;
}

#[verifier::rlimit(50)]
broadcast proof fn keep_composer_keyed(scene: Scene, key: KeyEvent)
    requires
        steady(scene),
    ensures
        steady(#[trigger] scene.composer_keyed(key)),
        loyal(scene, scene.composer_keyed(key)),
        asks(scene.composer_keyed(key)) == asks(scene),
        key.code != KeyCode::Esc && controller::calm(scene.ctl) ==> controller::calm(scene.composer_keyed(key).ctl),
{
    reveal(Scene::composer_keyed);
    broadcast use {
        keep_agents_listed,
        keep_draft_keyed,
        keep_menu_keyed,
        keep_menu_refreshed,
        keep_slash_keyed,
        keep_tray_settled,
    };
}

broadcast proof fn keep_queue_list_refreshed(scene: Scene)
    requires
        steady(scene),
    ensures
        kept(scene, #[trigger] scene.queue_list_refreshed()),
{
    reveal(Scene::queue_list_refreshed);
}

broadcast proof fn keep_disarmed(scene: Scene, from: usize)
    requires
        steady(scene),
    ensures
        kept(scene, #[trigger] scene.disarmed(from)),
{
    reveal(Scene::disarmed);
    broadcast use keep_queue_list_refreshed;
}

broadcast proof fn keep_row_deleted(scene: Scene, id: Seq<char>)
    requires
        steady(scene),
    ensures
        kept(scene, #[trigger] scene.row_deleted(id)),
{
    reveal(Scene::row_deleted);
    broadcast use {keep_dropped, keep_queue_list_refreshed};
}

broadcast proof fn keep_image_staged(
    scene: Scene,
    name: Seq<char>,
    path: Seq<char>,
    media_type: Seq<char>,
    data: Seq<u8>,
    caption: Seq<char>,
)
    requires
        steady(scene),
    ensures
        kept(scene, #[trigger] scene.image_staged(name, path, media_type, data, caption)),
{
    reveal(Scene::image_staged);
}

broadcast proof fn keep_reloaded(scene: Scene, p: Seq<Piece>, n: int)
    requires
        steady(scene),
    ensures
        kept(scene, #[trigger] scene.reloaded(p, n)),
    decreases n,
{
    if n > 0 {
        keep_reloaded(scene, p, n - 1);
    }
    broadcast use keep_image_staged;
}

broadcast proof fn keep_edit_begun(scene: Scene, id: Seq<char>)
    requires
        steady(scene),
    ensures
        kept(scene, #[trigger] scene.edit_begun(id)),
{
    reveal(Scene::edit_begun);
    broadcast use {keep_reloaded, keep_tray_settled};
}

broadcast proof fn keep_effort_picked(scene: Scene, effort: Seq<char>)
    requires
        steady(scene),
    ensures
        kept(scene, #[trigger] scene.effort_picked(effort)),
{
    reveal(Scene::effort_picked);
}

broadcast proof fn keep_model_picked(scene: Scene, row: Row)
    requires
        steady(scene),
    ensures
        kept(scene, #[trigger] scene.model_picked(row)),
{
    reveal(Scene::model_picked);
}

broadcast proof fn keep_session_asked(scene: Scene, id: Seq<char>)
    requires
        steady(scene),
    ensures
        kept(scene, #[trigger] scene.session_asked(id)),
{
    reveal(Scene::session_asked);
}

broadcast proof fn keep_turned_to(scene: Scene, id: Seq<char>)
    requires
        steady(scene),
    ensures
        kept(scene, #[trigger] scene.turned_to(id)),
{
    reveal(Scene::turned_to);
}

broadcast proof fn keep_row_taken(scene: Scene, kind: PickerKind, row: Row)
    requires
        steady(scene),
    ensures
        kept(scene, #[trigger] scene.row_taken(kind, row)),
{
    reveal(Scene::row_taken);
    broadcast use {
        keep_edit_begun,
        keep_effort_picked,
        keep_model_picked,
        keep_palette_activated,
        keep_permission_asked,
        keep_session_asked,
        keep_turned_to,
    };
}

broadcast proof fn keep_list_keyed(scene: Scene, key: KeyEvent, p: Choice)
    requires
        steady(scene),
    ensures
        kept(scene, #[trigger] scene.list_keyed(key, p)),
{
    reveal(Scene::list_keyed);
    broadcast use {keep_row_deleted, keep_row_taken};
}

broadcast proof fn keep_picker_keyed(scene: Scene, key: KeyEvent)
    requires
        steady(scene),
    ensures
        kept(scene, #[trigger] scene.picker_keyed(key)),
{
    reveal(Scene::picker_keyed);
    broadcast use {keep_disarmed, keep_list_keyed, keep_previewed};
}

broadcast proof fn keep_todo_moved(scene: Scene, down: bool, n: int)
    requires
        steady(scene),
    ensures
        kept(scene, #[trigger] scene.todo_moved(down, n)),
{
    reveal(Scene::todo_moved);
}

broadcast proof fn keep_todo_set(scene: Scene, scroll: usize)
    requires
        steady(scene),
    ensures
        kept(scene, #[trigger] scene.todo_set(scroll)),
{
    reveal(Scene::todo_set);
}

broadcast proof fn keep_todo_keyed(scene: Scene, key: KeyEvent)
    requires
        steady(scene),
    ensures
        kept(scene, #[trigger] scene.todo_keyed(key)),
{
    reveal(Scene::todo_keyed);
    broadcast use {keep_todo_moved, keep_todo_set};
}

broadcast proof fn keep_key_given(scene: Scene, key: KeyEvent)
    requires
        steady(scene),
    ensures
        steady(#[trigger] scene.key_given(key)),
        loyal(scene, scene.key_given(key)),
        asks(scene.key_given(key)) == asks(scene),
        key.code != KeyCode::Esc && controller::calm(scene.ctl) ==> controller::calm(scene.key_given(key).ctl),
{
    reveal(Scene::key_given);
    broadcast use {
        keep_agent_keyed,
        keep_ask_keyed,
        keep_card_keyed,
        keep_composer_keyed,
        keep_picker_keyed,
        keep_todo_keyed,
    };
}

broadcast proof fn keep_preview_settled(scene: Scene)
    requires
        steady(scene),
    ensures
        kept(scene, #[trigger] scene.preview_settled()),
{
    reveal(Scene::preview_settled);
    broadcast use keep_unpreviewed;
}

broadcast proof fn keep_all_keyed(scene: Scene, keys: Seq<KeyEvent>, n: int)
    requires
        steady(scene),
    ensures
        steady(#[trigger] scene.all_keyed(keys, n)),
        loyal(scene, scene.all_keyed(keys, n)),
        asks(scene.all_keyed(keys, n)) == asks(scene),
        harmless(keys, n) && controller::calm(scene.ctl) ==> controller::calm(scene.all_keyed(keys, n).ctl),
    decreases n,
{
    if n > 0 {
        keep_all_keyed(scene, keys, n - 1);
    }
    broadcast use {keep_key_given, keep_preview_settled};
}

broadcast proof fn keep_asked(scene: Scene, title: Seq<char>, options: Seq<PermissionAskOption>)
    requires
        steady(scene),
    ensures
        steady(#[trigger] scene.asked(title, options)),
        loyal(scene, scene.asked(title, options)),
        asks(scene.asked(title, options)) == asks(scene) + 1,
        controller::calm(scene.ctl) ==> controller::calm(scene.asked(title, options).ctl),
{
    reveal(Scene::asked);
}

broadcast proof fn keep_bannered(scene: Scene, version: Seq<char>)
    requires
        steady(scene),
    ensures
        kept(scene, #[trigger] scene.bannered(version)),
{
    reveal(Scene::bannered);
}

broadcast proof fn keep_branch_checked(scene: Scene)
    requires
        steady(scene),
    ensures
        kept(scene, #[trigger] scene.branch_checked()),
{
    reveal(Scene::branch_checked);
}

broadcast proof fn keep_cell_turned(scene: Scene, i: int)
    requires
        steady(scene),
    ensures
        kept(scene, #[trigger] scene.cell_turned(i)),
{
    reveal(Scene::cell_turned);
}

broadcast proof fn keep_chat_drag_ended(scene: Scene)
    requires
        steady(scene),
    ensures
        kept(scene, #[trigger] scene.chat_drag_ended()),
{
    reveal(Scene::chat_drag_ended);
}

broadcast proof fn keep_word_selected(scene: Scene, p: SelPoint)
    requires
        steady(scene),
    ensures
        kept(scene, #[trigger] scene.word_selected(p)),
{
    reveal(Scene::word_selected);
}

broadcast proof fn keep_chat_pressed(scene: Scene, col: u16, row: u16)
    requires
        steady(scene),
    ensures
        kept(scene, #[trigger] scene.chat_pressed(col, row)),
{
    reveal(Scene::chat_pressed);
    broadcast use keep_word_selected;
}

broadcast proof fn keep_child_born(
    scene: Scene,
    parent: Seq<char>,
    child: Seq<char>,
    label: Option<Seq<char>>,
)
    requires
        steady(scene),
    ensures
        kept(scene, #[trigger] scene.child_born(parent, child, label)),
{
    reveal(Scene::child_born);
}

broadcast proof fn keep_child_finished(scene: Scene, child: Seq<char>, ui: UiEvent)
    requires
        steady(scene),
    ensures
        kept(scene, #[trigger] scene.child_finished(child, ui)),
{
    reveal(Scene::child_finished);
    broadcast use heard_root;
}

broadcast proof fn keep_childless(scene: Scene)
    requires
        steady(scene),
    ensures
        kept(scene, #[trigger] scene.childless()),
{
    reveal(Scene::childless);
}

broadcast proof fn keep_chord_faded(scene: Scene)
    requires
        steady(scene),
    ensures
        kept(scene, #[trigger] scene.chord_faded()),
{
    reveal(Scene::chord_faded);
}

broadcast proof fn keep_clip_brought(
    scene: Scene,
    caption: Seq<char>,
    found: Option<(Seq<u8>, Seq<char>)>,
)
    requires
        steady(scene),
    ensures
        kept(scene, #[trigger] scene.clip_brought(caption, found)),
{
    reveal(Scene::clip_brought);
    broadcast use keep_image_staged;
}

broadcast proof fn keep_drag_ended(scene: Scene)
    requires
        steady(scene),
    ensures
        kept(scene, #[trigger] scene.drag_ended()),
{
    reveal(Scene::drag_ended);
    broadcast use keep_dragged;
}

broadcast proof fn keep_efforts_opened(scene: Scene, efforts: Seq<String>, default: Option<String>)
    requires
        steady(scene),
    ensures
        kept(scene, #[trigger] scene.efforts_opened(efforts, default)),
{
    reveal(Scene::efforts_opened);
}

broadcast proof fn keep_fact_taken(scene: Scene, ui: UiEvent)
    requires
        steady(scene),
    ensures
        kept(scene, #[trigger] scene.fact_taken(ui)),
{
    reveal(Scene::fact_taken);
    broadcast use {heard_root, keep_child_born, keep_child_finished};
}

broadcast proof fn keep_models_listed(scene: Scene, models: Seq<CatalogModel>)
    requires
        steady(scene),
    ensures
        kept(scene, #[trigger] scene.models_listed(models)),
{
    reveal(Scene::models_listed);
}

broadcast proof fn keep_hinted(scene: Scene)
    requires
        steady(scene),
    ensures
        kept(scene, #[trigger] scene.hinted()),
{
    reveal(Scene::hinted);
}

broadcast proof fn keep_session_left(scene: Scene)
    requires
        steady(scene),
    ensures
        kept(scene, #[trigger] scene.session_left()),
{
    reveal(Scene::session_left);
    broadcast use keep_childless;
}

broadcast proof fn keep_session_bound(
    scene: Scene,
    id: Seq<char>,
    notice: Option<Seq<char>>,
    model: Option<Seq<char>>,
    effort: Option<Seq<char>>,
)
    requires
        steady(scene),
    ensures
        kept(scene, #[trigger] scene.session_bound(id, notice, model, effort)),
{
    reveal(Scene::session_bound);
    broadcast use {keep_childless, keep_hinted, keep_session_left};
}

broadcast proof fn keep_sessions_shown(scene: Scene, sessions: Seq<SessionListItem>)
    requires
        steady(scene),
    ensures
        kept(scene, #[trigger] scene.sessions_shown(sessions)),
{
    reveal(Scene::sessions_shown);
}

broadcast proof fn keep_sessions_listed(
    scene: Scene,
    all: Seq<SessionListItem>,
    prefix: Option<String>,
)
    requires
        steady(scene),
    ensures
        kept(scene, #[trigger] scene.sessions_listed(all, prefix)),
{
    reveal(Scene::sessions_listed);
    broadcast use {keep_session_asked, keep_sessions_shown};
}

broadcast proof fn keep_steer_settled(scene: Scene, id: u64, deferred: bool)
    requires
        steady(scene),
    ensures
        kept(scene, #[trigger] scene.steer_settled(id, deferred)),
{
    reveal(Scene::steer_settled);
}

#[verifier::rlimit(50)]
broadcast proof fn keep_report_taken(scene: Scene, ev: CtlEvent)
    requires
        steady(scene),
    ensures
        kept(scene, #[trigger] scene.report_taken(ev)),
{
    reveal(Scene::report_taken);
    broadcast use {
        keep_efforts_opened,
        keep_models_listed,
        keep_next_sent,
        keep_session_bound,
        keep_sessions_listed,
        keep_steer_settled,
    };
}

broadcast proof fn keep_runtime_gone(scene: Scene, code: Option<i32>)
    requires
        steady(scene),
    ensures
        kept(scene, #[trigger] scene.runtime_gone(code)),
{
    reveal(Scene::runtime_gone);
    reveal(Scene::withdrawn);
    broadcast use keep_withdrawn;
}

broadcast proof fn keep_hovered(scene: Scene, col: u16, row: u16)
    requires
        steady(scene),
    ensures
        kept(scene, #[trigger] scene.hovered(col, row)),
{
    reveal(Scene::hovered);
}

broadcast proof fn keep_lifted(scene: Scene)
    requires
        steady(scene),
    ensures
        kept(scene, #[trigger] scene.lifted()),
{
    reveal(Scene::lifted);
    broadcast use {keep_chat_drag_ended, keep_drag_ended};
}

broadcast proof fn keep_prompt_jumped(scene: Scene)
    requires
        steady(scene),
    ensures
        kept(scene, #[trigger] scene.prompt_jumped()),
{
    reveal(Scene::prompt_jumped);
}

broadcast proof fn keep_todo_opened(scene: Scene)
    requires
        steady(scene),
    ensures
        kept(scene, #[trigger] scene.todo_opened()),
{
    reveal(Scene::todo_opened);
}

broadcast proof fn keep_well_pressed(scene: Scene, col: u16, row: u16)
    requires
        steady(scene),
    ensures
        kept(scene, #[trigger] scene.well_pressed(col, row)),
{
    reveal(Scene::well_pressed);
    broadcast use keep_menu_refreshed;
}

broadcast proof fn keep_pressed(scene: Scene, col: u16, row: u16)
    requires
        steady(scene),
    ensures
        kept(scene, #[trigger] scene.pressed(col, row)),
{
    reveal(Scene::pressed);
    broadcast use {
        keep_cell_turned,
        keep_chat_pressed,
        keep_prompt_jumped,
        keep_todo_opened,
        keep_well_pressed,
    };
}

broadcast proof fn keep_picker_wheeled(scene: Scene, down: bool, n: int)
    requires
        steady(scene),
    ensures
        kept(scene, #[trigger] scene.picker_wheeled(down, n)),
{
    reveal(Scene::picker_wheeled);
    broadcast use {keep_disarmed, keep_previewed};
}

broadcast proof fn keep_wheeled(scene: Scene, down: bool)
    requires
        steady(scene),
    ensures
        kept(scene, #[trigger] scene.wheeled(down)),
{
    reveal(Scene::wheeled);
    broadcast use {keep_card_moved, keep_picker_wheeled, keep_scrolled, keep_todo_moved};
}

broadcast proof fn keep_moused(scene: Scene, m: MouseEvent)
    requires
        steady(scene),
    ensures
        kept(scene, #[trigger] scene.moused(m)),
{
    reveal(Scene::moused);
    broadcast use {keep_dragged, keep_hovered, keep_lifted, keep_pressed, keep_wheeled};
}

broadcast proof fn keep_pasted(scene: Scene, t: Seq<char>)
    requires
        steady(scene),
    ensures
        steady(#[trigger] scene.pasted(t)),
        loyal(scene, scene.pasted(t)),
        asks(scene.pasted(t)) == asks(scene),
        quiet_text(t) && controller::calm(scene.ctl) ==> controller::calm(scene.pasted(t).ctl),
{
    reveal(Scene::pasted);
    broadcast use {keep_all_keyed, keep_tray_settled};
}

broadcast proof fn keep_term_taken(scene: Scene, ev: TermEvent)
    requires
        steady(scene),
    ensures
        steady(#[trigger] scene.term_taken(ev)),
        loyal(scene, scene.term_taken(ev)),
        asks(scene.term_taken(ev)) == asks(scene),
        quiet(ev) && controller::calm(scene.ctl) ==> controller::calm(scene.term_taken(ev).ctl),
{
    reveal(Scene::term_taken);
    broadcast use {keep_key_given, keep_moused, keep_pasted, keep_preview_settled};
}

broadcast proof fn keep_event_taken(scene: Scene, ev: AppEvent)
    requires
        steady(scene),
    ensures
        steady(#[trigger] scene.event_taken(ev)),
        loyal(scene, scene.event_taken(ev)),
        asks(scene.event_taken(ev)) == asks(scene) + if ev is PermissionAsk {
            1nat
        } else {
            0
        },
        (ev matches AppEvent::Term(t) ==> quiet(t)) && controller::calm(scene.ctl) ==> controller::calm(scene.event_taken(ev).ctl),
{
    reveal(Scene::event_taken);
    broadcast use {
        keep_asked,
        keep_fact_taken,
        keep_next_sent,
        keep_report_taken,
        keep_runtime_gone,
        keep_term_taken,
    };
}

broadcast proof fn keep_flash_faded(scene: Scene)
    requires
        steady(scene),
    ensures
        kept(scene, #[trigger] scene.flash_faded()),
{
    reveal(Scene::flash_faded);
}

broadcast proof fn keep_image_brought(
    scene: Scene,
    path: Seq<char>,
    media_type: Seq<char>,
    name: Seq<char>,
    caption: Seq<char>,
    outcome: Result<(Seq<u8>, Seq<char>), Seq<char>>,
)
    requires
        steady(scene),
    ensures
        kept(scene, #[trigger] scene.image_brought(path, media_type, name, caption, outcome)),
{
    reveal(Scene::image_brought);
    broadcast use keep_image_staged;
}

broadcast proof fn keep_kept_since(scene: Scene, from: Scene)
    requires
        steady(scene),
    ensures
        kept(scene, #[trigger] scene.kept_since(from)),
{
    reveal(Scene::kept_since);
}

broadcast proof fn keep_logged_in(scene: Scene, key: Seq<char>, outcome: Result<(), Seq<char>>)
    requires
        steady(scene),
    ensures
        kept(scene, #[trigger] scene.logged_in(key, outcome)),
{
    reveal(Scene::logged_in);
    broadcast use {keep_key_given, keep_preview_settled};
}

broadcast proof fn keep_logged_out(scene: Scene, outcome: Result<bool, Seq<char>>)
    requires
        steady(scene),
    ensures
        kept(scene, #[trigger] scene.logged_out(outcome)),
{
    reveal(Scene::logged_out);
}

broadcast proof fn keep_menu_opened(
    scene: Scene,
    row: int,
    token: Token,
    files: Option<Seq<file_ref::Entry>>,
)
    requires
        steady(scene),
    ensures
        kept(scene, #[trigger] scene.menu_opened(row, token, files)),
{
    reveal(Scene::menu_opened);
}

broadcast proof fn keep_onboarded(scene: Scene)
    requires
        steady(scene),
    ensures
        kept(scene, #[trigger] scene.onboarded()),
{
    reveal(Scene::onboarded);
}

broadcast proof fn keep_drag_settled(scene: Scene, from: Scene)
    requires
        steady(scene),
    ensures
        kept(scene, #[trigger] scene.drag_settled(from)),
{
    reveal(Scene::drag_settled);
}

broadcast proof fn keep_pick_settled(scene: Scene)
    requires
        steady(scene),
    ensures
        kept(scene, #[trigger] scene.pick_settled()),
{
    reveal(Scene::pick_settled);
}

broadcast proof fn keep_spun(scene: Scene)
    requires
        steady(scene),
    ensures
        kept(scene, #[trigger] scene.spun()),
{
    reveal(Scene::spun);
}

broadcast proof fn keep_tip_faded(scene: Scene)
    requires
        steady(scene),
    ensures
        kept(scene, #[trigger] scene.tip_faded()),
{
    reveal(Scene::tip_faded);
}

/// An application is steady when it is launched.
pub proof fn launches_are_steady(
    look: Look,
    phrases: Wording,
    cfg: Config,
    session_id: Seq<char>,
    settings: Preferences,
    attached: bool,
    host: HostFacts,
)
    ensures
        steady(app::launched(look, phrases, cfg, session_id, settings, attached, host)),
{
}

/// Every event keeps a scene steady, and so does every tick.
pub proof fn events_keep_a_scene_steady(scene: Scene, ev: AppEvent)
    requires
        steady(scene),
    ensures
        steady(scene.handled(ev)),
        steady(scene.ticked()),
{
    broadcast use {
        keep_event_taken,
        keep_preview_settled,
        keep_kept_since,
        keep_pick_settled,
        keep_drag_settled,
        keep_branch_checked,
        keep_spun,
        keep_tip_faded,
        keep_flash_faded,
        keep_chord_faded,
    };
}

/// No event lets a model or a mode that was given for the run alone into what
/// is kept: while it is in force what was kept before is kept on, and once one
/// is chosen the one in force is kept.
pub proof fn flags_stay_out_of_what_is_kept(scene: Scene, ev: AppEvent)
    requires
        steady(scene),
    ensures
        ({
            let s = scene.handled(ev);
            &&& s.preferences().model == if s.session.cfg.flags.model {
                scene.preferences().model
            } else {
                Some(s.session.cfg.model)
            }
            &&& s.preferences().theme == if s.session.cfg.flags.theme {
                scene.preferences().theme
            } else {
                Some(s.look.mode.spelled())
            }
        }),
{
    broadcast use {
        keep_event_taken,
        keep_preview_settled,
        keep_kept_since,
        keep_pick_settled,
        keep_drag_settled,
    };
}

/// Esc is the only way to cancel a turn: no other key, no click, no paste that
/// spells no esc, no report and no fact does.
pub proof fn only_esc_cancels(scene: Scene, ev: AppEvent)
    requires
        steady(scene),
        controller::calm(scene.ctl),
        ev matches AppEvent::Term(t) ==> quiet(t),
    ensures
        controller::calm(scene.handled(ev).ctl),
        controller::calm(scene.ticked().ctl),
{
    broadcast use {
        keep_event_taken,
        keep_preview_settled,
        keep_kept_since,
        keep_pick_settled,
        keep_drag_settled,
        keep_branch_checked,
        keep_spun,
        keep_tip_faded,
        keep_flash_faded,
        keep_chord_faded,
    };
}

/// Every ask is answered once: none is lost, and none gets a second answer.
pub proof fn asks_are_answered_once(scene: Scene, ev: AppEvent)
    requires
        steady(scene),
    ensures
        asks(scene.handled(ev)) == asks(scene) + if ev is PermissionAsk {
            1nat
        } else {
            0
        },
{
    broadcast use {
        keep_event_taken,
        keep_preview_settled,
        keep_kept_since,
        keep_pick_settled,
        keep_drag_settled,
    };
}

/// What the host reports back keeps a scene steady, and so does what it shows
/// at the start: the banner, and the card that asks for a key.
pub proof fn reports_keep_a_scene_steady(
    scene: Scene,
    key: Seq<char>,
    stored: Result<(), Seq<char>>,
    deleted: Result<bool, Seq<char>>,
    path: Seq<char>,
    media_type: Seq<char>,
    name: Seq<char>,
    caption: Seq<char>,
    read: Result<(Seq<u8>, Seq<char>), Seq<char>>,
    clip: Option<(Seq<u8>, Seq<char>)>,
    row: int,
    token: Token,
    files: Option<Seq<file_ref::Entry>>,
    version: Seq<char>,
)
    requires
        steady(scene),
    ensures
        steady(scene.logged_in(key, stored)),
        steady(scene.logged_out(deleted)),
        steady(scene.image_brought(path, media_type, name, caption, read)),
        steady(scene.clip_brought(caption, clip)),
        steady(scene.menu_opened(row, token, files)),
        steady(scene.bannered(version)),
        steady(scene.onboarded()),
{
    broadcast use {
        keep_logged_in,
        keep_logged_out,
        keep_image_brought,
        keep_clip_brought,
        keep_menu_opened,
        keep_bannered,
        keep_onboarded,
    };
}

/// Whether two scenes show the same command menu.
spec fn alike(a: Scene, b: Scene) -> bool {
    &&& a.locale == b.locale
    &&& a.phrases == b.phrases
    &&& a.draft.undragged() == b.draft.undragged()
    &&& a.look == b.look
    &&& a.session.cfg == b.session.cfg
    &&& a.session.models == b.session.models
    &&& a.session.efforts == b.session.efforts
    &&& a.session.skills == b.session.skills
}

proof fn options_alike(a: Scene, b: Scene, name: Seq<char>)
    requires
        alike(a, b),
    ensures
        a.options(name) == b.options(name),
{
    assert(a.options(name) =~= b.options(name));
}

proof fn argument_rows_alike(a: Scene, b: Scene, name: Seq<char>, prefix: Seq<char>, n: int)
    requires
        alike(a, b),
    ensures
        a.argument_rows(name, prefix, n) == b.argument_rows(name, prefix, n),
    decreases n,
{
    if n > 0 {
        options_alike(a, b, name);
        argument_rows_alike(a, b, name, prefix, n - 1);
    }
}

proof fn command_rows_alike(a: Scene, b: Scene, prefix: Seq<char>, exact: bool, n: int)
    requires
        alike(a, b),
    ensures
        a.command_rows(prefix, exact, n) == b.command_rows(prefix, exact, n),
    decreases n,
{
    if n > 0 {
        command_rows_alike(a, b, prefix, exact, n - 1);
    }
}

proof fn menus_alike(a: Scene, b: Scene)
    requires
        alike(a, b),
    ensures
        a.menu() == b.menu(),
{
    reveal(Scene::menu);
    let line = a.draft.input.area.text.skip(1);
    let n = commands::commands().len() as int;
    command_rows_alike(a, b, line, true, n);
    command_rows_alike(a, b, line, false, n);
    if let Some((name, arg)) = text::cut_at(line, ' ') {
        options_alike(a, b, name);
        argument_rows_alike(
            a,
            b,
            name,
            text::trim_start(arg),
            a.options(name).len() as int,
        );
    }
}

/// After every event a theme on trial is that of a highlighted row.
pub proof fn events_settle_the_trial(scene: Scene, ev: AppEvent)
    ensures
        ({
            let s = scene.handled(ev);
            s.look.preview is Some ==> s.dialog_pack() == s.look.preview || s.highlighted_pack()
                == s.look.preview
        }),
{
    let s = scene.event_taken(ev);
    let t = s.preview_settled();
    let u = t.kept_since(scene);
    theme::settled_preview_is_highlighted(s);
    reveal(Scene::kept_since);
    reveal(Scene::pick_settled);
    menus_alike(t, u);
    reveal(Scene::drag_settled);
    menus_alike(u, u.pick_settled());
    menus_alike(u.pick_settled(), u.pick_settled().drag_settled(scene));
}

} // verus!
