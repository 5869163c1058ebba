//! What the dialogs promise: which row enter takes, where a highlight goes, and
//! what is asked of the session for it.

use vstd::prelude::*;
use crate::app::pickers;
use crate::app::Scene;
use crate::app::state::Switch;
use crate::bus;
use crate::bus::{CatalogModel, Order, PermissionAskOption, SessionListItem};
use crate::commands;
use crate::controller::{Answer, Deed};
use crate::input::keys::{KeyCode, KeyEvent, KeyModifiers};
use crate::picker;
use crate::picker::{Choice, PickerKind, Row};

verus! {

/// A step down goes to the next row and from the last to the first, a step up
/// to the row before and from the first to the last.
pub proof fn steps_go_one_row(sel: usize, n: int)
    requires
        sel < n <= usize::MAX,
    ensures
        picker::wrap_down(sel, n) == if sel + 1 == n {
            0int
        } else {
            sel + 1
        },
        picker::wrap_up(sel, n) == if sel == 0 {
            n - 1
        } else {
            sel - 1
        },
{
    let next = sel + 1;
    assert(next % n == if next == n {
        0
    } else {
        next
    }) by (nonlinear_arith)
        requires
            0 < next <= n,
    ;
}

/// Enter answers the open ask once, with the option under the highlight, and
/// closes it.
pub proof fn enter_selects_the_highlighted_option(scene: Scene, key: KeyEvent)
    requires
        key.code == KeyCode::Enter,
        scene.panels.ask matches Some(a) && a.sel < a.options.len(),
    ensures
        ({
            let a = scene.panels.ask->0;
            let s = scene.ask_keyed(key);
            &&& s.ctl.effects.len() == scene.ctl.effects.len() + 1
            &&& s.ctl.effects.drop_last() == scene.ctl.effects
            &&& s.ctl.effects.last() == Deed::Reply(
                Answer::Selected(a.options[a.sel as int].option_id@),
            )
            &&& s.panels.ask is None
        }),
{
    reveal(Scene::ask_keyed);
    reveal(Scene::answered);
    let s = scene.ask_keyed(key);
    assert(s.ctl.effects.drop_last() =~= scene.ctl.effects);
}

/// The arrows move the highlight of an ask one option on or back, round at
/// either end, and answer nothing; enter then answers with the option it came
/// to.
pub proof fn arrows_choose_the_option(scene: Scene, key: KeyEvent, enter: KeyEvent)
    requires
        key.code == KeyCode::Up || key.code == KeyCode::Down,
        enter.code == KeyCode::Enter,
        scene.panels.ask matches Some(a) && a.sel < a.options.len() <= usize::MAX,
    ensures
        ({
            let a = scene.panels.ask->0;
            let n = a.options.len();
            let to = if key.code == KeyCode::Down {
                if a.sel + 1 == n { 0int } else { a.sel + 1 }
            } else {
                if a.sel == 0 { n - 1 } else { a.sel - 1 }
            };
            let s = scene.ask_keyed(key);
            &&& s.ctl == scene.ctl
            &&& s.panels.ask matches Some(b) && b.sel == to && b.options == a.options && b.title
                == a.title
            &&& s.ask_keyed(enter).ctl.effects == scene.ctl.effects.push(
                Deed::Reply(Answer::Selected(a.options[to].option_id@)),
            )
        }),
{
    reveal(Scene::ask_keyed);
    reveal(Scene::answered);
    steps_go_one_row(scene.panels.ask->0.sel, scene.panels.ask->0.options.len() as int);
}

/// Esc and ctrl+c give the open ask up, an ask without options cannot be
/// answered otherwise, and a key without a meaning leaves it open.
pub proof fn an_ask_can_be_given_up(scene: Scene, key: KeyEvent)
    requires
        scene.panels.ask is Some,
    ensures
        key.code == KeyCode::Esc || (key.code == KeyCode::Char('c') && key.modifiers.control)
            ==> scene.ask_keyed(key).ctl.effects == scene.ctl.effects.push(
            Deed::Reply(Answer::Cancelled),
        ) && scene.ask_keyed(key).panels.ask is None,
        key.code == KeyCode::Enter && scene.panels.ask->0.options.len() == 0 ==> scene.ask_keyed(
            key,
        ).ctl.effects == scene.ctl.effects.push(Deed::Reply(Answer::Cancelled)),
        key.code == KeyCode::Tab ==> scene.ask_keyed(key) == scene,
        key.code == KeyCode::Char('c') && !key.modifiers.control ==> scene.ask_keyed(key) == scene,
{
    reveal(Scene::ask_keyed);
    reveal(Scene::answered);
}

proof fn allowing_found(options: Seq<PermissionAskOption>, i: int, k: int)
    requires
        0 <= i <= k < options.len(),
    ensures
        match bus::allow_once_from(options, i) {
            Some(j) => i <= j < options.len() && options[j].kind@ == "allow_once"@ && (k < j
                ==> options[k].kind@ != "allow_once"@),
            None => options[k].kind@ != "allow_once"@,
        },
    decreases options.len() - i,
{
    if options[i].kind@ != "allow_once"@ {
        if i + 1 <= k {
            allowing_found(options, i + 1, k);
        } else if i + 1 < options.len() {
            allowing_found(options, i + 1, i + 1);
        }
    }
}

/// An ask opens on the first option that allows once, and on the first option
/// where none does. Nothing is answered by opening it, but an ask that was
/// still open is given up.
pub proof fn an_ask_opens_on_allow_once(
    scene: Scene,
    title: Seq<char>,
    options: Seq<PermissionAskOption>,
    k: int,
)
    requires
        0 <= k < options.len() <= usize::MAX,
    ensures
        ({
            let s = scene.asked(title, options);
            &&& s.panels.ask matches Some(a) && {
                &&& a.title == title
                &&& a.options == options
                &&& a.sel < options.len()
                &&& options[k].kind@ == "allow_once"@ ==> options[a.sel as int].kind@
                    == "allow_once"@ && a.sel <= k
                &&& options[a.sel as int].kind@ != "allow_once"@ ==> a.sel == 0
            }
            &&& scene.panels.ask is None ==> s.ctl == scene.ctl
            &&& scene.panels.ask is Some ==> s.ctl.effects == scene.ctl.effects.push(
                Deed::Reply(Answer::Cancelled),
            )
        }),
{
    reveal(Scene::asked);
    allowing_found(options, 0, k);
}

/// The keys of a list: the arrows go one row and round, the page keys a
/// screenful and no further than the ends, home and end to the ends. The rows
/// stay, and the highlight stays among them.
pub proof fn keys_walk_the_list(p: Choice, page: int)
    requires
        p.sel < p.items.len() <= usize::MAX,
        page >= 1,
    ensures
        p.walked(KeyCode::Down, page).sel == if p.sel + 1 == p.items.len() {
            0int
        } else {
            p.sel + 1
        },
        p.walked(KeyCode::Up, page).sel == if p.sel == 0 {
            p.items.len() - 1
        } else {
            p.sel - 1
        },
        p.walked(KeyCode::PageDown, page).sel == if p.sel + page < p.items.len() {
            p.sel + page
        } else {
            p.items.len() - 1
        },
        p.walked(KeyCode::PageUp, page).sel == if p.sel >= page {
            p.sel - page
        } else {
            0
        },
        p.walked(KeyCode::Home, page).sel == 0,
        p.walked(KeyCode::End, page).sel == p.items.len() - 1,
        p.walked(KeyCode::Tab, page) == p,
        p.walked(KeyCode::Down, page).items == p.items,
        p.walked(KeyCode::Up, page).items == p.items,
        p.walked(KeyCode::PageDown, page).items == p.items,
        p.walked(KeyCode::PageUp, page).items == p.items,
        p.walked(KeyCode::Home, page).items == p.items,
        p.walked(KeyCode::End, page).items == p.items,
{
    steps_go_one_row(p.sel, p.items.len() as int);
}

/// The wheel walks a list row by row in its direction, and stops at its ends.
pub proof fn the_wheel_stops_at_the_ends(p: Choice, n: int)
    requires
        p.sel < p.items.len() <= usize::MAX,
        n >= 0,
    ensures
        p.wheeled(true, n).sel == if p.sel + n < p.items.len() {
            p.sel + n
        } else {
            p.items.len() - 1
        },
        p.wheeled(false, n).sel == if n <= p.sel {
            p.sel - n
        } else {
            0
        },
        p.wheeled(true, n).items == p.items,
        p.wheeled(false, n).items == p.items,
{
}

/// A row is found by its id: where one is found it has the id and is the first
/// that does.
pub proof fn rows_are_found_by_id(items: Seq<Row>, id: Seq<char>, i: int, k: int)
    requires
        0 <= i <= k < items.len(),
    ensures
        match picker::row_of(items, id, i) {
            Some(j) => i <= j < items.len() && items[j].id == id && (k < j ==> items[k].id != id),
            None => items[k].id != id,
        },
    decreases items.len() - i,
{
    if items[i].id != id {
        if i + 1 <= k {
            rows_are_found_by_id(items, id, i + 1, k);
        } else if i + 1 < items.len() {
            rows_are_found_by_id(items, id, i + 1, i + 1);
        }
    }
}

/// Esc closes a list and takes nothing: no order goes out, and neither the
/// session nor the draft changes.
pub proof fn esc_takes_no_row(scene: Scene, key: KeyEvent, p: Choice)
    requires
        key.code == KeyCode::Esc,
    ensures
        scene.list_keyed(key, p).panels.picker is None,
        scene.list_keyed(key, p).ctl == scene.ctl,
        scene.list_keyed(key, p).session == scene.session,
        scene.list_keyed(key, p).draft == scene.draft,
        scene.list_keyed(key, p).queue.waiting == scene.queue.waiting,
        scene.list_keyed(key, p).queue.armed is None,
{
    reveal(Scene::list_keyed);
}

/// Enter in the list of permissions asks for the highlighted preset, and in
/// the list of sessions for the highlighted session. The list closes.
pub proof fn enter_asks_for_the_highlighted_row(scene: Scene, key: KeyEvent, p: Choice)
    requires
        key.code == KeyCode::Enter,
        p.sel < p.items.len(),
    ensures
        ({
            let id = p.items[p.sel as int].id;
            let s = scene.list_keyed(key, p);
            &&& p.kind == PickerKind::Permission && scene.session.modes.permission != Some(id)
                ==> s.ctl.effects == scene.ctl.effects.push(
                Deed::Send(Order::SetPermission { session_id: scene.session.id, preset: id }),
            ) && s.panels.picker is None
            &&& p.kind == PickerKind::Permission && scene.session.modes.permission == Some(id)
                ==> s.ctl == scene.ctl && s.panels.picker is None
            &&& p.kind == PickerKind::Session && scene.session.switch is None && id
                != scene.session.id ==> s.ctl.effects == scene.ctl.effects.push(
                Deed::Send(Order::LoadSession { session_id: id }),
            ) && s.session.switch == Some(Switch::Resume(id)) && s.session.id == scene.session.id
            &&& p.kind == PickerKind::Effort ==> s.ctl.effects == scene.ctl.effects.push(
                Deed::Send(
                    Order::SelectModel {
                        session_id: scene.session.id,
                        provider: None,
                        model: None,
                        effort: Some(id),
                    },
                ),
            ) && s.session.modes.effort == Some(id)
        }),
{
    reveal(Scene::list_keyed);
    reveal(Scene::row_taken);
    reveal(Scene::permission_asked);
    reveal(Scene::session_asked);
    reveal(Scene::effort_picked);
}

/// A picked model is in force and asked of the session where it is another
/// one, and its efforts are fetched. A pick of the one in force asks for its
/// efforts alone.
pub proof fn a_picked_model_is_asked_for(scene: Scene, row: Row)
    requires
        row.provider matches Some(p) ==> p == scene.session.cfg.provider,
    ensures
        ({
            let s = scene.model_picked(row);
            let provider = scene.session.cfg.provider;
            &&& s.session.cfg.model == row.id
            &&& s.session.cfg.provider == provider
            &&& s.session.id == scene.session.id
            &&& s.session.modes == scene.session.modes
            &&& row.id != scene.session.cfg.model ==> s.session.selected_model == Some(row.id)
                && s.ctl.effects == scene.ctl.effects.push(
                Deed::Send(
                    Order::SelectModel {
                        session_id: scene.session.id,
                        provider: row.provider,
                        model: Some(row.id),
                        effort: None,
                    },
                ),
            ).push(Deed::Send(Order::FetchEfforts { provider, model: row.id }))
            &&& row.id == scene.session.cfg.model ==> s.ctl.effects == scene.ctl.effects.push(
                Deed::Send(Order::FetchEfforts { provider, model: row.id }),
            )
        }),
{
    reveal(Scene::model_picked);
}

/// A model of another provider is asked for with its provider.
pub proof fn a_picked_provider_is_asked_for(scene: Scene, row: Row)
    requires
        row.provider matches Some(p) && p != scene.session.cfg.provider,
    ensures
        ({
            let s = scene.model_picked(row);
            let p = row.provider->0;
            &&& s.session.cfg.model == row.id
            &&& s.session.cfg.provider == p
            &&& s.ctl.effects == scene.ctl.effects.push(
                Deed::Send(
                    Order::SelectModel {
                        session_id: scene.session.id,
                        provider: Some(p),
                        model: Some(row.id),
                        effort: None,
                    },
                ),
            ).push(Deed::Send(Order::FetchEfforts { provider: p, model: row.id }))
        }),
{
    reveal(Scene::model_picked);
}

/// A model asked for by name is asked of the session, but comes into force
/// only with its report; the one in force is not asked for.
pub proof fn a_named_model_is_asked_for(scene: Scene, model: Seq<char>)
    ensures
        ({
            let s = scene.model_asked(model);
            &&& s.session.cfg.model == scene.session.cfg.model
            &&& model == scene.session.cfg.model ==> s.ctl == scene.ctl
                && s.session.selected_model == scene.session.selected_model
            &&& model != scene.session.cfg.model ==> s.session.selected_model == Some(model)
                && s.ctl.effects == scene.ctl.effects.push(
                Deed::Send(
                    Order::SelectModel {
                        session_id: scene.session.id,
                        provider: None,
                        model: Some(model),
                        effort: None,
                    },
                ),
            )
        }),
{
    reveal(Scene::model_asked);
}

/// A preset is asked of the session and not taken for granted: what is in
/// force changes only with the session's report.
pub proof fn a_preset_is_asked_for(scene: Scene, preset: Seq<char>)
    ensures
        scene.permission_asked(preset).session == scene.session,
        scene.session.modes.permission == Some(preset) ==> scene.permission_asked(preset).ctl
            == scene.ctl,
        scene.session.modes.permission != Some(preset) ==> scene.permission_asked(
            preset,
        ).ctl.effects == scene.ctl.effects.push(
            Deed::Send(Order::SetPermission { session_id: scene.session.id, preset }),
        ),
        !scene.session.bound ==> scene.permission_asked(preset).tip is Some,
{
    reveal(Scene::permission_asked);
}

/// Going on from preset to preset goes round the stock presets in their order:
/// read-only, workspace-write, full access.
pub proof fn presets_go_round()
    ensures
        pickers::preset_after("read-only"@) == "workspace-write"@,
        pickers::preset_after("workspace-write"@) == "danger-full-access"@,
        pickers::preset_after("danger-full-access"@) == "read-only"@,
        forall|p: Seq<char>|
            p != "read-only"@ && p != "workspace-write"@ && p != "danger-full-access"@
                ==> #[trigger] pickers::preset_after(p) == "workspace-write"@,
        commands::stock_permissions().len() == 3,
        commands::stock_permissions()[0].0 == "read-only"@,
        commands::stock_permissions()[1].0 == "workspace-write"@,
        commands::stock_permissions()[2].0 == "danger-full-access"@,
{
    reveal_strlit("read-only");
    reveal_strlit("workspace-write");
    reveal_strlit("danger-full-access");
    assert("workspace-write"@.len() != "danger-full-access"@.len());
    assert("read-only"@.len() != "danger-full-access"@.len());
}

/// Until the session reports a preset full access is in force.
pub proof fn full_access_is_the_default(scene: Scene)
    ensures
        scene.session.modes.permission is None ==> scene.session.permission()
            == "danger-full-access"@,
        scene.session.modes.permission matches Some(p) ==> scene.session.permission() == p,
{
}

/// The picker of permissions lists the stock presets and opens on the one in
/// force, where it is one of them.
pub proof fn permissions_open_on_the_one_in_force(scene: Scene, k: int)
    requires
        0 <= k < 3,
        commands::stock_permissions()[k].0 == scene.session.permission(),
    ensures
        scene.permissions_opened().panels.picker matches Some(p) && {
            &&& p.kind == PickerKind::Permission
            &&& p.items.len() == 3
            &&& p.sel < 3
            &&& p.items[p.sel as int].id == scene.session.permission()
            &&& p.items[k].id == commands::stock_permissions()[k].0
        },
        scene.permissions_opened().ctl == scene.ctl,
{
    reveal(Scene::permissions_opened);
    let items = commands::stock_permissions().map_values(
        |p: (Seq<char>, Seq<char>)| scene.permission_row(p),
    );
    rows_are_found_by_id(items, scene.session.permission(), 0, k);
}

/// A session is asked for only where no switch is under way and it is another
/// one; what is on show stays until the session is bound.
pub proof fn a_session_is_asked_for_once(scene: Scene, id: Seq<char>)
    ensures
        scene.session.switch is Some || id == scene.session.id ==> scene.session_asked(id)
            == scene,
        scene.session.switch is None && id != scene.session.id ==> scene.session_asked(
            id,
        ).ctl.effects == scene.ctl.effects.push(
            Deed::Send(Order::LoadSession { session_id: id }),
        ) && scene.session_asked(id).session.switch == Some(Switch::Resume(id)),
        scene.session_asked(id).session.id == scene.session.id,
        scene.session_asked(id).transcript == scene.transcript,
        scene.session_asked(id).queue == scene.queue,
{
    reveal(Scene::session_asked);
}

/// The list of sessions leaves out the one on show and keeps the others in
/// order.
pub proof fn the_session_on_show_is_not_listed(all: Seq<SessionListItem>, id: Seq<char>)
    ensures
        pickers::sessions_but(all, id, all.len() as int) == all.filter(
            |s: SessionListItem| s.id@ != id,
        ),
{
    sessions_filtered(all, id, all.len() as int);
    assert(all.take(all.len() as int) =~= all);
}

proof fn sessions_filtered(all: Seq<SessionListItem>, id: Seq<char>, n: int)
    requires
        0 <= n <= all.len(),
    ensures
        pickers::sessions_but(all, id, n) == all.take(n).filter(
            |s: SessionListItem| s.id@ != id,
        ),
    decreases n,
{
    reveal(Seq::filter);
    if n > 0 {
        sessions_filtered(all, id, n - 1);
        assert(all.take(n).drop_last() =~= all.take(n - 1));
    }
}

/// The picker of models takes the catalog over row for row, and opens on the
/// model in force where its provider lists it.
pub proof fn the_catalog_fills_the_picker(scene: Scene, models: Seq<CatalogModel>, k: int)
    requires
        scene.panels.picker matches Some(p) && p.kind == PickerKind::Model,
        0 <= k < models.len() <= usize::MAX,
    ensures
        ({
            let s = scene.models_listed(models);
            &&& s.session.models == models
            &&& s.panels.picker matches Some(p) && {
                &&& p.items.len() == models.len()
                &&& p.items[k].id == models[k].id@
                &&& p.items[k].provider == Some(models[k].provider@)
                &&& p.sel < models.len()
                &&& models[k].id@ == scene.session.cfg.model && models[k].provider@
                    == scene.session.cfg.provider ==> models[p.sel as int].id@
                    == scene.session.cfg.model && models[p.sel as int].provider@
                    == scene.session.cfg.provider
            }
            &&& s.ctl == scene.ctl
        }),
{
    reveal(Scene::models_listed);
    let items = models.map_values(|m: CatalogModel| pickers::model_row(m));
    model_found(items, scene.session.cfg.model, scene.session.cfg.provider, 0, k);
}

proof fn model_found(items: Seq<Row>, model: Seq<char>, provider: Seq<char>, i: int, k: int)
    requires
        0 <= i <= k < items.len(),
    ensures
        match pickers::model_at(items, model, provider, i) {
            Some(j) => i <= j < items.len() && items[j].id == model && items[j].provider == Some(
                provider,
            ),
            None => items[k].id != model || items[k].provider != Some(provider),
        },
    decreases items.len() - i,
{
    if items[i].id != model || items[i].provider != Some(provider) {
        if i + 1 <= k {
            model_found(items, model, provider, i + 1, k);
        } else if i + 1 < items.len() {
            model_found(items, model, provider, i + 1, i + 1);
        }
    }
}

/// A card and the checklist scroll in the direction of the key, never above
/// their head, and esc and enter alone close them.
pub proof fn cards_scroll_and_close(scene: Scene, key: KeyEvent)
    requires
        scene.panels.card is Some,
    ensures
        ({
            let at = scene.panels.card->0.scroll;
            let s = scene.card_keyed(key);
            &&& key.code == KeyCode::Up ==> s.panels.card is Some && s.panels.card->0.scroll == if at >= 1 {
                at - 1
            } else {
                0
            }
            &&& key.code == KeyCode::Down && at < usize::MAX ==> s.panels.card is Some && s.panels.card->0.scroll == at + 1
            &&& key.code == KeyCode::PageUp ==> s.panels.card is Some && s.panels.card->0.scroll == if at
                >= 5 {
                at - 5
            } else {
                0
            }
            &&& key.code == KeyCode::PageDown && at + 5 <= usize::MAX ==> s.panels.card is Some && s.panels.card->0.scroll == at + 5
            &&& key.code == KeyCode::Home ==> s.panels.card is Some && s.panels.card->0.scroll == 0
            &&& key.code == KeyCode::End ==> s.panels.card is Some && s.panels.card->0.scroll == usize::MAX
            &&& (key.code == KeyCode::Esc || key.code == KeyCode::Enter) && key.modifiers
                == KeyModifiers::empty() ==> s.panels.card is None
            &&& key.code == KeyCode::Tab ==> s == scene
            &&& s.ctl == scene.ctl
            &&& s.draft == scene.draft
        }),
{
    reveal(Scene::card_keyed);
    reveal(Scene::card_moved);
    reveal(Scene::card_set);
}

/// So does the checklist.
pub proof fn the_checklist_scrolls_and_closes(scene: Scene, key: KeyEvent)
    requires
        scene.panels.todo is Some,
    ensures
        ({
            let at = scene.panels.todo->0.scroll;
            let s = scene.todo_keyed(key);
            &&& key.code == KeyCode::Up ==> s.panels.todo is Some && s.panels.todo->0.scroll == if at >= 1 {
                at - 1
            } else {
                0
            }
            &&& key.code == KeyCode::Down && at < usize::MAX ==> s.panels.todo is Some && s.panels.todo->0.scroll == at + 1
            &&& key.code == KeyCode::PageUp ==> s.panels.todo is Some && s.panels.todo->0.scroll == if at
                >= 5 {
                at - 5
            } else {
                0
            }
            &&& key.code == KeyCode::PageDown && at + 5 <= usize::MAX ==> s.panels.todo is Some && s.panels.todo->0.scroll == at + 5
            &&& key.code == KeyCode::Home ==> s.panels.todo is Some && s.panels.todo->0.scroll == 0
            &&& key.code == KeyCode::End ==> s.panels.todo is Some && s.panels.todo->0.scroll == usize::MAX
            &&& (key.code == KeyCode::Esc || key.code == KeyCode::Enter) && key.modifiers
                == KeyModifiers::empty() ==> s.panels.todo is None
            &&& s.ctl == scene.ctl
            &&& s.draft == scene.draft
        }),
{
    reveal(Scene::todo_keyed);
    reveal(Scene::todo_moved);
    reveal(Scene::todo_set);
}

/// The checklist opens at its head, and only where there is a plan.
pub proof fn the_checklist_needs_a_plan(scene: Scene)
    ensures
        scene.panels.plan is None ==> scene.todo_opened() == scene,
        scene.panels.plan is Some ==> scene.todo_opened().panels.todo is Some
            && scene.todo_opened().panels.todo->0.scroll == 0,
{
    reveal(Scene::todo_opened);
}

/// The chat scrolls up by what it is scrolled, back down again, and never
/// below its tail.
pub proof fn the_chat_scrolls_and_stops_at_the_tail(scene: Scene, n: int)
    requires
        0 <= n <= i64::MAX,
        scene.chat.scroll_up + n <= usize::MAX,
        scene.chat.scroll_up + n <= i64::MAX,
    ensures
        scene.scrolled(n).chat.scroll_up == scene.chat.scroll_up + n,
        n <= scene.chat.scroll_up ==> scene.scrolled(-n).chat.scroll_up == scene.chat.scroll_up - n,
        n > scene.chat.scroll_up ==> scene.scrolled(-n).chat.scroll_up == 0,
        scene.scrolled(n).ctl == scene.ctl,
{
    reveal(Scene::scrolled);
    let span = usize::MAX + 1;
    let up = scene.chat.scroll_up + n;
    let down = scene.chat.scroll_up - n;
    assert(up % span == up) by (nonlinear_arith)
        requires
            0 <= up < span,
    ;
    if down >= 0 {
        assert(down % span == down) by (nonlinear_arith)
            requires
                0 <= down < span,
        ;
    }
}

/// Turning to a subagent shows it where there is one of that id, and the
/// session itself otherwise, at its tail.
pub proof fn turning_shows_the_agent(scene: Scene, id: Seq<char>)
    ensures
        scene.turned_to(id).chat.scroll_up == 0,
        scene.turned_to(id).chat.sel is None,
        scene.turned_to(id).chat.jump_cell is None,
        id == scene.session.id ==> scene.turned_to(id).active is None,
        scene.turned_to(id).active matches Some(x) ==> x == id,
        scene.turned_to(id).ctl == scene.ctl,
{
    reveal(Scene::turned_to);
}

} // verus!
