//! What holds of every event, of the lists that open, and of a fresh
//! application.

use vstd::prelude::*;
use crate::app;
use crate::app::menu;
use crate::app::Scene;
use crate::app::state::{HostFacts, RunState};
use crate::appearance::Look;
use crate::bus::{AppEvent, Order, TermEvent};
use crate::commands::Wording;
use crate::controller::Deed;
use crate::input::area;
use crate::input::csi;
use crate::input::keys::{KeyEvent, KeyEventKind};
use crate::input::normalize;
use crate::locale::Locale;
use crate::picker;
use crate::picker::{PickerKind, Row};
use crate::runtime;
use crate::runtime::{ModeFacts, Preferences};
use crate::staging;
use crate::text;

verus! {

// --- events ---------------------------------------------------------------------

/// An event goes to what it is for: the end of the process to the flag that ends
/// the loop, a key to the keys, a paste to the paste, a fact to the facts; what
/// the runtime grumbles about changes nothing.
pub proof fn events_go_where_they_belong(scene: Scene, ev: AppEvent)
    ensures
        ev is Terminate ==> scene.event_taken(ev).quit,
        ev is RuntimeStderr ==> scene.event_taken(ev) == scene,
        ev matches AppEvent::RuntimeExited(code) ==> scene.event_taken(ev) == scene.runtime_gone(
            code,
        ),
        ev matches AppEvent::PermissionAsk { title, options } ==> scene.event_taken(ev)
            == scene.asked(title@, options@),
        ev matches AppEvent::Term(TermEvent::Paste(t)) ==> scene.event_taken(ev) == scene.pasted(
            t@,
        ),
        ev matches AppEvent::Term(TermEvent::Mouse(m)) ==> scene.event_taken(ev) == scene.moused(m),
        ev == AppEvent::Term(TermEvent::Other) ==> scene.event_taken(ev) == scene,
        ev == AppEvent::Term(TermEvent::Resize) ==> scene.event_taken(ev) == (Scene {
            needs_redraw: true,
            ..scene
        }),
        ev matches AppEvent::Term(TermEvent::Key(key)) ==> (if key.kind == KeyEventKind::Release {
            scene.event_taken(ev) == scene
        } else {
            scene.event_taken(ev) == scene.keyed(normalize::rescued(key, scene.host.held))
        }),
{
    reveal(Scene::event_taken);
    reveal(Scene::term_taken);
}

/// A session on show that falls idle hands the head of its queue over; another
/// session, or one that goes on running, does not.
pub proof fn an_idle_session_takes_the_next(scene: Scene, ev: AppEvent)
    requires
        ev is Ui,
    ensures
        ev matches AppEvent::Ui(crate::events::UiEvent::SessionStatus { session, running }) ==> (
        if !running && session@ == scene.session.id {
            scene.event_taken(ev) == scene.fact_taken(ev->Ui_0).next_sent()
        } else {
            scene.event_taken(ev) == scene.fact_taken(ev->Ui_0)
        }),
        !(ev->Ui_0 is SessionStatus) ==> scene.event_taken(ev) == scene.fact_taken(ev->Ui_0),
{
    reveal(Scene::event_taken);
}

/// What is pasted stands at the cursor with its line ends made one, and is not
/// sent.
pub proof fn a_paste_lands_in_the_draft(scene: Scene, t: Seq<char>)
    requires
        scene.draft.input.area.ok(),
        scene.draft.input.area.anchor is None,
        csi::leaked(t) is None,
    ensures
        ({
            let a = scene.draft.input.area;
            let s = scene.pasted(t);
            &&& s.draft.input.area.text == a.text.take(a.cursor) + text::unified(t) + a.text.skip(
                a.cursor,
            )
            &&& s.draft.input.area.cursor == a.cursor + text::unified(t).len()
            &&& s.ctl == scene.ctl
            &&& s.queue == scene.queue
            &&& s.session == scene.session
        }),
{
    reveal(Scene::pasted);
    reveal(Scene::tray_settled);
}

/// Key reports that leaked into a paste are keys: they are struck one after the
/// other, and those let go of are left out.
pub proof fn leaked_keys_are_struck_in_order(scene: Scene, keys: Seq<KeyEvent>, n: int)
    requires
        0 < n <= keys.len(),
    ensures
        scene.all_keyed(keys, 0) == scene,
        keys[n - 1].kind == KeyEventKind::Release ==> scene.all_keyed(keys, n) == scene.all_keyed(
            keys,
            n - 1,
        ),
        keys[n - 1].kind != KeyEventKind::Release ==> ({
            let s = scene.all_keyed(keys, n - 1);
            scene.all_keyed(keys, n) == s.keyed(normalize::rescued(keys[n - 1], s.host.held))
        }),
{
}

/// Modes that changed are kept for the workspace and among the preferences, a
/// model that changed among the preferences, and nothing else is.
pub proof fn what_changed_is_kept(scene: Scene, from: Scene)
    ensures
        ({
            let s = scene.kept_since(from);
            let e = scene.ctl.effects;
            let f = s.ctl.effects;
            &&& scene.session.modes != from.session.modes ==> f.len() == e.len() + 2 && f[e.len() as int]
                == Deed::SaveModes(scene.session.modes) && f[e.len() as int + 1] is SaveSettings
            &&& scene.session.modes == from.session.modes && scene.session.cfg.model
                != from.session.cfg.model ==> f.len() == e.len() + 1 && f[e.len() as int]
                is SaveSettings
            &&& scene.session.modes == from.session.modes && scene.session.cfg.model
                == from.session.cfg.model ==> s == scene
        }),
{
    reveal(Scene::kept_since);
}

/// A picked model is pending until a turn has run on it.
pub proof fn a_pick_is_pending_until_it_ran(scene: Scene)
    ensures
        scene.session.selected_model is Some && scene.session.selected_model
            == scene.transcript.last_model ==> scene.pick_settled().session.selected_model is None,
        scene.session.selected_model != scene.transcript.last_model ==> scene.pick_settled()
            == scene,
        scene.pick_settled().session.cfg == scene.session.cfg,
        scene.pick_settled().draft == scene.draft,
{
    reveal(Scene::pick_settled);
}

/// A drag over the draft is put out once the text under it changes, and only
/// then; the text itself stays.
pub proof fn a_drag_lights_its_own_text(scene: Scene, from: Scene)
    ensures
        scene.draft.input.area.text != from.draft.input.area.text ==> scene.drag_settled(
            from,
        ).draft.input_sel is None,
        scene.draft.input.area.text == from.draft.input.area.text ==> scene.drag_settled(from)
            == scene,
        scene.drag_settled(from).draft.input.area.text == scene.draft.input.area.text,
{
    reveal(Scene::drag_settled);
}

// --- lists ----------------------------------------------------------------------

/// The list of agents begins with the session on show and goes on with its
/// subagents, each with its id, its name and whether it runs.
pub proof fn agents_are_listed(scene: Scene, i: int)
    requires
        0 <= i < scene.subagents.len(),
    ensures
        ({
            let rows = scene.agent_rows();
            let c = scene.subagents[i];
            &&& rows.len() == scene.subagents.len() + 1
            &&& rows[0].id == scene.session.id
            &&& rows[i + 1].id == c.id
            &&& rows[i + 1].label == c.label
            &&& scene.locale == Locale::En ==> rows[0].label == "main"@ && rows[i + 1].meta == if c.running {
                "running"@
            } else {
                "finished"@
            }
            &&& scene.agents_listed().panels.picker is Some
            &&& scene.agents_listed().panels.picker->0.items == rows
            &&& scene.agents_listed().panels.picker->0.kind == PickerKind::Subagent
        }),
{
    reveal(Scene::agents_listed);
}

/// Each effort has a row under its own name, and the default is said to be it;
/// without a catalog there are three.
pub proof fn efforts_are_listed(
    scene: Scene,
    efforts: Seq<String>,
    default: Option<String>,
    i: int,
)
    requires
        0 <= i,
    ensures
        ({
            let p = scene.efforts_opened(efforts, default).panels.picker;
            &&& p is Some
            &&& p->0.kind == PickerKind::Effort
            &&& i < efforts.len() ==> p->0.items.len() == efforts.len() && p->0.items[i].id
                == efforts[i]@
            &&& i < efforts.len() && default is Some && default->0@ == efforts[i]@ && scene.locale
                == Locale::En ==> p->0.items[i].meta == "default"@
            &&& i < efforts.len() && !(default is Some && default->0@ == efforts[i]@)
                ==> p->0.items[i].meta.len() == 0
            &&& efforts.len() == 0 ==> p->0.items.len() == 3 && p->0.items[0].id == "off"@
                && p->0.items[1].id == "high"@ && p->0.items[2].id == "max"@
        }),
{
    reveal(Scene::efforts_opened);
}

/// An effort that was picked is asked for, for the session on show, and nothing
/// else of the model is.
pub proof fn a_picked_effort_is_asked_for(scene: Scene, effort: Seq<char>)
    requires
        scene.ctl.attached,
    ensures
        ({
            let s = scene.effort_picked(effort);
            &&& s.ctl.effects == scene.ctl.effects.push(
                Deed::Send(
                    Order::SelectModel {
                        session_id: scene.session.id,
                        provider: None,
                        model: None,
                        effort: Some(effort),
                    },
                ),
            )
            &&& s.session.modes.effort == Some(effort)
            &&& s.session.cfg.model == scene.session.cfg.model
        }),
{
    reveal(Scene::effort_picked);
}

/// The models offered hold the one in force and the stock ones, and the list
/// opens on the one in force.
pub proof fn the_model_in_force_is_offered(scene: Scene)
    ensures
        ({
            let m = scene.session.cfg.model;
            let list = scene.model_list();
            &&& menu::models_with(m).contains(m)
            &&& menu::models_with(m).contains("deepseek-flash"@)
            &&& menu::models_with(m).contains("deepseek-v4-pro"@)
            &&& list.kind == PickerKind::Model
            &&& list.items.len() == menu::models_with(m).len()
            &&& list.sel < list.items.len()
            &&& list.items[list.sel as int].id == m
        }),
{
    let m = scene.session.cfg.model;
    let all = menu::models_with(m);
    let list = scene.model_list();
    let stock = crate::commands::stock_models();
    assert(stock[0] == "deepseek-flash"@ && stock[1] == "deepseek-v4-pro"@);
    if stock.contains(m) {
        assert(all == stock);
    } else {
        assert(all[0] == m && all[1] == stock[0] && all[2] == stock[1]);
    }
    let k = choose|k: int| 0 <= k < all.len() && all[k] == m;
    assert(list.items[k].id == m);
    first_row_of(list.items, m, 0, k);
}

proof fn first_row_of(items: Seq<Row>, id: Seq<char>, i: int, k: int)
    requires
        0 <= i <= k < items.len() < 10,
        items[k].id == id,
    ensures
        picker::row_of(items, id, i) is Some,
        i <= picker::row_of(items, id, i)->0 <= k,
        items[picker::row_of(items, id, i)->0].id == id,
    decreases k - i,
{
    if items[i].id != id {
        first_row_of(items, id, i + 1, k);
    }
}

/// The list of the queue has a row for each prompt, in order, under its number;
/// a row that is armed or edited says so, and an empty queue has no list.
pub proof fn the_queue_is_listed(scene: Scene, sel: Option<usize>, i: int)
    requires
        0 <= i < scene.queue.waiting.len() < usize::MAX,
    ensures
        ({
            let list = scene.queue_list(sel);
            let w = scene.queue.waiting[i];
            let row = list->0.items[i];
            &&& list is Some
            &&& list->0.kind == PickerKind::Queue
            &&& list->0.items.len() == scene.queue.waiting.len()
            &&& row.id == text::decimal(w.id as nat)
            &&& row.label == staging::summary(w.pieces)
            &&& scene.locale == Locale::En ==> row.meta == "#"@ + text::decimal((i + 1) as nat)
                + " · "@ + (if scene.queue.armed == Some(text::decimal(w.id as nat)) {
                "ctrl+d deletes"@
            } else if scene.queue.edit is Some && scene.queue.edit->0.prompt_id == w.id {
                "editing"@
            } else {
                "queued"@
            })
            &&& sel is Some && sel->0 < scene.queue.waiting.len() ==> list->0.sel == sel->0
            &&& sel is Some ==> list->0.sel < scene.queue.waiting.len()
            &&& sel is None && scene.queue.edit is None ==> list->0.sel == 0
        }),
{
    reveal(Scene::queue_list);
}

/// An empty queue has no list, and its open list closes.
pub proof fn an_empty_queue_has_no_list(scene: Scene, sel: Option<usize>)
    requires
        scene.queue.waiting.len() == 0,
    ensures
        scene.queue_list(sel) is None,
        scene.panels.picker is Some && scene.panels.picker->0.kind == PickerKind::Queue
            ==> scene.queue_list_refreshed().panels.picker is None,
{
    reveal(Scene::queue_list);
    reveal(Scene::queue_list_refreshed);
}

/// A row armed for deletion is disarmed once the highlight has left it, and not
/// before.
pub proof fn leaving_a_row_disarms_it(scene: Scene, from: usize)
    requires
        scene.panels.picker is Some,
        scene.panels.picker->0.kind == PickerKind::Queue,
    ensures
        scene.panels.picker->0.sel != from ==> scene.disarmed(from).queue.armed is None,
        scene.panels.picker->0.sel == from ==> scene.disarmed(from) == scene,
        scene.disarmed(from).queue.waiting == scene.queue.waiting,
{
    reveal(Scene::disarmed);
    reveal(Scene::queue_list_refreshed);
}

/// The dialog of packs has a row for each pack under its name.
pub proof fn packs_are_listed(scene: Scene, i: int)
    requires
        0 <= i < scene.look.palettes.len(),
    ensures
        ({
            let list = scene.theme_dialog();
            &&& list.kind == PickerKind::Theme
            &&& list.items.len() == scene.look.palettes.len()
            &&& list.items[i].id == scene.look.palettes[i].0
            &&& list.items[i].label == scene.look.palettes[i].1
        }),
{
}

/// The sessions are listed in order under their ids; where there are none, a
/// remark says so and no list opens.
pub proof fn sessions_are_listed(
    scene: Scene,
    sessions: Seq<crate::bus::SessionListItem>,
    i: int,
)
    requires
        0 <= i,
    ensures
        ({
            let s = scene.sessions_shown(sessions);
            &&& i < sessions.len() ==> s.panels.picker is Some && s.panels.picker->0.kind
                == PickerKind::Session && s.panels.picker->0.items.len() == sessions.len()
                && s.panels.picker->0.items[i].id == sessions[i].id@ && s.panels.picker->0.sel == 0
            &&& sessions.len() == 0 ==> s.panels.picker == scene.panels.picker
                && s.transcript.cells.len() == scene.transcript.cells.len() + 1
        }),
{
    reveal(Scene::sessions_shown);
}

/// A preset's row carries its id, and the one that is reported is said to be
/// current.
pub proof fn presets_have_rows(scene: Scene, p: (Seq<char>, Seq<char>))
    ensures
        scene.permission_row(p).id == p.0,
        scene.locale == Locale::En && scene.session.modes.permission == Some(p.0) ==> (
        " · "@ + "current"@).is_suffix_of(scene.permission_row(p).meta),
        scene.session.modes.permission is Some && scene.session.modes.permission != Some(p.0)
            && crate::commands::meaning(scene.locale, p.0) is None ==> scene.permission_row(
            p,
        ).meta.len() == 0,
{
}

// --- a fresh application --------------------------------------------------------

/// A fresh application is at rest in its session, with nothing typed, queued,
/// open or going out.
pub proof fn a_fresh_application_is_at_rest(
    look: Look,
    phrases: Wording,
    cfg: runtime::Config,
    session_id: Seq<char>,
    settings: Preferences,
    attached: bool,
    host: HostFacts,
)
    ensures
        ({
            let s = app::launched(look, phrases, cfg, session_id, settings, attached, host);
            &&& s.session.id == session_id
            &&& s.session.cfg == cfg
            &&& s.session.state == RunState::Idle
            &&& s.session.switch is None
            &&& s.session.kept_model == settings.model
            &&& s.kept_theme == settings.theme
            &&& s.locale == settings.language
            &&& s.transcript.locale == settings.language
            &&& s.transcript.cells.len() == 0
            &&& s.draft.input.area.text.len() == 0
            &&& s.draft.images.items.len() == 0
            &&& s.queue.waiting.len() == 0
            &&& s.queue.edit is None
            &&& s.subagents.len() == 0
            &&& s.active is None
            &&& s.panels.picker is None && s.panels.ask is None && s.panels.card is None
            &&& s.ctl.effects.len() == 0
            &&& s.ctl.attached == attached
            &&& !s.quit
            &&& s.git_branch == host.branch
        }),
{
}

/// What is remembered for the workspace comes before the kept preferences, and
/// plan mode is not remembered.
pub proof fn the_workspace_comes_before_the_preferences(
    known: Option<ModeFacts>,
    settings: Preferences,
)
    ensures
        ({
            let m = app::launch_modes(known, settings);
            &&& !m.plan
            &&& known is Some ==> m.sandbox == known->0.sandbox && m.approval == known->0.approval
            &&& known is Some && known->0.effort is Some ==> m.effort == known->0.effort
            &&& known is Some && known->0.permission is Some ==> m.permission == known->0.permission
            &&& known is None || known->0.effort is None ==> m.effort == settings.effort
            &&& known is None || known->0.permission is None ==> m.permission == settings.permission
        }),
{
}

} // verus!
