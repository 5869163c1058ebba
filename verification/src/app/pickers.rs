//! Models, efforts, permissions and stored sessions: the pickers, and what a
//! pick does.

use vstd::prelude::*;
use vstd::string::*;
use crate::app::{App, Scene};
use crate::app::menu;
use crate::app::menu::stock_models_with;
use crate::app::state::{SessionState, SessionSwitch, Switch};
use crate::bus::{CatalogModel, Cmd, Order, SessionListItem};
use crate::commands;
use crate::commands::{permission_desc, permission_label, permission_presets};
use crate::locale;
use crate::picker;
use crate::picker::{
    find_row_or_first, session_picker_row, unique_session_list_match, Choice, Picker, PickerItem,
    PickerKind, Row,
};
use crate::runtime::Config;
use crate::text;
use crate::text::{cat, cat3, cat4, copy_opt, number, opt_is, same};
use crate::transcript::NoticeLevel;

verus! {

/// The row of a model of the catalog.
pub open spec fn model_row(m: CatalogModel) -> Row {
    Row {
        id: m.id@,
        label: m.id@,
        meta: m.provider@ + " · "@ + m.name@ + (if m.vision {
            " · vision"@
        } else {
            ""@
        }),
        provider: Some(m.provider@),
    }
}

/// The first row from `i` on of a model and its provider.
pub open spec fn model_at(
    items: Seq<Row>,
    model: Seq<char>,
    provider: Seq<char>,
    i: int,
) -> Option<int>
    decreases items.len() - i,
{
    if 0 <= i < items.len() {
        if items[i].id == model && items[i].provider == Some(provider) {
            Some(i)
        } else {
            model_at(items, model, provider, i + 1)
        }
    } else {
        None
    }
}

/// The first `n` sessions, the one of an id left out.
pub open spec fn sessions_but(sessions: Seq<SessionListItem>, id: Seq<char>, n: int) -> Seq<
    SessionListItem,
>
    decreases n,
{
    if n <= 0 {
        Seq::empty()
    } else if sessions[n - 1].id@ == id {
        sessions_but(sessions, id, n - 1)
    } else {
        sessions_but(sessions, id, n - 1).push(sessions[n - 1])
    }
}

pub open spec fn listed_row(s: SessionListItem) -> Row {
    picker::session_row(s.id@, text::view_opt(s.title), text::view_opt(s.updated_at))
}

/// The preset after the given one; after one that is not stock, the second.
pub open spec fn preset_after(current: Seq<char>) -> Seq<char> {
    if current == "workspace-write"@ {
        "danger-full-access"@
    } else if current == "danger-full-access"@ {
        "read-only"@
    } else {
        "workspace-write"@
    }
}

impl SessionState {
    /// The permission preset in force: what the session reported, or full
    /// access before it has.
    pub open spec fn permission(self) -> Seq<char> {
        match self.modes.permission {
            Some(p) => p,
            None => "danger-full-access"@,
        }
    }
}

impl Scene {
    /// The picker of models before the catalog has come.
    pub open spec fn model_list(self) -> Choice {
        let items = menu::models_with(self.session.cfg.model).map_values(
            |id: Seq<char>| picker::plain_row(id),
        );
        Choice {
            kind: PickerKind::Model,
            title: self.tr(
                " model · enter select · esc close "@,
                " 模型 · enter 选择 · esc 关闭 "@,
            ),
            sel: picker::row_or_first(items, self.session.cfg.model),
            items,
        }
    }

    #[verifier::opaque]
    pub open spec fn models_opened(self) -> Scene {
        self.sent(Order::FetchCatalog).picking(Some(self.model_list()))
    }

    /// The open picker of models filled from the catalog, the current model
    /// highlighted.
    #[verifier::opaque]
    pub open spec fn models_listed(self, models: Seq<CatalogModel>) -> Scene {
        let s = if models.len() > 0 {
            self.run(SessionState { models, ..self.session })
        } else {
            self
        };
        match s.panels.picker {
            Some(p) => if p.kind == PickerKind::Model && models.len() > 0 {
                let items = models.map_values(|m: CatalogModel| model_row(m));
                s.picking(
                    Some(
                        Choice {
                            items,
                            sel: match model_at(
                                items,
                                s.session.cfg.model,
                                s.session.cfg.provider,
                                0,
                            ) {
                                Some(i) => i as usize,
                                None => 0,
                            },
                            ..p
                        },
                    ),
                )
            } else {
                s
            },
            None => s,
        }
    }

    pub open spec fn effort_row(self, e: String, default: Option<String>) -> Row {
        Row {
            meta: if text::view_opt(default) == Some(e@) {
                self.tr("default"@, "默认"@)
            } else {
                Seq::empty()
            },
            ..picker::plain_row(e@)
        }
    }

    pub open spec fn effort_rows(self, efforts: Seq<String>, default: Option<String>) -> Seq<Row> {
        if efforts.len() == 0 {
            seq![
                picker::plain_row("off"@),
                picker::plain_row("high"@),
                picker::plain_row("max"@),
            ]
        } else {
            efforts.map_values(|e: String| self.effort_row(e, default))
        }
    }

    #[verifier::opaque]
    pub open spec fn efforts_opened(self, efforts: Seq<String>, default: Option<String>) -> Scene {
        self.picking(
            Some(
                Choice {
                    kind: PickerKind::Effort,
                    title: self.tr(
                        " reasoning effort · enter select · esc close "@,
                        " 推理强度 · enter 选择 · esc 关闭 "@,
                    ),
                    sel: 0,
                    items: self.effort_rows(efforts, default),
                },
            ),
        )
    }

    /// A model picked from the list: it is asked for where it is another one,
    /// and its efforts are asked for.
    #[verifier::opaque]
    pub open spec fn model_picked(self, row: Row) -> Scene {
        let cfg = self.session.cfg.model_chosen();
        let moved = row.provider is Some && row.provider->0 != cfg.provider;
        let s = if row.id != cfg.model || moved {
            self.run(
                SessionState {
                    cfg: Config {
                        model: row.id,
                        provider: if row.provider is Some {
                            row.provider->0
                        } else {
                            cfg.provider
                        },
                        ..cfg
                    },
                    selected_model: Some(row.id),
                    ..self.session
                },
            ).sent(
                Order::SelectModel {
                    session_id: self.session.id,
                    provider: row.provider,
                    model: Some(row.id),
                    effort: None,
                },
            )
        } else {
            self.run(SessionState { cfg, ..self.session })
        };
        s.sent(
            Order::FetchEfforts {
                provider: s.session.cfg.provider,
                model: s.session.cfg.model,
            },
        )
    }

    /// A model asked for by name.
    #[verifier::opaque]
    pub open spec fn model_asked(self, model: Seq<char>) -> Scene {
        if model == self.session.cfg.model {
            self.run(SessionState { cfg: self.session.cfg.model_chosen(), ..self.session })
        } else {
            self.run(SessionState { selected_model: Some(model), ..self.session }).sent(
                Order::SelectModel {
                    session_id: self.session.id,
                    provider: None,
                    model: Some(model),
                    effort: None,
                },
            )
        }
    }

    /// A permission preset asked for. The session's report confirms it; until
    /// there is a session a remark does.
    #[verifier::opaque]
    pub open spec fn permission_asked(self, preset: Seq<char>) -> Scene {
        if self.session.modes.permission == Some(preset) {
            self.told(self.tr("permission already "@, "权限已经是 "@) + preset)
        } else {
            let s = self.sent(Order::SetPermission { session_id: self.session.id, preset });
            if self.session.bound {
                s
            } else {
                s.told(s.tr("permission → "@, "权限 → "@) + preset + " …"@)
            }
        }
    }

    pub open spec fn permission_row(self, p: (Seq<char>, Seq<char>)) -> Row {
        let reported = self.session.modes.permission;
        let mark = if reported == Some(p.0) {
            " · "@ + self.tr("current"@, "当前"@)
        } else if reported is None && p.0 == self.session.permission() {
            " · "@ + self.tr("default"@, "默认"@)
        } else {
            Seq::empty()
        };
        Row {
            id: p.0,
            label: commands::label_of(p.0),
            meta: (match commands::meaning(self.locale, p.0) {
                Some(d) => d,
                None => Seq::empty(),
            }) + mark,
            provider: None,
        }
    }

    #[verifier::opaque]
    pub open spec fn permissions_opened(self) -> Scene {
        let items = commands::stock_permissions().map_values(
            |p: (Seq<char>, Seq<char>)| self.permission_row(p),
        );
        self.picking(
            Some(
                Choice {
                    kind: PickerKind::Permission,
                    title: self.tr(
                        " permission · enter apply · esc close "@,
                        " 权限 · enter 应用 · esc 关闭 "@,
                    ),
                    sel: picker::row_or_first(items, self.session.permission()),
                    items,
                },
            ),
        )
    }

    /// A stored session asked for. The view and the queue stay the old
    /// session's until the switch settles; only one switch is under way.
    #[verifier::opaque]
    pub open spec fn session_asked(self, id: Seq<char>) -> Scene {
        if self.session.switch is Some || id == self.session.id {
            self
        } else {
            self.run(SessionState { switch: Some(Switch::Resume(id)), ..self.session }).sent(
                Order::LoadSession { session_id: id },
            ).told(
                self.tr("session/load "@, "正在加载会话 "@) + id + " …"@ + (if self.busy() {
                    self.tr(" (after this turn)"@, "（本轮结束后）"@)
                } else {
                    ""@
                }),
            )
        }
    }

    #[verifier::opaque]
    pub open spec fn sessions_shown(self, sessions: Seq<SessionListItem>) -> Scene {
        if sessions.len() == 0 {
            self.noticed(
                NoticeLevel::Info,
                self.tr(
                    "no durable sessions for this workspace yet — finish a turn and /resume finds it"@,
                    "这个工作区还没有持久会话 —— 先跑完一轮，/resume 就能看到"@,
                ),
            )
        } else {
            self.picking(
                Some(
                    Choice {
                        kind: PickerKind::Session,
                        title: self.tr(" resume session · "@, " 恢复会话 · "@) + text::decimal(
                            sessions.len(),
                        ) + self.tr(
                            " sessions · enter select · esc close "@,
                            " 个会话 · enter 选择 · esc 关闭 "@,
                        ),
                        sel: 0,
                        items: sessions.map_values(|s: SessionListItem| listed_row(s)),
                    },
                ),
            )
        }
    }

    /// The stored sessions have been listed: the one a prefix means is asked
    /// for, otherwise they are shown.
    #[verifier::opaque]
    pub open spec fn sessions_listed(
        self,
        all: Seq<SessionListItem>,
        prefix: Option<String>,
    ) -> Scene {
        let sessions = sessions_but(all, self.session.id, all.len() as int);
        if prefix is Some && prefix->0@.len() > 0 {
            match picker::meant(self.locale, sessions, prefix->0@) {
                Ok(id) => self.session_asked(id),
                Err(why) => {
                    let s = self.noticed(NoticeLevel::Warn, why);
                    if sessions.len() == 0 {
                        s
                    } else {
                        s.sessions_shown(sessions)
                    }
                },
            }
        } else {
            self.sessions_shown(sessions)
        }
    }
}

fn copy_sessions_but(all: &Vec<SessionListItem>, id: &str) -> (r: Vec<SessionListItem>)
    ensures
        r@ == sessions_but(all@, id@, all@.len() as int),
{
    let mut out: Vec<SessionListItem> = Vec::new();
    let mut i: usize = 0;
    while i < all.len()
        invariant
            i <= all.len(),
            out@ == sessions_but(all@, id@, i as int),
        decreases all.len() - i,
    {
        if !same(all[i].id.as_str(), id) {
            out.push(
                SessionListItem {
                    id: all[i].id.clone(),
                    title: copy_opt(&all[i].title),
                    updated_at: copy_opt(&all[i].updated_at),
                },
            );
        }
        i += 1;
    }
    out
}

fn session_items(sessions: &Vec<SessionListItem>) -> (r: Vec<PickerItem>)
    ensures
        picker::rows(r@) == sessions@.map_values(|s: SessionListItem| listed_row(s)),
{
    let mut items: Vec<PickerItem> = Vec::new();
    let ghost all = sessions@.map_values(|s: SessionListItem| listed_row(s));
    let mut i: usize = 0;
    assert(picker::rows(items@) == all.take(0));
    while i < sessions.len()
        invariant
            i <= sessions.len(),
            all == sessions@.map_values(|s: SessionListItem| listed_row(s)),
            picker::rows(items@) == all.take(i as int),
        decreases sessions.len() - i,
    {
        let ghost before = picker::rows(items@);
        let item = session_picker_row(&sessions[i]);
        assert(item@ == all[i as int]);
        items.push(item);
        assert(picker::rows(items@) == before.push(all[i as int]));
        assert(all.take(i + 1) == all.take(i as int).push(all[i as int]));
        i += 1;
    }
    assert(all.take(all.len() as int) == all);
    items
}

fn model_items(models: &Vec<CatalogModel>) -> (r: Vec<PickerItem>)
    ensures
        picker::rows(r@) == models@.map_values(|m: CatalogModel| model_row(m)),
{
    let mut items: Vec<PickerItem> = Vec::new();
    let ghost all = models@.map_values(|m: CatalogModel| model_row(m));
    let mut i: usize = 0;
    assert(picker::rows(items@) == all.take(0));
    while i < models.len()
        invariant
            i <= models.len(),
            all == models@.map_values(|m: CatalogModel| model_row(m)),
            picker::rows(items@) == all.take(i as int),
        decreases models.len() - i,
    {
        let m = &models[i];
        let ghost before = picker::rows(items@);
        let vision = if m.vision {
            " · vision"
        } else {
            ""
        };
        let item = PickerItem {
            id: m.id.clone(),
            label: m.id.clone(),
            meta: cat4(m.provider.as_str(), " · ", m.name.as_str(), vision),
            provider: Some(m.provider.clone()),
        };
        assert(item@ == all[i as int]);
        items.push(item);
        assert(picker::rows(items@) == before.push(all[i as int]));
        assert(all.take(i + 1) == all.take(i as int).push(all[i as int]));
        i += 1;
    }
    assert(all.take(all.len() as int) == all);
    items
}

fn find_model(items: &Vec<PickerItem>, model: &str, provider: &str) -> (r: usize)
    ensures
        r == match model_at(picker::rows(items@), model@, provider@, 0) {
            Some(i) => i as usize,
            None => 0,
        },
{
    let ghost all = picker::rows(items@);
    let mut i: usize = 0;
    while i < items.len()
        invariant
            i <= items.len(),
            all == picker::rows(items@),
            model_at(all, model@, provider@, 0) == model_at(all, model@, provider@, i as int),
        decreases items.len() - i,
    {
        assert(all[i as int] == items@[i as int]@);
        if same(items[i].id.as_str(), model) && opt_is(&items[i].provider, provider) {
            return i;
        }
        i += 1;
    }
    0
}

pub fn copy_models(models: &Vec<CatalogModel>) -> (r: Vec<CatalogModel>)
    ensures
        r@ == models@,
{
    let mut out: Vec<CatalogModel> = Vec::new();
    let mut i: usize = 0;
    while i < models.len()
        invariant
            i <= models.len(),
            out@ == models@.take(i as int),
        decreases models.len() - i,
    {
        let m = &models[i];
        out.push(
            CatalogModel {
                provider: m.provider.clone(),
                id: m.id.clone(),
                name: m.name.clone(),
                vision: m.vision,
            },
        );
        i += 1;
    }
    assert(models@.take(models@.len() as int) == models@);
    out
}

impl App {
    fn model_picker(&self) -> (r: Picker)
        ensures
            r@ == self@.model_list(),
    {
        let ids = stock_models_with(self.session.cfg.model.as_str());
        let ghost names = menu::models_with(self@.session.cfg.model);
        let ghost all = names.map_values(|id: Seq<char>| picker::plain_row(id));
        let mut items: Vec<PickerItem> = Vec::new();
        let mut i: usize = 0;
        assert(picker::rows(items@) == all.take(0));
        while i < ids.len()
            invariant
                i <= ids.len(),
                names == text::views(ids@),
                all == names.map_values(|id: Seq<char>| picker::plain_row(id)),
                picker::rows(items@) == all.take(i as int),
            decreases ids.len() - i,
        {
            let ghost before = picker::rows(items@);
            assert(names[i as int] == ids@[i as int]@);
            let item = PickerItem::plain(ids[i].as_str());
            items.push(item);
            assert(picker::rows(items@) == before.push(all[i as int]));
            assert(all.take(i + 1) == all.take(i as int).push(all[i as int]));
            i += 1;
        }
        assert(all.take(all.len() as int) == all);
        let sel = find_row_or_first(&items, self.session.cfg.model.as_str());
        let title = String::from_str(
            self.locale.tr(
                " model · enter select · esc close ",
                " 模型 · enter 选择 · esc 关闭 ",
            ),
        );
        Picker { kind: PickerKind::Model, title, sel, items }
    }

    /// Open the picker of models, and ask for the catalog.
    pub fn open_model_picker(&mut self)
        ensures
            final(self)@ == old(self)@.models_opened(),
    {
        reveal(Scene::models_opened);
        self.ctl.send(Cmd::FetchCatalog);
        let p = self.model_picker();
        self.set_picker(Some(p));
    }

    fn refill_picker(&mut self, items: Vec<PickerItem>, sel: usize)
        requires
            old(self)@.panels.picker is Some,
        ensures
            final(self)@ == old(self)@.picking(
                Some(
                    Choice { items: picker::rows(items@), sel, ..old(self)@.panels.picker->0 },
                ),
            ),
    {
        match &mut self.panels.picker {
            Some(p) => {
                p.items = items;
                p.sel = sel;
            },
            None => {},
        }
    }

    /// The catalog has come.
    pub fn list_models(&mut self, models: Vec<CatalogModel>)
        ensures
            final(self)@ == old(self)@.models_listed(models@),
    {
        reveal(Scene::models_listed);
        if models.len() == 0 {
            return;
        }
        self.session.last_models = copy_models(&models);
        let open = match &self.panels.picker {
            Some(p) => p.kind == PickerKind::Model,
            None => false,
        };
        if open {
            let items = model_items(&models);
            let sel = find_model(
                &items,
                self.session.cfg.model.as_str(),
                self.session.cfg.provider.as_str(),
            );
            self.refill_picker(items, sel);
        }
    }

    fn effort_items(&self, efforts: &Vec<String>, default: &Option<String>) -> (r: Vec<PickerItem>)
        ensures
            picker::rows(r@) == self@.effort_rows(efforts@, *default),
    {
        let mut items: Vec<PickerItem> = Vec::new();
        if efforts.len() == 0 {
            items.push(PickerItem::plain("off"));
            items.push(PickerItem::plain("high"));
            items.push(PickerItem::plain("max"));
            assert(picker::rows(items@) == self@.effort_rows(efforts@, *default));
            return items;
        }
        let ghost all = self@.effort_rows(efforts@, *default);
        let mut i: usize = 0;
        assert(picker::rows(items@) == all.take(0));
        while i < efforts.len()
            invariant
                i <= efforts.len(),
                efforts.len() > 0,
                all == self@.effort_rows(efforts@, *default),
                picker::rows(items@) == all.take(i as int),
            decreases efforts.len() - i,
        {
            let ghost before = picker::rows(items@);
            let mut item = PickerItem::plain(efforts[i].as_str());
            if opt_is(default, efforts[i].as_str()) {
                item.meta = String::from_str(self.locale.tr("default", "默认"));
            }
            assert(item@ == all[i as int]);
            items.push(item);
            assert(picker::rows(items@) == before.push(all[i as int]));
            assert(all.take(i + 1) == all.take(i as int).push(all[i as int]));
            i += 1;
        }
        assert(all.take(all.len() as int) == all);
        items
    }

    /// Open the picker of efforts.
    pub fn open_effort_picker(&mut self, efforts: &Vec<String>, default: &Option<String>)
        ensures
            final(self)@ == old(self)@.efforts_opened(efforts@, *default),
    {
        reveal(Scene::efforts_opened);
        let items = self.effort_items(efforts, default);
        let title = String::from_str(
            self.locale.tr(
                " reasoning effort · enter select · esc close ",
                " 推理强度 · enter 选择 · esc 关闭 ",
            ),
        );
        self.set_picker(Some(Picker { kind: PickerKind::Effort, title, sel: 0, items }));
    }

    /// A model was picked from the list.
    pub fn select_model(&mut self, item: PickerItem)
        ensures
            final(self)@ == old(self)@.model_picked(item@),
    {
        reveal(Scene::model_picked);
        let moved = match &item.provider {
            Some(p) => !same(p.as_str(), self.session.cfg.provider.as_str()),
            None => false,
        };
        self.session.cfg.flags.model = false;
        if moved || !same(item.id.as_str(), self.session.cfg.model.as_str()) {
            self.session.cfg.model = item.id.clone();
            self.session.selected_model = Some(item.id.clone());
            if let Some(p) = &item.provider {
                self.session.cfg.provider = p.clone();
            }
            let session_id = self.session.session_id.clone();
            let provider = copy_opt(&item.provider);
            let model = Some(item.id);
            self.ctl.send(Cmd::SelectModel { session_id, provider, model, effort: None });
        }
        let provider = self.session.cfg.provider.clone();
        let model = self.session.cfg.model.clone();
        self.ctl.send(Cmd::FetchEfforts { provider, model });
    }

    /// Ask for a model by name.
    pub fn set_model(&mut self, model: String)
        ensures
            final(self)@ == old(self)@.model_asked(model@),
    {
        reveal(Scene::model_asked);
        if same(model.as_str(), self.session.cfg.model.as_str()) {
            self.session.cfg.flags.model = false;
            return;
        }
        self.session.selected_model = Some(model.clone());
        let session_id = self.session.session_id.clone();
        self.ctl.send(
            Cmd::SelectModel { session_id, provider: None, model: Some(model), effort: None },
        );
    }

    /// The permission preset in force.
    pub fn current_permission(&self) -> (r: String)
        ensures
            r@ == self@.session.permission(),
    {
        match &self.session.modes.permission {
            Some(p) => p.clone(),
            None => String::from_str("danger-full-access"),
        }
    }

    /// Ask for a permission preset.
    pub fn set_permission(&mut self, preset: String)
        ensures
            final(self)@ == old(self)@.permission_asked(preset@),
    {
        reveal(Scene::permission_asked);
        if opt_is(&self.session.modes.permission, preset.as_str()) {
            let t = cat(self.locale.tr("permission already ", "权限已经是 "), preset.as_str());
            self.show_tip(t);
            return;
        }
        let session_id = self.session.session_id.clone();
        self.ctl.send(Cmd::SetPermission { session_id, preset: preset.clone() });
        if !self.session.session_bound {
            let t = cat3(self.locale.tr("permission → ", "权限 → "), preset.as_str(), " …");
            self.show_tip(t);
        }
    }

    /// Ask for the preset after the one in force.
    pub fn cycle_permission(&mut self)
        ensures
            final(self)@ == old(self)@.permission_asked(
                preset_after(old(self)@.session.permission()),
            ),
    {
        let current = self.current_permission();
        let next = if same(current.as_str(), "workspace-write") {
            "danger-full-access"
        } else if same(current.as_str(), "danger-full-access") {
            "read-only"
        } else {
            "workspace-write"
        };
        self.set_permission(String::from_str(next));
    }

    fn permission_items(&self) -> (r: Vec<PickerItem>)
        ensures
            picker::rows(r@) == commands::stock_permissions().map_values(
                |p: (Seq<char>, Seq<char>)| self@.permission_row(p),
            ),
    {
        let presets = permission_presets();
        let ghost stock = commands::stock_permissions();
        let ghost all = stock.map_values(|p: (Seq<char>, Seq<char>)| self@.permission_row(p));
        let current = self.current_permission();
        let mut items: Vec<PickerItem> = Vec::new();
        let mut i: usize = 0;
        assert(picker::rows(items@) == all.take(0));
        while i < presets.len()
            invariant
                i <= presets.len(),
                stock == commands::view_pairs(presets@),
                all == stock.map_values(
                    |p: (Seq<char>, Seq<char>)| self@.permission_row(p),
                ),
                current@ == self@.session.permission(),
                picker::rows(items@) == all.take(i as int),
            decreases presets.len() - i,
        {
            assert(stock[i as int] == (presets@[i as int].0@, presets@[i as int].1@));
            let id = presets[i].0;
            let mark = if opt_is(&self.session.modes.permission, id) {
                cat(" · ", self.locale.tr("current", "当前"))
            } else if self.session.modes.permission.is_none() && same(id, current.as_str()) {
                cat(" · ", self.locale.tr("default", "默认"))
            } else {
                String::new()
            };
            let desc = match permission_desc(self.locale, id) {
                Some(d) => String::from_str(d),
                None => String::new(),
            };
            let item = PickerItem {
                id: String::from_str(id),
                label: permission_label(id),
                meta: cat(desc.as_str(), mark.as_str()),
                provider: None,
            };
            let ghost before = picker::rows(items@);
            assert(item@ == all[i as int]);
            items.push(item);
            assert(picker::rows(items@) == before.push(all[i as int]));
            assert(all.take(i + 1) == all.take(i as int).push(all[i as int]));
            i += 1;
        }
        assert(all.take(all.len() as int) == all);
        items
    }

    /// Open the picker of permission presets.
    pub fn open_permission_picker(&mut self)
        ensures
            final(self)@ == old(self)@.permissions_opened(),
    {
        reveal(Scene::permissions_opened);
        let items = self.permission_items();
        let current = self.current_permission();
        let sel = find_row_or_first(&items, current.as_str());
        let title = String::from_str(
            self.locale.tr(
                " permission · enter apply · esc close ",
                " 权限 · enter 应用 · esc 关闭 ",
            ),
        );
        self.set_picker(Some(Picker { kind: PickerKind::Permission, title, sel, items }));
    }

    /// Ask for a stored session.
    pub fn load_acp_session(&mut self, id: &str)
        ensures
            final(self)@ == old(self)@.session_asked(id@),
    {
        reveal(Scene::session_asked);
        if self.session.session_switch.is_some() || same(id, self.session.session_id.as_str()) {
            return;
        }
        let after_turn = self.turn_busy();
        self.session.session_switch = Some(SessionSwitch::Resume(String::from_str(id)));
        self.ctl.send(Cmd::LoadSession { session_id: String::from_str(id) });
        let suffix = if after_turn {
            self.locale.tr(" (after this turn)", "（本轮结束后）")
        } else {
            ""
        };
        let t = cat4(self.locale.tr("session/load ", "正在加载会话 "), id, " …", suffix);
        self.show_tip(t);
    }

    fn show_sessions(&mut self, sessions: &Vec<SessionListItem>)
        ensures
            final(self)@ == old(self)@.sessions_shown(sessions@),
    {
        reveal(Scene::sessions_shown);
        if sessions.len() == 0 {
            let t = String::from_str(
                self.locale.tr(
                    "no durable sessions for this workspace yet — finish a turn and /resume finds it",
                    "这个工作区还没有持久会话 —— 先跑完一轮，/resume 就能看到",
                ),
            );
            self.notice(NoticeLevel::Info, t);
            return;
        }
        let items = session_items(sessions);
        let n = number(sessions.len() as u64);
        let title = cat3(
            self.locale.tr(" resume session · ", " 恢复会话 · "),
            n.as_str(),
            self.locale.tr(
                " sessions · enter select · esc close ",
                " 个会话 · enter 选择 · esc 关闭 ",
            ),
        );
        self.set_picker(Some(Picker { kind: PickerKind::Session, title, sel: 0, items }));
    }

    /// The stored sessions have been listed.
    pub fn on_acp_session_list(&mut self, all: &Vec<SessionListItem>, prefix: &Option<String>)
        ensures
            final(self)@ == old(self)@.sessions_listed(all@, *prefix),
    {
        reveal(Scene::sessions_listed);
        let sessions = copy_sessions_but(all, self.session.session_id.as_str());
        if let Some(p) = prefix {
            if !p.as_str().is_empty() {
                match unique_session_list_match(self.locale, &sessions, p.as_str()) {
                    Ok(id) => {
                        self.load_acp_session(id.as_str());
                        return;
                    },
                    Err(why) => {
                        self.notice(NoticeLevel::Warn, why);
                        if sessions.len() == 0 {
                            return;
                        }
                    },
                }
            }
        }
        self.show_sessions(&sessions);
    }
}

} // verus!
