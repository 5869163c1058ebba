//! Palette packs: committing one, trying one on, and the theme dialog.

use vstd::prelude::*;
use vstd::string::*;
use crate::app::{App, Scene};
use crate::app::state::{PanelState, SessionState};
use crate::appearance;
use crate::appearance::{Look, Mode};
use crate::picker;
use crate::picker::{find_row_or_first, Choice, Picker, PickerItem, PickerKind, Row};
use crate::text;
use crate::text::{cat3, cat4, cat5, opt_same, same};
use crate::transcript::NoticeLevel;

verus! {

/// The row of a palette pack.
pub open spec fn pack_row(p: (Seq<char>, Seq<char>)) -> Row {
    Row { id: p.0, label: p.1, meta: p.0, provider: None }
}

impl Scene {
    /// The remark on the appearance as it is.
    pub open spec fn theme_remark(self) -> Seq<char> {
        self.tr("theme"@, "主题"@) + ": "@ + self.look.active + " "@ + self.look.mode.spelled()
    }

    pub open spec fn looking(self, look: Look) -> Scene {
        Scene { look, ..self }
    }

    /// A pack committed, kept and remarked on.
    #[verifier::opaque]
    pub open spec fn palette_activated(self, id: Seq<char>) -> Scene {
        if appearance::known(self.look.palettes, id) {
            let s = self.looking(self.look.committed(id)).settings_saved();
            s.told(s.theme_remark())
        } else {
            self
        }
    }

    /// What was tried on taken off.
    #[verifier::opaque]
    pub open spec fn unpreviewed(self) -> Scene {
        if self.look.preview is Some {
            self.looking(self.look.reverted()).redrawn()
        } else {
            self
        }
    }

    /// A pack tried on.
    #[verifier::opaque]
    pub open spec fn previewed(self, id: Seq<char>) -> Scene {
        if self.look.active == id {
            self.unpreviewed()
        } else if appearance::known(self.look.palettes, id) {
            self.looking(self.look.previewed(id)).redrawn()
        } else {
            self
        }
    }

    /// The pack under the theme dialog's highlight.
    pub open spec fn dialog_pack(self) -> Option<Seq<char>> {
        match self.panels.picker {
            Some(p) => if p.kind == PickerKind::Theme && p.current() is Some {
                Some(p.current()->0.id)
            } else {
                None
            },
            None => None,
        }
    }

    pub open spec fn dialog_previewed(self) -> Scene {
        match self.dialog_pack() {
            Some(id) => self.previewed(id),
            None => self,
        }
    }

    pub open spec fn menu_previewed(self) -> Scene {
        match self.highlighted_pack() {
            Some(id) => self.previewed(id),
            None => self,
        }
    }

    /// What is tried on stays on only while its row is highlighted.
    #[verifier::opaque]
    pub open spec fn preview_settled(self) -> Scene {
        if self.look.preview is None || self.dialog_pack() == self.look.preview
            || self.highlighted_pack() == self.look.preview {
            self
        } else {
            self.unpreviewed()
        }
    }

    /// Dark or light, kept and remarked on.
    pub open spec fn mode_set(self, mode: Mode) -> Scene {
        let s = self.looking(Look { mode, ..self.look }).run(
            SessionState { cfg: self.session.cfg.theme_chosen(), ..self.session },
        ).settings_saved();
        s.told(s.theme_remark())
    }

    pub open spec fn theme_dialog(self) -> Choice {
        let items = self.look.palettes.map_values(|p: (Seq<char>, Seq<char>)| pack_row(p));
        Choice {
            kind: PickerKind::Theme,
            title: self.tr(
                " theme · ↑↓ preview · enter apply · esc close · ctrl+t dark/light "@,
                " 主题 · ↑↓ 预览 · enter 应用 · esc 关闭 · ctrl+t 切换明暗 "@,
            ),
            sel: picker::row_or_first(items, self.look.active),
            items,
        }
    }

    pub open spec fn picking(self, picker: Option<Choice>) -> Scene {
        Scene { panels: PanelState { picker, ..self.panels }, ..self }
    }

    /// What the argument of `/theme` does: none opens the dialog, a mode or a
    /// pack is set, anything else is remarked on.
    #[verifier::opaque]
    pub open spec fn theme_set(self, arg: Seq<char>) -> Scene {
        if arg.len() == 0 {
            self.picking(Some(self.theme_dialog()))
        } else if arg == "dark"@ {
            self.mode_set(Mode::Dark)
        } else if arg == "light"@ {
            self.mode_set(Mode::Light)
        } else if appearance::known(self.look.palettes, arg) {
            self.palette_activated(arg)
        } else {
            let unknown = self.tr("unknown palette"@, "未知主题包"@);
            self.told(unknown + ": "@ + arg).noticed(
                NoticeLevel::Warn,
                unknown + " `"@ + arg + "`"@,
            )
        }
    }
}

impl App {
    fn theme_remark(&self) -> (r: String)
        ensures
            r@ == self@.theme_remark(),
    {
        cat5(
            self.locale.tr("theme", "主题"),
            ": ",
            self.look.active_palette_id.as_str(),
            " ",
            self.look.mode.as_str(),
        )
    }

    /// Commit a pack.
    pub fn activate_palette(&mut self, id: &str)
        ensures
            final(self)@ == old(self)@.palette_activated(id@),
    {
        reveal(Scene::palette_activated);
        if !self.look.commit(id) {
            return;
        }
        self.save_settings();
        let t = self.theme_remark();
        self.show_tip(t);
    }

    /// Take off what is tried on.
    pub fn clear_theme_preview(&mut self)
        ensures
            final(self)@ == old(self)@.unpreviewed(),
    {
        reveal(Scene::unpreviewed);
        if self.look.revert() {
            self.needs_redraw = true;
        }
    }

    /// Try a pack on.
    pub fn preview_palette(&mut self, id: &str)
        ensures
            final(self)@ == old(self)@.previewed(id@),
    {
        reveal(Scene::previewed);
        reveal(Scene::unpreviewed);
        if self.look.preview(id) {
            self.needs_redraw = true;
        }
    }

    fn dialog_pack(&self) -> (r: Option<String>)
        ensures
            text::view_opt(r) == self@.dialog_pack(),
    {
        match &self.panels.picker {
            Some(p) => if p.kind == PickerKind::Theme {
                match p.current() {
                    Some(item) => Some(item.id),
                    None => None,
                }
            } else {
                None
            },
            None => None,
        }
    }

    /// Try on the pack under the theme dialog's highlight.
    pub fn preview_picker_theme(&mut self)
        ensures
            final(self)@ == old(self)@.dialog_previewed(),
    {
        if let Some(id) = self.dialog_pack() {
            self.preview_palette(id.as_str());
        }
    }

    /// Try on the pack under the command menu's highlight.
    pub fn preview_slash_theme(&mut self)
        ensures
            final(self)@ == old(self)@.menu_previewed(),
    {
        if let Some(id) = self.slash_theme_candidate() {
            self.preview_palette(id.as_str());
        }
    }

    /// Take off what is tried on, unless its row is still highlighted.
    pub fn reconcile_theme_preview(&mut self)
        ensures
            final(self)@ == old(self)@.preview_settled(),
    {
        reveal(Scene::preview_settled);
        if self.look.theme_preview.is_none() {
            return;
        }
        let here = self.dialog_pack();
        if opt_same(&here, &self.look.theme_preview) {
            return;
        }
        let there = self.slash_theme_candidate();
        if opt_same(&there, &self.look.theme_preview) {
            return;
        }
        self.clear_theme_preview();
    }

    /// Set dark or light.
    pub fn set_mode(&mut self, mode: Mode)
        ensures
            final(self)@ == old(self)@.mode_set(mode),
    {
        self.look.mode = mode;
        self.session.cfg.flags.theme = false;
        self.save_settings();
        let t = self.theme_remark();
        self.show_tip(t);
    }

    /// Open a picker, or close the open one.
    pub fn set_picker(&mut self, picker: Option<Picker>)
        ensures
            final(self)@ == old(self)@.picking(picker::view_choice(picker)),
    {
        self.panels.picker = picker;
    }

    /// Open the theme dialog.
    pub fn open_theme_picker(&mut self)
        ensures
            final(self)@ == old(self)@.picking(Some(old(self)@.theme_dialog())),
    {
        let mut items: Vec<PickerItem> = Vec::new();
        let ghost all = self@.theme_dialog().items;
        let ghost packs = self@.look.palettes;
        let mut i: usize = 0;
        assert(picker::rows(items@) == all.take(0));
        while i < self.look.palettes.len()
            invariant
                i <= self.look.palettes.len(),
                packs == self@.look.palettes,
                all == packs.map_values(|p: (Seq<char>, Seq<char>)| pack_row(p)),
                picker::rows(items@) == all.take(i as int),
                self == old(self),
            decreases self.look.palettes.len() - i,
        {
            let p = &self.look.palettes[i];
            assert(packs[i as int] == (p.id@, p.label@));
            let ghost before = picker::rows(items@);
            let item = PickerItem {
                id: p.id.clone(),
                label: p.label.clone(),
                meta: p.id.clone(),
                provider: None,
            };
            assert(item@ == all[i as int]);
            items.push(item);
            assert(picker::rows(items@) == before.push(all[i as int]));
            assert(all.take(i + 1) == all.take(i as int).push(all[i as int]));
            i += 1;
        }
        assert(all.take(all.len() as int) == all);
        let sel = find_row_or_first(&items, self.look.active_palette_id.as_str());
        let title = String::from_str(
            self.locale.tr(
                " theme · ↑↓ preview · enter apply · esc close · ctrl+t dark/light ",
                " 主题 · ↑↓ 预览 · enter 应用 · esc 关闭 · ctrl+t 切换明暗 ",
            ),
        );
        self.panels.picker = Some(Picker { kind: PickerKind::Theme, title, sel, items });
    }

    /// What the argument of `/theme` does.
    pub fn apply_theme_arg(&mut self, arg: &str)
        ensures
            final(self)@ == old(self)@.theme_set(arg@),
    {
        reveal(Scene::theme_set);
        if arg.is_empty() {
            self.open_theme_picker();
        } else if same(arg, "dark") {
            self.set_mode(Mode::Dark);
        } else if same(arg, "light") {
            self.set_mode(Mode::Light);
        } else if self.look.has(arg) {
            self.activate_palette(arg);
        } else {
            let unknown = self.locale.tr("unknown palette", "未知主题包");
            let t = cat3(unknown, ": ", arg);
            self.show_tip(t);
            let n = cat4(unknown, " `", arg, "`");
            self.notice(NoticeLevel::Warn, n);
        }
    }
}

/// Trying packs on and taking them off again leaves the committed pack and
/// the preferences alone, and asks nothing of the host.
pub proof fn previews_save_nothing(scene: Scene, id: Seq<char>)
    ensures
        scene.previewed(id).look.active == scene.look.active,
        scene.previewed(id).ctl == scene.ctl,
        scene.previewed(id).preferences() == scene.preferences(),
        scene.unpreviewed().look.active == scene.look.active,
        scene.unpreviewed().ctl == scene.ctl,
        scene.preview_settled().look.active == scene.look.active,
        scene.preview_settled().ctl == scene.ctl,
{
    reveal(Scene::preview_settled);
    reveal(Scene::previewed);
    reveal(Scene::unpreviewed);
}

/// After an event has settled, what is tried on is under a highlight.
pub proof fn settled_preview_is_highlighted(scene: Scene)
    ensures
        scene.preview_settled().look.preview is Some ==> scene.preview_settled() == scene && (
        scene.dialog_pack() == scene.look.preview || scene.highlighted_pack()
            == scene.look.preview),
{
    reveal(Scene::preview_settled);
    reveal(Scene::unpreviewed);
}

} // verus!
