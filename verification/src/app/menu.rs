//! The command menu over the draft: what it offers, and what the highlighted
//! row stands for.

use vstd::prelude::*;
use vstd::string::*;
use crate::app::{App, Scene};
use crate::appearance;
use crate::bus::{CatalogModel, SkillInfo};
use crate::commands;
use crate::commands::{model_presets, permission_desc, permission_presets, slash_commands};
use crate::locale;
use crate::picker;
use crate::picker::{SlashEntry, Suggestion};
use crate::text;
use crate::text::{cat3, cat4, same, split_once, start_trimmed, starts_with, starts_with_char, tail};

verus! {

/// An argument a command takes: its value, its label and what it means.
pub struct Opt {
    pub value: Seq<char>,
    pub label: Seq<char>,
    pub desc: Seq<char>,
}

pub open spec fn opt_of(o: (String, String, String)) -> Opt {
    Opt { value: o.0@, label: o.1@, desc: o.2@ }
}

pub open spec fn opts(v: Seq<(String, String, String)>) -> Seq<Opt> {
    v.map_values(|o: (String, String, String)| opt_of(o))
}

/// An argument that is its own label.
pub open spec fn plain(value: Seq<char>, desc: Seq<char>) -> Opt {
    Opt { value, label: value, desc }
}

/// The models offered before a catalog is known: the configured one first,
/// where it is not a stock model.
pub open spec fn models_with(model: Seq<char>) -> Seq<Seq<char>> {
    if commands::stock_models().contains(model) {
        commands::stock_models()
    } else {
        seq![model] + commands::stock_models()
    }
}

pub open spec fn skill_label(s: SkillInfo) -> Seq<char> {
    match s.input_hint {
        Some(hint) => s.name@ + " "@ + hint@,
        None => s.name@,
    }
}

impl Scene {
    /// The arguments that can be offered for a command.
    pub open spec fn options(self, name: Seq<char>) -> Seq<Opt> {
        if name == "model"@ {
            if self.session.models.len() > 0 {
                self.session.models.map_values(
                    |m: CatalogModel| Opt { value: m.id@, label: m.name@, desc: m.provider@ },
                )
            } else {
                models_with(self.session.cfg.model).map_values(
                    |id: Seq<char>| plain(id, Seq::empty()),
                )
            }
        } else if name == "effort"@ {
            if self.session.efforts.len() > 0 {
                self.session.efforts.map_values(|e: String| plain(e@, Seq::empty()))
            } else {
                seq![
                    plain("off"@, self.tr("disable extended reasoning"@, "关闭扩展推理"@)),
                    plain("high"@, self.tr("high reasoning effort"@, "高推理强度"@)),
                    plain("max"@, self.tr("maximum reasoning effort"@, "最高推理强度"@)),
                ]
            }
        } else if name == "permission"@ {
            commands::stock_permissions().map_values(
                |p: (Seq<char>, Seq<char>)|
                    plain(
                        p.0,
                        match commands::meaning(self.locale, p.0) {
                            Some(d) => d,
                            None => Seq::empty(),
                        },
                    ),
            )
        } else if name == "plan"@ {
            seq![
                plain("on"@, self.tr("enable plan mode"@, "打开计划模式"@)),
                plain("off"@, self.tr("disable plan mode"@, "关闭计划模式"@)),
            ]
        } else if name == "theme"@ {
            seq![
                plain("dark"@, self.tr("dark appearance"@, "深色外观"@)),
                plain("light"@, self.tr("light appearance"@, "浅色外观"@)),
            ] + self.look.palettes.map_values(
                |p: (Seq<char>, Seq<char>)|
                    Opt { value: p.0, label: p.1, desc: self.tr("palette pack"@, "主题包"@) },
            )
        } else if name == "lang"@ {
            seq![plain("zh"@, "中文"@), plain("en"@, "English"@)]
        } else if name == "skill"@ {
            self.session.skills.map_values(
                |s: SkillInfo|
                    Opt { value: s.name@, label: skill_label(s), desc: s.description@ },
            )
        } else {
            Seq::empty()
        }
    }

    /// The rows for the first `n` arguments that begin as the typed one does.
    pub open spec fn argument_rows(self, name: Seq<char>, prefix: Seq<char>, n: int) -> Seq<
        Suggestion,
    >
        decreases n,
    {
        if n <= 0 {
            Seq::empty()
        } else {
            let o = self.options(name)[n - 1];
            if prefix.is_prefix_of(o.value) {
                self.argument_rows(name, prefix, n - 1).push(
                    Suggestion {
                        name,
                        usage: o.label,
                        desc: o.desc,
                        completion: Some("/"@ + name + " "@ + o.value),
                    },
                )
            } else {
                self.argument_rows(name, prefix, n - 1)
            }
        }
    }

    pub open spec fn arguments(self, name: Seq<char>, arg: Seq<char>) -> Seq<Suggestion> {
        let prefix = text::trim_start(arg);
        if exists|i: int| 0 <= i < prefix.len() && text::space(#[trigger] prefix[i]) {
            Seq::empty()
        } else {
            self.argument_rows(name, prefix, self.options(name).len() as int)
        }
    }

    /// The row of a command.
    pub open spec fn command_row(self, i: int) -> Suggestion {
        let c = commands::commands()[i];
        Suggestion {
            name: c.0,
            usage: c.1,
            desc: self.phrases.desc(self.locale, c.0, c.2),
            completion: None,
        }
    }

    /// The rows of those of the first `n` commands that begin with a prefix,
    /// the one that is the prefix itself, or the others.
    pub open spec fn command_rows(self, prefix: Seq<char>, exact: bool, n: int) -> Seq<Suggestion>
        decreases n,
    {
        if n <= 0 {
            Seq::empty()
        } else {
            let name = commands::commands()[n - 1].0;
            if prefix.is_prefix_of(name) && (name == prefix) == exact {
                self.command_rows(prefix, exact, n - 1).push(self.command_row(n - 1))
            } else {
                self.command_rows(prefix, exact, n - 1)
            }
        }
    }

    /// The rows of the menu: the commands that begin as the draft does, an
    /// exact name first; after a space, the command's arguments.
    #[verifier::opaque]
    pub open spec fn menu(self) -> Seq<Suggestion> {
        let buf = self.draft.input.area.text;
        let n = commands::commands().len() as int;
        if !text::leads(buf, '/') {
            Seq::empty()
        } else {
            match text::cut_at(buf.skip(1), ' ') {
                Some((name, arg)) => self.arguments(name, arg),
                None => self.command_rows(buf.skip(1), true, n) + self.command_rows(
                    buf.skip(1),
                    false,
                    n,
                ),
            }
        }
    }

    /// The row under the highlight; past the last row it is the last.
    pub open spec fn highlighted(self) -> Option<Suggestion> {
        let rows = self.menu();
        if rows.len() == 0 {
            None
        } else if self.draft.slash_sel < rows.len() {
            Some(rows[self.draft.slash_sel as int])
        } else {
            Some(rows.last())
        }
    }

    /// The palette pack that the highlighted row names.
    pub open spec fn highlighted_pack(self) -> Option<Seq<char>> {
        match self.highlighted() {
            Some(row) => match row.completion {
                Some(line) => if row.name == "theme"@ && "/theme "@.is_prefix_of(line)
                    && appearance::known(self.look.palettes, line.skip("/theme "@.len() as int)) {
                    Some(line.skip("/theme "@.len() as int))
                } else {
                    None
                },
                None => None,
            },
            None => None,
        }
    }

    /// Whether a row names a skill that takes an argument.
    pub open spec fn awaits_argument(self, row: Suggestion) -> bool {
        match row.completion {
            Some(line) => exists|i: int|
                0 <= i < self.session.skills.len() && (#[trigger] self.session.skills[i]).name@
                    == text::pieces(line, ' ').last() && self.session.skills[i].input_hint is Some,
            None => false,
        }
    }
}

fn option(value: &str, desc: &str) -> (r: (String, String, String))
    ensures
        opt_of(r) == plain(value@, desc@),
{
    (String::from_str(value), String::from_str(value), String::from_str(desc))
}

fn has_space(s: &str) -> (r: bool)
    ensures
        r == exists|i: int| 0 <= i < s@.len() && text::space(#[trigger] s@[i]),
{
    let v = text::chars(s);
    let mut i: usize = 0;
    while i < v.len()
        invariant
            i <= v.len(),
            v@ == s@,
            forall|k: int| 0 <= k < i ==> !text::space(#[trigger] s@[k]),
        decreases v.len() - i,
    {
        if text::is_space(v[i]) {
            assert(text::space(s@[i as int]));
            return true;
        }
        i += 1;
    }
    false
}

/// The stock models, the configured one before them where it is none of them.
pub fn stock_models_with(model: &str) -> (r: Vec<String>)
    ensures
        text::views(r@) == models_with(model@),
{
    let all = model_presets();
    let ghost stock = commands::stock_models();
    let mut out: Vec<String> = Vec::new();
    let mut i: usize = 0;
    let mut found = false;
    assert(text::views(out@) == stock.take(0));
    while i < all.len()
        invariant
            i <= all.len(),
            stock == commands::stock_models(),
            all@.map_values(|s: &'static str| s@) == stock,
            text::views(out@) == stock.take(i as int),
            found == stock.take(i as int).contains(model@),
        decreases all.len() - i,
    {
        let ghost before = text::views(out@);
        assert(stock[i as int] == all@[i as int]@);
        let s = String::from_str(all[i]);
        out.push(s);
        assert(text::views(out@) == before.push(stock[i as int]));
        assert(stock.take(i + 1) == stock.take(i as int).push(stock[i as int]));
        if same(all[i], model) {
            assert(stock.take(i + 1)[i as int] == model@);
            found = true;
        } else {
            proof {
                let more = stock.take(i + 1);
                let less = stock.take(i as int);
                if more.contains(model@) {
                    let k = choose|k: int| 0 <= k < more.len() && #[trigger] more[k] == model@;
                    assert(less[k] == model@);
                }
                if less.contains(model@) {
                    let k = choose|k: int| 0 <= k < less.len() && #[trigger] less[k] == model@;
                    assert(more[k] == model@);
                }
            }
        }
        i += 1;
    }
    assert(stock.take(stock.len() as int) == stock);
    if !found {
        let ghost before = text::views(out@);
        let m = String::from_str(model);
        out.insert(0, m);
        assert(text::views(out@) == seq![model@] + before);
    }
    out
}

impl App {
    fn model_options(&self) -> (r: Vec<(String, String, String)>)
        ensures
            opts(r@) == self@.options("model"@),
    {
        let mut out: Vec<(String, String, String)> = Vec::new();
        let ghost all = self@.options("model"@);
        let mut i: usize = 0;
        assert(opts(out@) == all.take(0));
        if self.session.last_models.len() > 0 {
            while i < self.session.last_models.len()
                invariant
                    i <= self.session.last_models.len(),
                    self.session.last_models.len() > 0,
                    all == self@.options("model"@),
                    opts(out@) == all.take(i as int),
                decreases self.session.last_models.len() - i,
            {
                let m = &self.session.last_models[i];
                let ghost before = opts(out@);
                let o = (m.id.clone(), m.name.clone(), m.provider.clone());
                out.push(o);
                assert(opts(out@) == before.push(all[i as int]));
                assert(all.take(i + 1) == all.take(i as int).push(all[i as int]));
                i += 1;
            }
            assert(all.take(all.len() as int) == all);
            return out;
        }
        let ids = stock_models_with(self.session.cfg.model.as_str());
        while i < ids.len()
            invariant
                i <= ids.len(),
                self.session.last_models.len() == 0,
                all == self@.options("model"@),
                text::views(ids@) == models_with(self@.session.cfg.model),
                opts(out@) == all.take(i as int),
            decreases ids.len() - i,
        {
            let ghost before = opts(out@);
            assert(text::views(ids@)[i as int] == ids@[i as int]@);
            let o = option(ids[i].as_str(), "");
            proof {
                reveal_strlit("");
                assert(""@ == Seq::<char>::empty());
            }
            out.push(o);
            assert(opts(out@) == before.push(all[i as int]));
            assert(all.take(i + 1) == all.take(i as int).push(all[i as int]));
            i += 1;
        }
        assert(all.take(all.len() as int) == all);
        out
    }

    fn effort_options(&self) -> (r: Vec<(String, String, String)>)
        ensures
            opts(r@) == self@.options("effort"@),
    {
        proof {
            names_differ();
        }
        let mut out: Vec<(String, String, String)> = Vec::new();
        let ghost all = self@.options("effort"@);
        if self.session.effort_choices.len() > 0 {
            let mut i: usize = 0;
            assert(opts(out@) == all.take(0));
            assert(all == self@.session.efforts.map_values(|e: String| plain(e@, Seq::empty())));
            while i < self.session.effort_choices.len()
                invariant
                    i <= self.session.effort_choices.len(),
                    all == self@.session.efforts.map_values(
                        |e: String| plain(e@, Seq::empty()),
                    ),
                    opts(out@) == all.take(i as int),
                decreases self.session.effort_choices.len() - i,
            {
                let ghost before = opts(out@);
                let o = option(self.session.effort_choices[i].as_str(), "");
                proof {
                    reveal_strlit("");
                    assert(""@ == Seq::<char>::empty());
                }
                out.push(o);
                assert(opts(out@) == before.push(all[i as int]));
                assert(all.take(i + 1) == all.take(i as int).push(all[i as int]));
                i += 1;
            }
            assert(all.take(all.len() as int) == all);
            return out;
        }
        let l = self.locale;
        out.push(option("off", l.tr("disable extended reasoning", "关闭扩展推理")));
        out.push(option("high", l.tr("high reasoning effort", "高推理强度")));
        out.push(option("max", l.tr("maximum reasoning effort", "最高推理强度")));
        assert(opts(out@) == all);
        out
    }

    fn permission_options(&self) -> (r: Vec<(String, String, String)>)
        ensures
            opts(r@) == self@.options("permission"@),
    {
        proof {
            names_differ();
            reveal_strlit("");
        }
        let mut out: Vec<(String, String, String)> = Vec::new();
        let ghost all = self@.options("permission"@);
        let presets = permission_presets();
        let mut i: usize = 0;
        assert(opts(out@) == all.take(0));
        let ghost stock = commands::stock_permissions();
        assert(all.len() == stock.len());
        while i < presets.len()
            invariant
                i <= presets.len(),
                commands::view_pairs(presets@) == stock,
                all.len() == stock.len(),
                forall|k: int|
                    0 <= k < stock.len() ==> #[trigger] all[k] == plain(
                        stock[k].0,
                        match commands::meaning(self.locale, stock[k].0) {
                            Some(d) => d,
                            None => Seq::empty(),
                        },
                    ),
                opts(out@) == all.take(i as int),
            decreases presets.len() - i,
        {
            let ghost before = opts(out@);
            assert(stock[i as int] == (presets@[i as int].0@, presets@[i as int].1@));
            let d = match permission_desc(self.locale, presets[i].0) {
                Some(d) => d,
                None => "",
            };
            proof {
                reveal_strlit("");
                assert(""@ == Seq::<char>::empty());
            }
            let o = option(presets[i].0, d);
            out.push(o);
            assert(opts(out@) == before.push(all[i as int]));
            assert(all.take(i + 1) == all.take(i as int).push(all[i as int]));
            i += 1;
        }
        assert(all.take(all.len() as int) == all);
        out
    }

    fn theme_options(&self) -> (r: Vec<(String, String, String)>)
        ensures
            opts(r@) == self@.options("theme"@),
    {
        proof {
            names_differ();
        }
        let l = self.locale;
        let mut out: Vec<(String, String, String)> = Vec::new();
        out.push(option("dark", l.tr("dark appearance", "深色外观")));
        out.push(option("light", l.tr("light appearance", "浅色外观")));
        let ghost all = self@.options("theme"@);
        let ghost packs = self@.look.palettes;
        assert(all.len() == packs.len() + 2);
        assert(opts(out@) == all.take(2));
        assert forall|k: int| 0 <= k < packs.len() implies #[trigger] all[k + 2] == (Opt {
            value: packs[k].0,
            label: packs[k].1,
            desc: self@.tr("palette pack"@, "主题包"@),
        }) by {}
        let mut i: usize = 0;
        while i < self.look.palettes.len()
            invariant
                i <= self.look.palettes.len(),
                packs == self@.look.palettes,
                l == self.locale,
                all.len() == packs.len() + 2,
                forall|k: int|
                    0 <= k < packs.len() ==> #[trigger] all[k + 2] == (Opt {
                        value: packs[k].0,
                        label: packs[k].1,
                        desc: self@.tr("palette pack"@, "主题包"@),
                    }),
                opts(out@) == all.take(i + 2),
            decreases self.look.palettes.len() - i,
        {
            let ghost before = opts(out@);
            let p = &self.look.palettes[i];
            assert(packs[i as int] == (p.id@, p.label@));
            let o = (
                p.id.clone(),
                p.label.clone(),
                String::from_str(l.tr("palette pack", "主题包")),
            );
            assert(opt_of(o) == all[i + 2]);
            out.push(o);
            assert(opts(out@) == before.push(all[i + 2]));
            assert(all.take(i + 3) == all.take(i + 2).push(all[i + 2]));
            i += 1;
        }
        assert(all.take(all.len() as int) == all);
        out
    }

    fn skill_options(&self) -> (r: Vec<(String, String, String)>)
        ensures
            opts(r@) == self@.options("skill"@),
    {
        proof {
            names_differ();
        }
        let mut out: Vec<(String, String, String)> = Vec::new();
        let ghost all = self@.options("skill"@);
        let ghost skills = self@.session.skills;
        assert(all.len() == skills.len());
        assert forall|k: int| 0 <= k < skills.len() implies #[trigger] all[k] == (Opt {
            value: skills[k].name@,
            label: skill_label(skills[k]),
            desc: skills[k].description@,
        }) by {}
        let mut i: usize = 0;
        assert(opts(out@) == all.take(0));
        while i < self.session.skills.len()
            invariant
                i <= self.session.skills.len(),
                skills == self@.session.skills,
                all.len() == skills.len(),
                forall|k: int|
                    0 <= k < skills.len() ==> #[trigger] all[k] == (Opt {
                        value: skills[k].name@,
                        label: skill_label(skills[k]),
                        desc: skills[k].description@,
                    }),
                opts(out@) == all.take(i as int),
            decreases self.session.skills.len() - i,
        {
            let s = &self.session.skills[i];
            let label = match &s.input_hint {
                Some(hint) => cat3(s.name.as_str(), " ", hint.as_str()),
                None => s.name.clone(),
            };
            let ghost before = opts(out@);
            let o = (s.name.clone(), label, s.description.clone());
            assert(opt_of(o) == all[i as int]);
            out.push(o);
            assert(opts(out@) == before.push(all[i as int]));
            assert(all.take(i + 1) == all.take(i as int).push(all[i as int]));
            i += 1;
        }
        assert(all.take(all.len() as int) == all);
        out
    }

    /// The arguments that can be offered for a command.
    pub fn builtin_argument_options(&self, name: &str) -> (r: Vec<(String, String, String)>)
        ensures
            opts(r@) == self@.options(name@),
    {
        let l = self.locale;
        if same(name, "model") {
            self.model_options()
        } else if same(name, "effort") {
            self.effort_options()
        } else if same(name, "permission") {
            self.permission_options()
        } else if same(name, "plan") {
            let mut out: Vec<(String, String, String)> = Vec::new();
            out.push(option("on", l.tr("enable plan mode", "打开计划模式")));
            out.push(option("off", l.tr("disable plan mode", "关闭计划模式")));
            assert(opts(out@) == self@.options(name@));
            out
        } else if same(name, "theme") {
            self.theme_options()
        } else if same(name, "lang") {
            let mut out: Vec<(String, String, String)> = Vec::new();
            out.push(option("zh", "中文"));
            out.push(option("en", "English"));
            assert(opts(out@) == self@.options(name@));
            out
        } else if same(name, "skill") {
            self.skill_options()
        } else {
            let out: Vec<(String, String, String)> = Vec::new();
            assert(opts(out@) == self@.options(name@));
            out
        }
    }

    fn slash_argument_matches(&self, name: &str, arg: &str) -> (r: Vec<SlashEntry>)
        ensures
            picker::suggestions(r@) == self@.arguments(name@, arg@),
    {
        let prefix = start_trimmed(arg);
        let mut out: Vec<SlashEntry> = Vec::new();
        assert(picker::suggestions(out@) == Seq::<Suggestion>::empty());
        if has_space(prefix.as_str()) {
            return out;
        }
        let all = self.builtin_argument_options(name);
        let ghost o = self@.options(name@);
        let mut i: usize = 0;
        while i < all.len()
            invariant
                i <= all.len(),
                o == self@.options(name@),
                o == opts(all@),
                picker::suggestions(out@) == self@.argument_rows(name@, prefix@, i as int),
            decreases all.len() - i,
        {
            assert(o[i as int] == opt_of(all@[i as int]));
            let ghost before = picker::suggestions(out@);
            if starts_with(all[i].0.as_str(), prefix.as_str()) {
                let e = SlashEntry {
                    name: String::from_str(name),
                    usage: all[i].1.clone(),
                    desc: all[i].2.clone(),
                    completion: Some(cat4("/", name, " ", all[i].0.as_str())),
                };
                let ghost row = e@;
                out.push(e);
                assert(picker::suggestions(out@) == before.push(row));
            }
            i += 1;
        }
        out
    }

    fn slash_names(&self, prefix: &str, exact: bool, out: &mut Vec<SlashEntry>)
        ensures
            picker::suggestions(final(out)@) == picker::suggestions(old(out)@)
                + self@.command_rows(prefix@, exact, commands::commands().len() as int),
    {
        let all = slash_commands();
        let ghost c = commands::commands();
        let ghost start = picker::suggestions(out@);
        let mut i: usize = 0;
        assert(start + self@.command_rows(prefix@, exact, 0) == start);
        while i < all.len()
            invariant
                i <= all.len(),
                c == commands::commands(),
                commands::view_commands(all@) == c,
                picker::suggestions(out@) == start + self@.command_rows(
                    prefix@,
                    exact,
                    i as int,
                ),
            decreases all.len() - i,
        {
            assert(c[i as int] == commands::view_commands(all@)[i as int]);
            let ghost before = picker::suggestions(out@);
            if starts_with(all[i].name, prefix) && same(all[i].name, prefix) == exact {
                let e = SlashEntry {
                    name: String::from_str(all[i].name),
                    usage: String::from_str(all[i].usage),
                    desc: self.phrases.command_desc(self.locale, all[i].name, all[i].desc),
                    completion: None,
                };
                let ghost row = e@;
                assert(row == self@.command_row(i as int));
                out.push(e);
                assert(picker::suggestions(out@) == before.push(row));
                assert(picker::suggestions(out@) == start + self@.command_rows(
                    prefix@,
                    exact,
                    i + 1,
                ));
            }
            i += 1;
        }
    }

    /// The rows of the command menu.
    pub fn slash_matches(&self) -> (r: Vec<SlashEntry>)
        ensures
            picker::suggestions(r@) == self@.menu(),
    {
        reveal(Scene::menu);
        let buf = self.draft.input.buf();
        let mut out: Vec<SlashEntry> = Vec::new();
        assert(picker::suggestions(out@) == Seq::<Suggestion>::empty());
        if !starts_with_char(buf.as_str(), '/') {
            return out;
        }
        let rest = tail(buf.as_str(), 1);
        match split_once(rest.as_str(), ' ') {
            Some((name, arg)) => self.slash_argument_matches(name.as_str(), arg.as_str()),
            None => {
                self.slash_names(rest.as_str(), true, &mut out);
                self.slash_names(rest.as_str(), false, &mut out);
                assert(picker::suggestions(out@) == self@.menu());
                out
            },
        }
    }

    /// The menu has rows to show.
    pub fn slash_completion_open(&self) -> (r: bool)
        ensures
            r == (self@.menu().len() > 0),
    {
        self.slash_matches().len() > 0
    }

    /// The row under the highlight.
    pub fn slash_highlight(&self) -> (r: Option<SlashEntry>)
        ensures
            match r {
                Some(e) => self@.highlighted() == Some(e@),
                None => self@.highlighted() is None,
            },
    {
        let rows = self.slash_matches();
        if rows.len() == 0 {
            return None;
        }
        let i: usize = if self.draft.slash_sel < rows.len() {
            self.draft.slash_sel
        } else {
            rows.len() - 1
        };
        assert(self@.menu()[i as int] == rows@[i as int]@);
        Some(rows[i].copy())
    }

    /// The palette pack that the highlighted row names.
    pub fn slash_theme_candidate(&self) -> (r: Option<String>)
        ensures
            text::view_opt(r) == self@.highlighted_pack(),
    {
        let entry = match self.slash_highlight() {
            Some(e) => e,
            None => {
                return None;
            },
        };
        if !same(entry.name.as_str(), "theme") {
            return None;
        }
        match &entry.completion {
            Some(line) => {
                let head = "/theme ";
                if !starts_with(line.as_str(), head) {
                    return None;
                }
                let n: usize = head.unicode_len();
                let id = tail(line.as_str(), n);
                if self.look.has(id.as_str()) {
                    Some(id)
                } else {
                    None
                }
            },
            None => None,
        }
    }

    /// Whether a row names a skill that takes an argument.
    pub fn skill_candidate_awaits_args(&self, entry: &SlashEntry) -> (r: bool)
        ensures
            r == self@.awaits_argument(entry@),
    {
        match &entry.completion {
            Some(line) => {
                let value = crate::commands::last_piece(line.as_str(), ' ');
                let mut i: usize = 0;
                while i < self.session.skills.len()
                    invariant
                        i <= self.session.skills.len(),
                        entry@.completion == Some(line@),
                        value@ == text::pieces(line@, ' ').last(),
                        forall|k: int|
                            0 <= k < i ==> !((#[trigger] self@.session.skills[k]).name@ == value@
                                && self@.session.skills[k].input_hint is Some),
                    decreases self.session.skills.len() - i,
                {
                    assert(self@.session.skills[i as int] == self.session.skills@[i as int]);
                    if same(self.session.skills[i].name.as_str(), value.as_str())
                        && self.session.skills[i].input_hint.is_some() {
                        return true;
                    }
                    i += 1;
                }
                false
            },
            None => false,
        }
    }
}

/// The commands with arguments of their own have different names.
proof fn names_differ()
    ensures
        "effort"@ != "model"@,
        "permission"@ != "model"@,
        "permission"@ != "effort"@,
        "theme"@ != "model"@,
        "theme"@ != "effort"@,
        "theme"@ != "permission"@,
        "theme"@ != "plan"@,
        "skill"@ != "model"@,
        "skill"@ != "effort"@,
        "skill"@ != "permission"@,
        "skill"@ != "plan"@,
        "skill"@ != "theme"@,
        "skill"@ != "lang"@,
{
    reveal_strlit("effort");
    reveal_strlit("model");
    reveal_strlit("permission");
    reveal_strlit("theme");
    reveal_strlit("plan");
    reveal_strlit("skill");
    reveal_strlit("lang");
    assert("effort"@[0] == 'e' && "model"@[0] == 'm' && "permission"@[1] == 'e' && "plan"@[1] == 'l'
        && "theme"@[0] == 't' && "skill"@[0] == 's' && "lang"@[0] == 'l');
    assert("permission"@[0] == 'p');
    assert("plan"@[0] == 'p');
}

proof fn rows_are_commands(scene: Scene, prefix: Seq<char>, exact: bool, n: int)
    requires
        0 <= n <= commands::commands().len(),
    ensures
        forall|i: int|
            0 <= i < scene.command_rows(prefix, exact, n).len() ==> exists|k: int|
                0 <= k < n && #[trigger] scene.command_rows(prefix, exact, n)[i]
                    == #[trigger] scene.command_row(k),
    decreases n,
{
    if n > 0 {
        rows_are_commands(scene, prefix, exact, n - 1);
        let before = scene.command_rows(prefix, exact, n - 1);
        let rows = scene.command_rows(prefix, exact, n);
        assert forall|i: int| 0 <= i < rows.len() implies exists|k: int|
            0 <= k < n && #[trigger] rows[i] == #[trigger] scene.command_row(k) by {
            if i < before.len() {
                assert(rows[i] == before[i]);
                let k = choose|k: int|
                    0 <= k < n - 1 && before[i] == #[trigger] scene.command_row(k);
                assert(rows[i] == scene.command_row(k));
            } else {
                assert(rows[i] == scene.command_row(n - 1));
            }
        }
    }
}

/// The menu of a command that is still being named lists builtin commands
/// alone: no skill is ever a row of it.
pub proof fn menu_lists_builtins(scene: Scene)
    requires
        text::cut_at(scene.draft.input.area.text.skip(1), ' ') is None,
    ensures
        forall|i: int|
            0 <= i < scene.menu().len() ==> exists|k: int|
                0 <= k < commands::commands().len() && #[trigger] scene.menu()[i]
                    == #[trigger] scene.command_row(k),
{
    reveal(Scene::menu);
    let buf = scene.draft.input.area.text;
    let n = commands::commands().len() as int;
    let a = scene.command_rows(buf.skip(1), true, n);
    let b = scene.command_rows(buf.skip(1), false, n);
    rows_are_commands(scene, buf.skip(1), true, n);
    rows_are_commands(scene, buf.skip(1), false, n);
    assert forall|i: int| 0 <= i < scene.menu().len() implies exists|k: int|
        0 <= k < n && #[trigger] scene.menu()[i] == #[trigger] scene.command_row(k) by {
        if i < a.len() {
            assert(scene.menu()[i] == a[i]);
            let k = choose|k: int| 0 <= k < n && a[i] == #[trigger] scene.command_row(k);
            assert(scene.menu()[i] == scene.command_row(k));
        } else {
            assert(scene.menu()[i] == b[i - a.len()]);
            let k = choose|k: int| 0 <= k < n && b[i - a.len()] == #[trigger] scene.command_row(k);
            assert(scene.menu()[i] == scene.command_row(k));
        }
    }
}

} // verus!
