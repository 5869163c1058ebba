//! The client's own commands, presets and spellings.

use vstd::prelude::*;
use vstd::string::*;
use crate::locale;
use crate::locale::Locale;
use crate::text;
use crate::text::{chars, join, lowered, same, split, string_of, trimmed};

verus! {

#[derive(Debug, Clone, Copy, PartialEq, Eq)]
pub struct SlashCommand {
    pub name: &'static str,
    pub usage: &'static str,
    pub desc: &'static str,
}

/// The commands: name, usage and description, in the order of the menu.
pub open spec fn commands() -> Seq<(Seq<char>, Seq<char>, Seq<char>)> {
    seq![
        ("help"@, "/help"@, "show help and tips"@),
        ("keys"@, "/keys"@, "keyboard shortcuts"@),
        ("new"@, "/new [id]"@, "start a fresh session"@),
        ("resume"@, "/resume [id]"@, "resume a durable session from this workspace"@),
        ("compact"@, "/compact"@, "condense older history into a summary"@),
        ("goal"@, "/goal [objective|pause|resume|complete|clear]"@, "set or control the long-running goal"@),
        ("clear"@, "/clear"@, "clear the scrollback"@),
        ("model"@, "/model [id]"@, "switch model · live over ACP"@),
        ("effort"@, "/effort [off|high|max]"@, "reasoning effort for this session"@),
        ("permission"@, "/permission [preset]"@, "permission preset picker · shift+tab cycles"@),
        ("plan"@, "/plan [on|off]"@, "toggle host plan mode"@),
        ("image"@, "/image <path> [text]"@, "send a local image (png/jpeg/webp/gif)"@),
        ("clip"@, "/clip [text]"@, "attach the clipboard image (macOS/Linux)"@),
        ("vim"@, "/vim [on|off]"@, "toggle vim modal editing in the composer"@),
        ("theme"@, "/theme [dark|light|id]"@, "toggle mode or switch palette pack"@),
        ("status"@, "/status"@, "run state, model and the live usage counters"@),
        ("lang"@, "/lang [zh|en]"@, "switch interface language"@),
        ("login"@, "/login <apikey>"@, "store the API key in the aby home"@),
        ("logout"@, "/logout"@, "remove the stored API key"@),
        ("skill"@, "/skill <name> [args]"@, "invoke a skill by name, builtin name or not"@),
        ("quit"@, "/quit"@, "exit abylab"@),
    ]
}

pub open spec fn view_commands(v: Seq<SlashCommand>) -> Seq<(Seq<char>, Seq<char>, Seq<char>)> {
    v.map_values(|c: SlashCommand| (c.name@, c.usage@, c.desc@))
}

/// The commands, in the order of the menu.
pub fn slash_commands() -> (r: Vec<SlashCommand>)
    ensures
        view_commands(r@) == commands(),
{
    let r = vec![
        SlashCommand { name: "help", usage: "/help", desc: "show help and tips" },
        SlashCommand { name: "keys", usage: "/keys", desc: "keyboard shortcuts" },
        SlashCommand { name: "new", usage: "/new [id]", desc: "start a fresh session" },
        SlashCommand { name: "resume", usage: "/resume [id]", desc: "resume a durable session from this workspace" },
        SlashCommand { name: "compact", usage: "/compact", desc: "condense older history into a summary" },
        SlashCommand { name: "goal", usage: "/goal [objective|pause|resume|complete|clear]", desc: "set or control the long-running goal" },
        SlashCommand { name: "clear", usage: "/clear", desc: "clear the scrollback" },
        SlashCommand { name: "model", usage: "/model [id]", desc: "switch model · live over ACP" },
        SlashCommand { name: "effort", usage: "/effort [off|high|max]", desc: "reasoning effort for this session" },
        SlashCommand { name: "permission", usage: "/permission [preset]", desc: "permission preset picker · shift+tab cycles" },
        SlashCommand { name: "plan", usage: "/plan [on|off]", desc: "toggle host plan mode" },
        SlashCommand { name: "image", usage: "/image <path> [text]", desc: "send a local image (png/jpeg/webp/gif)" },
        SlashCommand { name: "clip", usage: "/clip [text]", desc: "attach the clipboard image (macOS/Linux)" },
        SlashCommand { name: "vim", usage: "/vim [on|off]", desc: "toggle vim modal editing in the composer" },
        SlashCommand { name: "theme", usage: "/theme [dark|light|id]", desc: "toggle mode or switch palette pack" },
        SlashCommand { name: "status", usage: "/status", desc: "run state, model and the live usage counters" },
        SlashCommand { name: "lang", usage: "/lang [zh|en]", desc: "switch interface language" },
        SlashCommand { name: "login", usage: "/login <apikey>", desc: "store the API key in the aby home" },
        SlashCommand { name: "logout", usage: "/logout", desc: "remove the stored API key" },
        SlashCommand { name: "skill", usage: "/skill <name> [args]", desc: "invoke a skill by name, builtin name or not" },
        SlashCommand { name: "quit", usage: "/quit", desc: "exit abylab" },
    ];
    assert(view_commands(r@) == commands());
    r
}

/// Whether a word names a command.
pub open spec fn is_command(name: Seq<char>) -> bool {
    exists|i: int| 0 <= i < commands().len() && #[trigger] commands()[i].0 == name
}

pub fn is_builtin(name: &str) -> (r: bool)
    ensures
        r == is_command(name@),
{
    let all = slash_commands();
    let mut i: usize = 0;
    while i < all.len()
        invariant
            i <= all.len(),
            view_commands(all@) == commands(),
            forall|j: int| 0 <= j < i ==> #[trigger] commands()[j].0 != name@,
        decreases all.len() - i,
    {
        assert(commands()[i as int] == view_commands(all@)[i as int]);
        if same(all[i].name, name) {
            assert(commands()[i as int].0 == name@);
            return true;
        }
        i += 1;
    }
    false
}

/// The models offered before a catalog is known.
pub open spec fn stock_models() -> Seq<Seq<char>> {
    seq!["deepseek-flash"@, "deepseek-v4-pro"@]
}

/// The models offered before a catalog is known.
pub fn model_presets() -> (r: Vec<&'static str>)
    ensures
        r@.map_values(|s: &'static str| s@) == stock_models(),
{
    let r = vec!["deepseek-flash", "deepseek-v4-pro"];
    assert(r@.map_values(|s: &'static str| s@) == stock_models());
    r
}

/// Where skills are read from, below the workspace.
pub const SKILLS_DIR: &'static str = ".agents/skills";

/// The stock permission presets and what each means.
pub open spec fn stock_permissions() -> Seq<(Seq<char>, Seq<char>)> {
    seq![
        ("read-only"@, "read only — no file writes"@),
        ("workspace-write"@, "write inside the workspace · wider actions ask for approval"@),
        ("danger-full-access"@, "full file access · approval prompts off — trusted dirs only"@),
    ]
}

pub open spec fn view_pairs(v: Seq<(&'static str, &'static str)>) -> Seq<(Seq<char>, Seq<char>)> {
    v.map_values(|p: (&'static str, &'static str)| (p.0@, p.1@))
}

/// The stock permission presets and what each means.
pub fn permission_presets() -> (r: Vec<(&'static str, &'static str)>)
    ensures
        view_pairs(r@) == stock_permissions(),
{
    let r = vec![
        ("read-only", "read only — no file writes"),
        ("workspace-write", "write inside the workspace · wider actions ask for approval"),
        ("danger-full-access", "full file access · approval prompts off — trusted dirs only"),
    ];
    assert(view_pairs(r@) == stock_permissions());
    r
}

/// The stock preset that a word spells.
pub open spec fn stock_preset(word: Seq<char>) -> Option<Seq<char>> {
    if word == "read-only"@ || word == "readonly"@ || word == "read"@ || word == "ro"@ {
        Some("read-only"@)
    } else if word == "workspace-write"@ || word == "workspace"@ || word == "write"@ || word
        == "ws"@ || word == "safe"@ || word == "sandbox"@ {
        Some("workspace-write"@)
    } else if word == "danger-full-access"@ || word == "full-access"@ || word == "full"@ || word
        == "danger"@ || word == "yolo"@ {
        Some("danger-full-access"@)
    } else {
        None
    }
}

/// The stock preset that an argument spells, capitals and white space around
/// it aside.
pub fn normalize_permission(arg: &str) -> (r: Option<&'static str>)
    ensures
        match r {
            Some(s) => stock_preset(text::small(text::trim(arg@))) == Some(s@),
            None => stock_preset(text::small(text::trim(arg@))) is None,
        },
{
    let t = trimmed(arg);
    let w = lowered(t.as_str());
    let w = w.as_str();
    if same(w, "read-only") || same(w, "readonly") || same(w, "read") || same(w, "ro") {
        Some("read-only")
    } else if same(w, "workspace-write") || same(w, "workspace") || same(w, "write") || same(
        w,
        "ws",
    ) || same(w, "safe") || same(w, "sandbox") {
        Some("workspace-write")
    } else if same(w, "danger-full-access") || same(w, "full-access") || same(w, "full") || same(
        w,
        "danger",
    ) || same(w, "yolo") {
        Some("danger-full-access")
    } else {
        None
    }
}

/// A small ASCII letter made a capital.
pub open spec fn raised(c: char) -> char {
    if 'a' <= c <= 'z' {
        ((c as u32) - 32) as char
    } else {
        c
    }
}

/// A word with its first letter made a capital.
pub open spec fn titled(word: Seq<char>) -> Seq<char> {
    if word.len() == 0 {
        word
    } else {
        word.update(0, raised(word[0]))
    }
}

/// A word of small letters and digits.
pub open spec fn kebab_word(word: Seq<char>) -> bool {
    word.len() > 0 && forall|i: int|
        0 <= i < word.len() ==> ('a' <= #[trigger] word[i] <= 'z') || ('0' <= word[i] <= '9')
}

/// Such words joined by hyphens.
pub open spec fn kebab(id: Seq<char>) -> bool {
    id.len() > 0 && forall|i: int|
        0 <= i < text::pieces(id, '-').len() ==> kebab_word(#[trigger] text::pieces(id, '-')[i])
}

/// A permission preset as it reads: in title case where its id is hyphenated
/// words, as it is otherwise.
pub open spec fn label_of(id: Seq<char>) -> Seq<char> {
    if id == "danger-full-access"@ {
        "Full access"@
    } else if kebab(id) {
        text::joined(text::pieces(id, '-').map_values(|w: Seq<char>| titled(w)), " "@)
    } else {
        id
    }
}

fn raise(c: char) -> (r: char)
    ensures
        r == raised(c),
{
    if 'a' <= c && c <= 'z' {
        ((c as u8) - 32) as char
    } else {
        c
    }
}

fn is_kebab_word(v: &Vec<char>) -> (r: bool)
    ensures
        r == kebab_word(v@),
{
    if v.len() == 0 {
        return false;
    }
    let mut i: usize = 0;
    while i < v.len()
        invariant
            i <= v.len(),
            forall|j: int|
                0 <= j < i ==> ('a' <= #[trigger] v@[j] <= 'z') || ('0' <= v@[j] <= '9'),
        decreases v.len() - i,
    {
        let c = v[i];
        if !(('a' <= c && c <= 'z') || ('0' <= c && c <= '9')) {
            return false;
        }
        i += 1;
    }
    true
}

fn title(word: &str) -> (r: String)
    ensures
        r@ == titled(word@),
{
    let mut v = chars(word);
    if v.len() > 0 {
        let c = raise(v[0]);
        v.set(0, c);
    }
    let s = string_of(&v, 0, v.len());
    assert(v@.subrange(0, v@.len() as int) == v@);
    s
}

/// A permission preset as it reads.
pub fn permission_label(id: &str) -> (r: String)
    ensures
        r@ == label_of(id@),
{
    if same(id, "danger-full-access") {
        return String::from_str("Full access");
    }
    if id.is_empty() {
        return String::from_str(id);
    }
    let words = split(id, '-');
    let ghost p = text::pieces(id@, '-');
    let mut out: Vec<String> = Vec::new();
    let mut i: usize = 0;
    assert(text::views(out@) == p.take(0).map_values(|w: Seq<char>| titled(w)));
    while i < words.len()
        invariant
            i <= words.len(),
            id@.len() > 0,
            id@ != "danger-full-access"@,
            p == text::pieces(id@, '-'),
            p == text::views(words@),
            forall|j: int| 0 <= j < i ==> kebab_word(#[trigger] p[j]),
            text::views(out@) == p.take(i as int).map_values(|w: Seq<char>| titled(w)),
        decreases words.len() - i,
    {
        assert(p[i as int] == words@[i as int]@);
        let v = chars(words[i].as_str());
        if !is_kebab_word(&v) {
            assert(!kebab(id@));
            return String::from_str(id);
        }
        let ghost before = text::views(out@);
        let w = title(words[i].as_str());
        out.push(w);
        assert(text::views(out@) == before.push(w@));
        assert(p.take(i + 1) == p.take(i as int).push(p[i as int]));
        i += 1;
        assert(text::views(out@) == p.take(i as int).map_values(|w: Seq<char>| titled(w)));
    }
    assert(p.take(p.len() as int) == p);
    join(&out, " ")
}

/// What a permission preset means. Only the stock presets have a meaning.
pub open spec fn meaning(locale: Locale, id: Seq<char>) -> Option<Seq<char>> {
    if id == "read-only"@ {
        Some(locale::say(locale, "read only — no file writes"@, "只读 —— 不写文件"@))
    } else if id == "workspace-write"@ {
        Some(
            locale::say(
                locale,
                "write inside the workspace · wider actions ask for approval"@,
                "只写工作区 · 更大的动作会先征求同意"@,
            ),
        )
    } else if id == "danger-full-access"@ {
        Some(
            locale::say(
                locale,
                "full file access · approval prompts off — trusted dirs only"@,
                "完全文件访问 · 关闭审批 —— 仅限信任目录"@,
            ),
        )
    } else {
        None
    }
}

/// What a permission preset means, in the interface language.
pub fn permission_desc(locale: Locale, id: &str) -> (r: Option<&'static str>)
    ensures
        match r {
            Some(s) => meaning(locale, id@) == Some(s@),
            None => meaning(locale, id@) is None,
        },
{
    if same(id, "read-only") {
        Some(locale.tr("read only — no file writes", "只读 —— 不写文件"))
    } else if same(id, "workspace-write") {
        Some(
            locale.tr(
                "write inside the workspace · wider actions ask for approval",
                "只写工作区 · 更大的动作会先征求同意",
            ),
        )
    } else if same(id, "danger-full-access") {
        Some(
            locale.tr(
                "full file access · approval prompts off — trusted dirs only",
                "完全文件访问 · 关闭审批 —— 仅限信任目录",
            ),
        )
    } else {
        None
    }
}

/// The media type of an image file, by its extension.
pub open spec fn media_type(path: Seq<char>) -> Option<Seq<char>> {
    let ext = text::small(text::pieces(path, '.').last());
    if ext == "png"@ {
        Some("image/png"@)
    } else if ext == "jpg"@ || ext == "jpeg"@ {
        Some("image/jpeg"@)
    } else if ext == "webp"@ {
        Some("image/webp"@)
    } else if ext == "gif"@ {
        Some("image/gif"@)
    } else {
        None
    }
}

/// The media type of an image file, by its extension.
pub fn media_type_for(path: &str) -> (r: Option<&'static str>)
    ensures
        match r {
            Some(s) => media_type(path@) == Some(s@),
            None => media_type(path@) is None,
        },
{
    let last = last_piece(path, '.');
    let ext = lowered(last.as_str());
    let ext = ext.as_str();
    if same(ext, "png") {
        Some("image/png")
    } else if same(ext, "jpg") || same(ext, "jpeg") {
        Some("image/jpeg")
    } else if same(ext, "webp") {
        Some("image/webp")
    } else if same(ext, "gif") {
        Some("image/gif")
    } else {
        None
    }
}

/// What follows the last `c`.
pub fn last_piece(s: &str, c: char) -> (r: String)
    ensures
        r@ == text::pieces(s@, c).last(),
{
    let p = split(s, c);
    proof {
        text::join_pieces(s@, c);
    }
    let n: usize = p.len() - 1;
    assert(text::views(p@)[n as int] == p@[n as int]@);
    p[n].clone()
}

/// What the interface says in words that live outside the code: the usage
/// hints a session opens with, and the commands' descriptions in Chinese.
#[derive(Debug, Clone, PartialEq, Eq)]
pub struct Phrases {
    pub tips_en: Vec<String>,
    pub tips_zh: Vec<String>,
    pub commands_zh: Vec<(String, String)>,
}

#[verifier::ext_equal]
pub struct Wording {
    pub tips_en: Seq<Seq<char>>,
    pub tips_zh: Seq<Seq<char>>,
    pub commands_zh: Seq<(Seq<char>, Seq<char>)>,
}

impl View for Phrases {
    type V = Wording;

    open spec fn view(&self) -> Wording {
        Wording {
            tips_en: text::views(self.tips_en@),
            tips_zh: text::views(self.tips_zh@),
            commands_zh: self.commands_zh@.map_values(|c: (String, String)| (c.0@, c.1@)),
        }
    }
}

impl Wording {
    /// The usage hint of a number; there are as many as there are in English.
    pub open spec fn tip(self, locale: Locale, idx: int) -> Seq<char> {
        let tips = match locale {
            Locale::En => self.tips_en,
            Locale::Zh => self.tips_zh,
        };
        if 0 <= idx < tips.len() {
            tips[idx]
        } else {
            Seq::empty()
        }
    }

    /// The number of the hint after the given one.
    pub open spec fn next_tip(self, idx: int) -> int {
        if idx + 1 < self.tips_en.len() {
            idx + 1
        } else {
            0
        }
    }

    /// The Chinese description of a command, from row `i` on.
    pub open spec fn translated(self, name: Seq<char>, i: int) -> Option<Seq<char>>
        decreases self.commands_zh.len() - i,
    {
        if 0 <= i < self.commands_zh.len() {
            if self.commands_zh[i].0 == name {
                Some(self.commands_zh[i].1)
            } else {
                self.translated(name, i + 1)
            }
        } else {
            None
        }
    }

    /// A command's description in the interface language.
    pub open spec fn desc(self, locale: Locale, name: Seq<char>, desc: Seq<char>) -> Seq<char> {
        match locale {
            Locale::En => desc,
            Locale::Zh => match self.translated(name, 0) {
                Some(d) => d,
                None => desc,
            },
        }
    }
}

impl Phrases {
    pub fn session_tip(&self, locale: Locale, idx: usize) -> (r: String)
        ensures
            r@ == self@.tip(locale, idx as int),
    {
        let tips = match locale {
            Locale::En => &self.tips_en,
            Locale::Zh => &self.tips_zh,
        };
        if idx < tips.len() {
            assert(text::views(tips@)[idx as int] == tips@[idx as int]@);
            tips[idx].clone()
        } else {
            String::new()
        }
    }

    pub fn following(&self, idx: usize) -> (r: usize)
        ensures
            r == self@.next_tip(idx as int),
    {
        if idx < self.tips_en.len() && idx + 1 < self.tips_en.len() {
            idx + 1
        } else {
            0
        }
    }

    /// A command's description in the interface language.
    pub fn command_desc(&self, locale: Locale, name: &str, desc: &str) -> (r: String)
        ensures
            r@ == self@.desc(locale, name@, desc@),
    {
        match locale {
            Locale::En => String::from_str(desc),
            Locale::Zh => {
                let mut i: usize = 0;
                while i < self.commands_zh.len()
                    invariant
                        i <= self.commands_zh.len(),
                        locale == Locale::Zh,
                        self@.translated(name@, 0) == self@.translated(name@, i as int),
                    decreases self.commands_zh.len() - i,
                {
                    assert(self@.commands_zh[i as int] == (
                        self.commands_zh@[i as int].0@,
                        self.commands_zh@[i as int].1@,
                    ));
                    if same(self.commands_zh[i].0.as_str(), name) {
                        return self.commands_zh[i].1.clone();
                    }
                    i += 1;
                }
                String::from_str(desc)
            },
        }
    }
}

} // verus!
