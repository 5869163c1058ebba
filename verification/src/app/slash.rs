//! The slash commands, and what submitting the draft does.

use vstd::prelude::*;
use vstd::string::*;
use crate::app::{App, Scene};
use crate::app::state;
use crate::app::state::{
    ChatState, Child, DraftState, Session, SessionState, SessionSwitch, SubagentView, Switch,
};
use crate::bus::{Cmd, Order, SkillInfo};
use crate::commands;
use crate::commands::{is_builtin, last_piece, media_type_for, normalize_permission};
use crate::controller::{Deed, Effect};
use crate::credentials;
use crate::credentials::{redact, CREDENTIALS_FILENAME};
use crate::input::vim::{VimMode, VimState};
use crate::locale;
use crate::locale::Locale;
use crate::picker::{SlashEntry, Suggestion};
use crate::runtime::{Config, KeyOrigin};
use crate::text;
use crate::text::{
    cat, cat3, cat4, cat5, chars, end_trimmed, is_space, same, split_once, starts_with,
    starts_with_char, string_of, tail, trimmed,
};
use crate::transcript::{NoticeLevel, Timeline};

verus! {

/// Where the first whitespace of a text stands, its length where there is
/// none.
pub open spec fn first_space(s: Seq<char>, i: int) -> int
    decreases s.len() - i,
{
    if i >= s.len() || text::space(s[i]) {
        i
    } else {
        first_space(s, i + 1)
    }
}

/// A text cut at its first whitespace: the word before it, and what follows,
/// trimmed.
pub open spec fn word_and_rest(s: Seq<char>) -> (Seq<char>, Seq<char>) {
    let i = first_space(s, 0);
    if i < s.len() {
        (s.take(i), text::trim(s.skip(i + 1)))
    } else {
        (s, Seq::empty())
    }
}

fn split_word(s: &str) -> (r: (String, String))
    ensures
        (r.0@, r.1@) == word_and_rest(s@),
{
    let v = chars(s);
    let mut i: usize = 0;
    while i < v.len() && !is_space(v[i])
        invariant
            i <= v.len(),
            v@ == s@,
            first_space(s@, 0) == first_space(s@, i as int),
        decreases v.len() - i,
    {
        i += 1;
    }
    if i < v.len() {
        let rest = string_of(&v, i + 1, v.len());
        (string_of(&v, 0, i), trimmed(rest.as_str()))
    } else {
        (String::from_str(s), String::new())
    }
}

/// A skill of that name is on offer.
pub open spec fn offers(skills: Seq<SkillInfo>, name: Seq<char>) -> bool {
    exists|i: int| 0 <= i < skills.len() && (#[trigger] skills[i]).name@ == name
}

fn has_skill(skills: &Vec<SkillInfo>, name: &str) -> (r: bool)
    ensures
        r == offers(skills@, name@),
{
    let mut i: usize = 0;
    while i < skills.len()
        invariant
            i <= skills.len(),
            forall|k: int| 0 <= k < i ==> (#[trigger] skills@[k]).name@ != name@,
        decreases skills.len() - i,
    {
        if same(skills[i].name.as_str(), name) {
            assert(skills@[i as int].name@ == name@);
            return true;
        }
        i += 1;
    }
    false
}

/// The subagents, their timelines in that language.
pub open spec fn spoken(all: Seq<Child>, locale: Locale) -> Seq<Child> {
    all.map_values(
        |c: Child| Child { transcript: Timeline { locale, ..c.transcript }, ..c },
    )
}

fn speak(all: &mut Vec<SubagentView>, locale: Locale)
    ensures
        state::children(final(all)@) == spoken(state::children(old(all)@), locale),
{
    let ghost whole = state::children(all@);
    let mut i: usize = 0;
    while i < all.len()
        invariant
            i <= all.len(),
            all@.len() == whole.len(),
            forall|k: int|
                0 <= k < i ==> (#[trigger] all@[k])@ == (Child {
                    transcript: Timeline { locale, ..whole[k].transcript },
                    ..whole[k]
                }),
            forall|k: int| i <= k < all@.len() ==> (#[trigger] all@[k])@ == whole[k],
        decreases all.len() - i,
    {
        all[i].transcript.set_locale(locale);
        i += 1;
    }
    assert(state::children(all@) == spoken(whole, locale));
}

/// What follows a command's name in its line.
pub open spec fn argument(line: Seq<char>, name: Seq<char>) -> Seq<char> {
    if text::leads(line, '/') && name.is_prefix_of(line.skip(1)) {
        text::trim(line.skip(1 + name.len() as int))
    } else {
        Seq::empty()
    }
}

fn argument_of(line: &str, name: &str) -> (r: String)
    ensures
        r@ == argument(line@, name@),
{
    if !starts_with_char(line, '/') {
        return String::new();
    }
    let body = tail(line, 1);
    if !starts_with(body.as_str(), name) {
        return String::new();
    }
    let n = chars(name);
    let rest = tail(body.as_str(), n.len());
    assert(line@.skip(1).skip(name@.len() as int) == line@.skip(1 + name@.len() as int));
    trimmed(rest.as_str())
}

impl SessionState {
    /// A key stored, and live.
    pub open spec fn keyed(self, key: Seq<char>) -> SessionState {
        SessionState {
            cfg: Config {
                api_key: Some(key),
                key_origin: Some(KeyOrigin::Stored),
                ..self.cfg
            },
            ..self
        }
    }

    pub open spec fn keyless(self) -> SessionState {
        SessionState { cfg: Config { api_key: None, key_origin: None, ..self.cfg }, ..self }
    }

    pub open spec fn of_effort(self, effort: Seq<char>) -> SessionState {
        SessionState {
            modes: crate::runtime::ModeFacts { effort: Some(effort), ..self.modes },
            ..self
        }
    }
}

impl Session {
    fn log_in(&mut self, key: String)
        ensures
            final(self)@ == old(self)@.keyed(key@),
    {
        self.cfg.api_key = Some(key);
        self.cfg.key_origin = Some(KeyOrigin::Stored);
    }

    fn log_out(&mut self)
        ensures
            final(self)@ == old(self)@.keyless(),
    {
        self.cfg.api_key = None;
        self.cfg.key_origin = None;
    }

    pub fn set_effort(&mut self, effort: String)
        ensures
            final(self)@ == old(self)@.of_effort(effort@),
    {
        self.modes.effort = Some(effort);
    }
}

impl Scene {
    /// `/login`: a key to be stored, or without one what is known of the live
    /// one.
    #[verifier::opaque]
    pub open spec fn logging_in(self, arg: Seq<char>) -> Scene {
        let key = text::trim(arg);
        if key.len() == 0 {
            self.noticed(
                NoticeLevel::Info,
                match self.session.cfg.source() {
                    Some(s) => "api key present · "@ + s,
                    None => self.tr(
                        "no key stored — usage: /login <apikey>"@,
                        "未存储 key — 用法：/login <apikey>"@,
                    ),
                },
            ).redrawn()
        } else {
            self.done(Deed::StoreKey(key))
        }
    }

    /// The store answered: the key is live and the driver told, and what is
    /// said of it is redacted; or the failure is said.
    #[verifier::opaque]
    pub open spec fn logged_in(self, key: Seq<char>, outcome: Result<(), Seq<char>>) -> Scene {
        match outcome {
            Ok(()) => self.run(self.session.keyed(key)).sent(
                Order::SetApiKey { key: Some(key) },
            ).noticed(
                NoticeLevel::Info,
                self.tr("api key stored"@, "api key 已保存"@) + " · "@ + credentials::redacted(key)
                    + " · "@ + CREDENTIALS_FILENAME@,
            ).redrawn(),
            Err(why) => self.noticed(
                NoticeLevel::Error,
                self.tr("login failed"@, "login 失败"@) + " · "@ + why,
            ).redrawn(),
        }
    }

    /// The store answered: a live stored key is dropped, one given by flag
    /// runs on, and what was deleted is said.
    #[verifier::opaque]
    pub open spec fn logged_out(self, outcome: Result<bool, Seq<char>>) -> Scene {
        match outcome {
            Err(why) => self.noticed(
                NoticeLevel::Error,
                self.tr("logout failed"@, "logout 失败"@) + " · "@ + why,
            ).redrawn(),
            Ok(deleted) => {
                let live = self.session.cfg.key_origin == Some(KeyOrigin::Stored);
                let s = if live {
                    self.run(self.session.keyless()).sent(Order::SetApiKey { key: None })
                } else {
                    self
                };
                let what = if deleted {
                    s.tr("stored api key removed"@, "已删除保存的 api key"@)
                } else if live {
                    s.tr(
                        "no stored key — the live key was cleared"@,
                        "没有已保存的 key — 已清除运行中的 key"@,
                    )
                } else {
                    s.tr("no stored key"@, "没有已保存的 key"@)
                };
                let note = if s.session.cfg.key_origin == Some(KeyOrigin::Flag) {
                    " · --api-key flag key keeps running"@
                } else {
                    ""@
                };
                s.noticed(NoticeLevel::Info, what + note).redrawn()
            },
        }
    }

    /// The interface in another language: the other one, or the one named.
    #[verifier::opaque]
    pub open spec fn in_language(self, arg: Seq<char>) -> Scene {
        let blank = text::trim(arg).len() == 0;
        if !blank && locale::named(arg) is None {
            self.told_tr("usage: /lang [zh|en]"@, "用法：/lang [zh|en]"@)
        } else {
            let next = if !blank {
                locale::named(arg)->0
            } else if self.locale == Locale::En {
                Locale::Zh
            } else {
                Locale::En
            };
            (Scene {
                locale: next,
                transcript: Timeline { locale: next, ..self.transcript },
                subagents: spoken(self.subagents, next),
                ..self
            }).settings_saved().told(
                if next == Locale::En {
                    "Language switched to English"@
                } else {
                    "界面语言已切换为中文"@
                },
            )
        }
    }

    #[verifier::opaque]
    pub open spec fn scrollback_cleared(self) -> Scene {
        let s = self.telling(self.transcript.cleared());
        s.chatting(ChatState { sel: None, ..s.chat }).noticed(
            NoticeLevel::Info,
            self.tr("scrollback cleared"@, "滚动区已清空"@),
        )
    }

    #[verifier::opaque]
    pub open spec fn vim_set(self, arg: Seq<char>) -> Scene {
        let on = if arg == "on"@ || arg == "1"@ {
            true
        } else if arg == "off"@ || arg == "0"@ {
            false
        } else {
            self.draft.vim.mode == VimMode::Off
        };
        let vim = VimState {
            mode: if on {
                VimMode::Insert
            } else {
                VimMode::Off
            },
            pending: None,
        };
        self.drafted(DraftState { vim, ..self.draft }).told_tr(
            "vim mode — i insert · esc normal · /vim off"@,
            "vim 模式 — i 插入 · esc 返回 normal · /vim off 关闭"@,
        )
    }

    /// A fresh session asked for, unless a switch is under way.
    #[verifier::opaque]
    pub open spec fn new_asked(self) -> Scene {
        if self.session.switch is Some {
            self
        } else {
            self.run(SessionState { switch: Some(Switch::New), ..self.session }).sent(
                Order::NewSession,
            ).told_tr("session/new …"@, "正在新建会话…"@)
        }
    }

    #[verifier::opaque]
    pub open spec fn sessions_asked(self, arg: Seq<char>) -> Scene {
        self.sent(
            Order::ListSessions {
                prefix: if arg.len() == 0 {
                    None
                } else {
                    Some(arg)
                },
            },
        ).told_tr("listing sessions…"@, "正在列出会话…"@)
    }

    #[verifier::opaque]
    pub open spec fn effort_asked(self, arg: Seq<char>) -> Scene {
        if arg.len() == 0 {
            self.sent(
                Order::FetchEfforts {
                    provider: self.session.cfg.provider,
                    model: self.session.cfg.model,
                },
            )
        } else {
            self.sent(
                Order::SelectModel {
                    session_id: self.session.id,
                    provider: None,
                    model: None,
                    effort: Some(arg),
                },
            ).run(self.session.of_effort(arg))
        }
    }

    /// `/permission`: the list, or a preset by any of its spellings; any other
    /// word is passed on as it is.
    #[verifier::opaque]
    pub open spec fn permission_worded(self, arg: Seq<char>) -> Scene {
        if arg.len() == 0 {
            self.permissions_opened()
        } else {
            match commands::stock_preset(text::small(text::trim(arg))) {
                Some(preset) => self.permission_asked(preset),
                None => self.permission_asked(arg),
            }
        }
    }

    /// `/skill`: the catalogue, or the skill's line sent as a prompt.
    #[verifier::opaque]
    pub open spec fn skill_invoked(self, arg: Seq<char>) -> Scene {
        let arg = text::trim(arg);
        let (name, rest) = word_and_rest(arg);
        if arg.len() == 0 {
            self.skills_shown()
        } else if !offers(self.session.skills, name) {
            self.noticed(
                NoticeLevel::Warn,
                self.tr("unknown skill "@, "未知技能 "@) + name + self.tr(
                    " — /skill then a space lists them"@,
                    " —— /skill 后打一个空格即可看到清单"@,
                ),
            )
        } else if rest.len() == 0 {
            self.text_sent("/"@ + name)
        } else {
            self.text_sent("/"@ + name + " "@ + rest)
        }
    }

    /// `/image`: the file to be read, where its name is that of an image.
    #[verifier::opaque]
    pub open spec fn image_asked(self, arg: Seq<char>) -> Scene {
        let (path, caption) = word_and_rest(arg);
        if path.len() == 0 {
            self.told_tr(
                "/image needs a path — /image ./pic.png [caption]"@,
                "/image 需要路径 —— /image ./pic.png [说明]"@,
            )
        } else {
            match commands::media_type(path) {
                None => self.told_tr(
                    "unsupported image — use .png .jpg .jpeg .webp .gif"@,
                    "不支持的图片格式 —— 请用 .png .jpg .jpeg .webp .gif"@,
                ),
                Some(media_type) => self.done(
                    Deed::ReadImage {
                        path,
                        media_type,
                        name: text::pieces(path, '/').last(),
                        caption,
                    },
                ),
            }
        }
    }

    /// What reading an image file led to: bytes and where they are, staged, or
    /// the failure, remarked on.
    #[verifier::opaque]
    pub open spec fn image_brought(
        self,
        path: Seq<char>,
        media_type: Seq<char>,
        name: Seq<char>,
        caption: Seq<char>,
        outcome: Result<(Seq<u8>, Seq<char>), Seq<char>>,
    ) -> Scene {
        match outcome {
            Ok((data, stored)) => self.image_staged(name, stored, media_type, data, caption),
            Err(why) => self.told(
                self.tr("cannot read"@, "无法读取"@) + " "@ + path + ": "@ + why,
            ),
        }
    }

    /// What the clipboard held: an image, staged, or none, remarked on.
    #[verifier::opaque]
    pub open spec fn clip_brought(
        self,
        caption: Seq<char>,
        found: Option<(Seq<u8>, Seq<char>)>,
    ) -> Scene {
        match found {
            Some((data, media_type)) => self.image_staged(
                "clipboard.png"@,
                "clipboard"@,
                media_type,
                data,
                caption,
            ),
            None => self.told_tr(
                "clipboard has no image, or this platform isn't supported"@,
                "剪贴板里没有图片，或当前平台不支持"@,
            ),
        }
    }

    /// What a slash command does.
    #[verifier::opaque]
    pub open spec fn commanded(self, name: Seq<char>, arg: Seq<char>) -> Scene {
        if name == "help"@ {
            self.helped()
        } else if name == "keys"@ {
            self.keys_shown()
        } else if name == "lang"@ {
            self.in_language(arg)
        } else if name == "login"@ {
            self.logging_in(arg)
        } else if name == "logout"@ {
            self.done(Deed::DeleteKey)
        } else if name == "compact"@ {
            self.sent(Order::Compact)
        } else if name == "goal"@ {
            self.sent(Order::Goal { arg })
        } else if name == "clear"@ {
            self.scrollback_cleared()
        } else if name == "quit"@ {
            Scene { quit: true, ..self }
        } else if name == "theme"@ {
            self.theme_set(arg)
        } else if name == "vim"@ {
            self.vim_set(arg)
        } else if name == "model"@ {
            if arg.len() == 0 {
                self.models_opened()
            } else {
                self.model_asked(arg)
            }
        } else if name == "new"@ {
            self.new_asked()
        } else if name == "status"@ {
            self.status_shown()
        } else if name == "skill"@ {
            self.skill_invoked(arg)
        } else if name == "resume"@ {
            self.sessions_asked(arg)
        } else if name == "effort"@ {
            self.effort_asked(arg)
        } else if name == "permission"@ {
            self.permission_worded(arg)
        } else if name == "plan"@ {
            self.text_sent(
                if arg.len() == 0 {
                    "/plan"@
                } else {
                    "/plan "@ + arg
                },
            )
        } else if name == "image"@ {
            self.image_asked(arg)
        } else if name == "clip"@ {
            self.done(Deed::ReadClipboard { caption: arg })
        } else {
            self.noticed(
                NoticeLevel::Warn,
                self.tr("unknown command /"@, "未知命令 /"@) + name + self.tr(
                    " — /help lists commands"@,
                    " — 使用 /help 查看命令"@,
                ),
            )
        }
    }

    /// A row of the slash menu accepted: its command run, but for a skill that
    /// waits for its argument, whose line is completed.
    #[verifier::opaque]
    pub open spec fn entry_accepted(self, e: Suggestion) -> Scene {
        let s = match e.completion {
            Some(line) => self.typed(self.draft.input.replaced(line)),
            None => self,
        };
        let c = s.draft.input;
        if e.name == "skill"@ && s.awaits_argument(e) {
            let line = text::trim_end(c.area.text) + " "@;
            s.drafted(DraftState { slash_sel: 0, ..s.draft.typed(c.replaced(line)) })
        } else {
            s.drafted(DraftState { slash_sel: 0, ..s.draft.typed(c.emptied()) }).commanded(
                e.name,
                argument(c.area.text, e.name),
            )
        }
    }

    /// A line put in the history, and the draft emptied.
    #[verifier::opaque]
    pub open spec fn line_kept(self, line: Seq<char>) -> Scene {
        self.typed(self.draft.input.remembered(line).emptied())
    }

    /// A slash line: a command, or a skill's line where no command has the
    /// name.
    #[verifier::opaque]
    pub open spec fn line_run(self, line: Seq<char>) -> Scene {
        let (name, arg) = match text::cut_at(line.skip(1), ' ') {
            Some((a, b)) => (a, text::trim(b)),
            None => (line.skip(1), Seq::empty()),
        };
        if !commands::is_command(name) && offers(self.session.skills, name) {
            self.line_kept(line).text_sent(line)
        } else {
            self.line_kept(line).commanded(name, arg)
        }
    }

    /// The draft with its images taken out of the composer and sent.
    #[verifier::opaque]
    pub open spec fn images_submitted(self) -> Scene {
        let s = self.typed(self.draft.input.remembered(self.draft.input.area.text));
        let t = s.tray_taken();
        t.typed(t.draft.input.emptied()).staged_sent(s.staged_pieces())
    }

    /// The draft submitted. While a session switch is under way it is kept.
    #[verifier::opaque]
    pub open spec fn submitted(self) -> Scene {
        let line = text::trim(self.draft.input.area.text);
        let images = self.draft.images.items.len() > 0;
        if self.session.switch is Some {
            self.switch_remark()
        } else if text::leads(line, '/') {
            if images {
                self.no_images_remark()
            } else {
                self.line_run(line)
            }
        } else if images {
            self.images_submitted()
        } else if line.len() == 0 {
            self
        } else {
            self.line_kept(line).text_sent(line)
        }
    }
}

pub open spec fn view_outcome(r: Result<(), String>) -> Result<(), Seq<char>> {
    match r {
        Ok(()) => Ok(()),
        Err(why) => Err(why@),
    }
}

pub open spec fn view_deletion(r: Result<bool, String>) -> Result<bool, Seq<char>> {
    match r {
        Ok(b) => Ok(b),
        Err(why) => Err(why@),
    }
}

pub open spec fn view_read(r: Result<(Vec<u8>, String), String>) -> Result<
    (Seq<u8>, Seq<char>),
    Seq<char>,
> {
    match r {
        Ok((data, path)) => Ok((data@, path@)),
        Err(why) => Err(why@),
    }
}

pub open spec fn view_clip(r: Option<(Vec<u8>, String)>) -> Option<(Seq<u8>, Seq<char>)> {
    match r {
        Some((data, media_type)) => Some((data@, media_type@)),
        None => None,
    }
}

impl App {
    /// `/login`.
    pub fn login(&mut self, arg: &str)
        ensures
            final(self)@ == old(self)@.logging_in(arg@),
    {
        reveal(Scene::logging_in);
        let key = trimmed(arg);
        if key.as_str().is_empty() {
            let status = match self.session.cfg.credential_source() {
                Some(s) => cat("api key present · ", s),
                None => String::from_str(
                    self.locale.tr(
                        "no key stored — usage: /login <apikey>",
                        "未存储 key — 用法：/login <apikey>",
                    ),
                ),
            };
            self.notice(NoticeLevel::Info, status);
            self.needs_redraw = true;
            return;
        }
        self.ctl.push(Effect::StoreKey(key));
    }

    /// What storing a key led to.
    pub fn login_finished(&mut self, key: &str, outcome: Result<(), String>)
        ensures
            final(self)@ == old(self)@.logged_in(key@, view_outcome(outcome)),
    {
        reveal(Scene::logged_in);
        match outcome {
            Ok(()) => {
                self.session.log_in(String::from_str(key));
                self.ctl.send(Cmd::SetApiKey { key: Some(String::from_str(key)) });
                let shown = redact(key);
                let t = cat5(
                    self.locale.tr("api key stored", "api key 已保存"),
                    " · ",
                    shown.as_str(),
                    " · ",
                    CREDENTIALS_FILENAME,
                );
                self.notice(NoticeLevel::Info, t);
            },
            Err(why) => {
                let t = cat3(self.locale.tr("login failed", "login 失败"), " · ", why.as_str());
                self.notice(NoticeLevel::Error, t);
            },
        }
        self.needs_redraw = true;
    }

    /// `/logout`.
    pub fn logout(&mut self)
        ensures
            final(self)@ == old(self)@.done(Deed::DeleteKey),
    {
        self.ctl.push(Effect::DeleteKey);
    }

    /// What deleting the stored key led to.
    pub fn logout_finished(&mut self, outcome: Result<bool, String>)
        ensures
            final(self)@ == old(self)@.logged_out(view_deletion(outcome)),
    {
        reveal(Scene::logged_out);
        match outcome {
            Err(why) => {
                let t = cat3(self.locale.tr("logout failed", "logout 失败"), " · ", why.as_str());
                self.notice(NoticeLevel::Error, t);
            },
            Ok(deleted) => {
                let live = match self.session.cfg.key_origin {
                    Some(KeyOrigin::Stored) => true,
                    _ => false,
                };
                if live {
                    self.session.log_out();
                    self.ctl.send(Cmd::SetApiKey { key: None });
                }
                let what = if deleted {
                    self.locale.tr("stored api key removed", "已删除保存的 api key")
                } else if live {
                    self.locale.tr(
                        "no stored key — the live key was cleared",
                        "没有已保存的 key — 已清除运行中的 key",
                    )
                } else {
                    self.locale.tr("no stored key", "没有已保存的 key")
                };
                let note = match self.session.cfg.key_origin {
                    Some(KeyOrigin::Flag) => " · --api-key flag key keeps running",
                    _ => "",
                };
                let t = cat(what, note);
                self.notice(NoticeLevel::Info, t);
            },
        }
        self.needs_redraw = true;
    }

    /// `/lang`.
    pub fn set_locale(&mut self, arg: &str)
        ensures
            final(self)@ == old(self)@.in_language(arg@),
    {
        reveal(Scene::in_language);
        let t = trimmed(arg);
        let next = if t.as_str().is_empty() {
            self.locale.alternate()
        } else {
            match Locale::parse(arg) {
                Some(l) => l,
                None => {
                    self.tip_tr("usage: /lang [zh|en]", "用法：/lang [zh|en]");
                    return;
                },
            }
        };
        self.locale = next;
        self.transcript.set_locale(next);
        speak(&mut self.subagents, next);
        self.save_settings();
        self.show_tip(
            String::from_str(
                match next {
                    Locale::En => "Language switched to English",
                    Locale::Zh => "界面语言已切换为中文",
                },
            ),
        );
    }

    pub fn clear_scrollback(&mut self)
        ensures
            final(self)@ == old(self)@.scrollback_cleared(),
    {
        reveal(Scene::scrollback_cleared);
        self.transcript.clear();
        self.chat.sel = None;
        let t = String::from_str(self.locale.tr("scrollback cleared", "滚动区已清空"));
        self.notice(NoticeLevel::Info, t);
    }

    fn set_vim(&mut self, arg: &str)
        ensures
            final(self)@ == old(self)@.vim_set(arg@),
    {
        reveal(Scene::vim_set);
        let on = if same(arg, "on") || same(arg, "1") {
            true
        } else if same(arg, "off") || same(arg, "0") {
            false
        } else {
            !self.draft.vim.is_active()
        };
        self.draft.vim.set(on);
        self.tip_tr(
            "vim mode — i insert · esc normal · /vim off",
            "vim 模式 — i 插入 · esc 返回 normal · /vim off 关闭",
        );
    }

    fn ask_new(&mut self)
        ensures
            final(self)@ == old(self)@.new_asked(),
    {
        reveal(Scene::new_asked);
        if self.session.session_switch.is_some() {
            return;
        }
        self.session.session_switch = Some(SessionSwitch::New);
        self.ctl.send(Cmd::NewSession);
        self.tip_tr("session/new …", "正在新建会话…");
    }

    /// `/resume`: the sessions that begin so, or all of them.
    pub fn open_resume_picker(&mut self, arg: &str)
        ensures
            final(self)@ == old(self)@.sessions_asked(arg@),
    {
        reveal(Scene::sessions_asked);
        let prefix = if arg.is_empty() {
            None
        } else {
            Some(String::from_str(arg))
        };
        self.ctl.send(Cmd::ListSessions { prefix });
        self.tip_tr("listing sessions…", "正在列出会话…");
    }

    fn ask_effort(&mut self, arg: &str)
        ensures
            final(self)@ == old(self)@.effort_asked(arg@),
    {
        reveal(Scene::effort_asked);
        if arg.is_empty() {
            let provider = self.session.cfg.provider.clone();
            let model = self.session.cfg.model.clone();
            self.ctl.send(Cmd::FetchEfforts { provider, model });
        } else {
            let session_id = self.session.session_id.clone();
            self.ctl.send(
                Cmd::SelectModel {
                    session_id,
                    provider: None,
                    model: None,
                    effort: Some(String::from_str(arg)),
                },
            );
            self.session.set_effort(String::from_str(arg));
        }
    }

    fn ask_permission(&mut self, arg: &str)
        ensures
            final(self)@ == old(self)@.permission_worded(arg@),
    {
        reveal(Scene::permission_worded);
        if arg.is_empty() {
            self.open_permission_picker();
            return;
        }
        match normalize_permission(arg) {
            Some(preset) => self.set_permission(String::from_str(preset)),
            None => self.set_permission(String::from_str(arg)),
        }
    }

    /// `/skill`.
    pub fn invoke_skill(&mut self, arg: &str)
        ensures
            final(self)@ == old(self)@.skill_invoked(arg@),
    {
        reveal(Scene::skill_invoked);
        let arg = trimmed(arg);
        if arg.as_str().is_empty() {
            self.open_skills_dialog();
            return;
        }
        let (name, rest) = split_word(arg.as_str());
        if !has_skill(&self.session.skills, name.as_str()) {
            let t = cat3(
                self.locale.tr("unknown skill ", "未知技能 "),
                name.as_str(),
                self.locale.tr(
                    " — /skill then a space lists them",
                    " —— /skill 后打一个空格即可看到清单",
                ),
            );
            self.notice(NoticeLevel::Warn, t);
            return;
        }
        let line = if rest.as_str().is_empty() {
            cat("/", name.as_str())
        } else {
            cat4("/", name.as_str(), " ", rest.as_str())
        };
        self.send_agent_text(line);
    }

    /// `/image`.
    pub fn send_image(&mut self, arg: &str)
        ensures
            final(self)@ == old(self)@.image_asked(arg@),
    {
        reveal(Scene::image_asked);
        let (path, caption) = split_word(arg);
        if path.as_str().is_empty() {
            self.tip_tr(
                "/image needs a path — /image ./pic.png [caption]",
                "/image 需要路径 —— /image ./pic.png [说明]",
            );
            return;
        }
        match media_type_for(path.as_str()) {
            None => {
                self.tip_tr(
                    "unsupported image — use .png .jpg .jpeg .webp .gif",
                    "不支持的图片格式 —— 请用 .png .jpg .jpeg .webp .gif",
                );
            },
            Some(media_type) => {
                let name = last_piece(path.as_str(), '/');
                self.ctl.push(
                    Effect::ReadImage {
                        path,
                        media_type: String::from_str(media_type),
                        name,
                        caption,
                    },
                );
            },
        }
    }

    /// What reading an image file led to: its bytes and where it is, or why it
    /// cannot be read.
    pub fn image_read(
        &mut self,
        path: &str,
        media_type: String,
        name: String,
        caption: String,
        outcome: Result<(Vec<u8>, String), String>,
    )
        ensures
            final(self)@ == old(self)@.image_brought(
                path@,
                media_type@,
                name@,
                caption@,
                view_read(outcome),
            ),
    {
        reveal(Scene::image_brought);
        match outcome {
            Ok((data, stored)) => {
                self.stage_image(name, stored, media_type, data, caption);
            },
            Err(why) => {
                let t = cat5(
                    self.locale.tr("cannot read", "无法读取"),
                    " ",
                    path,
                    ": ",
                    why.as_str(),
                );
                self.show_tip(t);
            },
        }
    }

    /// `/clip`, and the paste of an image.
    pub fn clip_image(&mut self, caption: &str)
        ensures
            final(self)@ == old(self)@.done(Deed::ReadClipboard { caption: caption@ }),
    {
        self.ctl.push(Effect::ReadClipboard { caption: String::from_str(caption) });
    }

    /// What the clipboard held: an image and its type, or none.
    pub fn clipboard_read(&mut self, caption: String, found: Option<(Vec<u8>, String)>)
        ensures
            final(self)@ == old(self)@.clip_brought(caption@, view_clip(found)),
    {
        reveal(Scene::clip_brought);
        match found {
            Some((data, media_type)) => {
                self.stage_image(
                    String::from_str("clipboard.png"),
                    String::from_str("clipboard"),
                    media_type,
                    data,
                    caption,
                );
            },
            None => {
                self.tip_tr(
                    "clipboard has no image, or this platform isn't supported",
                    "剪贴板里没有图片，或当前平台不支持",
                );
            },
        }
    }

    fn ask_model(&mut self, arg: &str)
        ensures
            final(self)@ == if arg@.len() == 0 {
                old(self)@.models_opened()
            } else {
                old(self)@.model_asked(arg@)
            },
    {
        if arg.is_empty() {
            self.open_model_picker();
        } else {
            self.set_model(String::from_str(arg));
        }
    }

    fn send(&mut self, cmd: Cmd)
        ensures
            final(self)@ == old(self)@.sent(cmd@),
    {
        self.ctl.send(cmd);
    }

    fn unknown(&mut self, name: &str)
        ensures
            final(self)@ == old(self)@.noticed(
                NoticeLevel::Warn,
                old(self)@.tr("unknown command /"@, "未知命令 /"@) + name@ + old(self)@.tr(
                    " — /help lists commands"@,
                    " — 使用 /help 查看命令"@,
                ),
            ),
    {
        let t = cat3(
            self.locale.tr("unknown command /", "未知命令 /"),
            name,
            self.locale.tr(" — /help lists commands", " — 使用 /help 查看命令"),
        );
        self.notice(NoticeLevel::Warn, t);
    }

    /// Run a slash command.
    pub fn run_slash(&mut self, name: &str, arg: &str)
        ensures
            final(self)@ == old(self)@.commanded(name@, arg@),
    {
        reveal(Scene::commanded);
        if same(name, "help") {
            self.push_help();
        } else if same(name, "keys") {
            self.push_keys();
        } else if same(name, "lang") {
            self.set_locale(arg);
        } else if same(name, "login") {
            self.login(arg);
        } else if same(name, "logout") {
            self.logout();
        } else if same(name, "compact") {
            self.send(Cmd::Compact);
        } else if same(name, "goal") {
            self.send(Cmd::Goal { arg: String::from_str(arg) });
        } else if same(name, "clear") {
            self.clear_scrollback();
        } else if same(name, "quit") {
            self.quit = true;
        } else if same(name, "theme") {
            self.apply_theme_arg(arg);
        } else if same(name, "vim") {
            self.set_vim(arg);
        } else if same(name, "model") {
            self.ask_model(arg);
        } else if same(name, "new") {
            self.ask_new();
        } else if same(name, "status") {
            self.open_status_dialog();
        } else if same(name, "skill") {
            self.invoke_skill(arg);
        } else if same(name, "resume") {
            self.open_resume_picker(arg);
        } else if same(name, "effort") {
            self.ask_effort(arg);
        } else if same(name, "permission") {
            self.ask_permission(arg);
        } else if same(name, "plan") {
            let line = if arg.is_empty() {
                String::from_str("/plan")
            } else {
                cat("/plan ", arg)
            };
            self.send_agent_text(line);
        } else if same(name, "image") {
            self.send_image(arg);
        } else if same(name, "clip") {
            self.clip_image(arg);
        } else {
            self.unknown(name);
        }
    }

    /// Accept a row of the slash menu.
    pub fn accept_slash(&mut self, entry: &SlashEntry)
        ensures
            final(self)@ == old(self)@.entry_accepted(entry@),
    {
        reveal(Scene::entry_accepted);
        match &entry.completion {
            Some(line) => self.draft.input.set(line.clone()),
            None => {},
        }
        if same(entry.name.as_str(), "skill") && self.skill_candidate_awaits_args(entry) {
            let buf = self.draft.input.buf();
            let kept = end_trimmed(buf.as_str());
            self.draft.input.set(cat(kept.as_str(), " "));
            self.draft.slash_sel = 0;
            return;
        }
        let line = self.draft.input.buf();
        let rest = argument_of(line.as_str(), entry.name.as_str());
        self.draft.input.clear();
        self.draft.slash_sel = 0;
        self.run_slash(entry.name.as_str(), rest.as_str());
    }

    fn remember(&mut self, line: &str)
        ensures
            final(self)@ == old(self)@.typed(old(self)@.draft.input.remembered(line@)),
    {
        let ghost before = self.draft.input@.history;
        self.draft.input.history.push(String::from_str(line));
        assert(text::views(self.draft.input.history@) == before.push(line@));
        assert(self.draft.input@ == old(self)@.draft.input.remembered(line@));
    }

    fn empty_draft(&mut self)
        ensures
            final(self)@ == old(self)@.typed(old(self)@.draft.input.emptied()),
    {
        self.draft.input.clear();
    }

    fn keep_line(&mut self, line: &str)
        ensures
            final(self)@ == old(self)@.line_kept(line@),
    {
        reveal(Scene::line_kept);
        self.remember(line);
        self.empty_draft();
    }

    fn run_line(&mut self, line: &str)
        requires
            text::leads(line@, '/'),
        ensures
            final(self)@ == old(self)@.line_run(line@),
    {
        reveal(Scene::line_run);
        let body = tail(line, 1);
        let (name, arg) = match split_once(body.as_str(), ' ') {
            Some((a, b)) => (a, trimmed(b.as_str())),
            None => (body, String::new()),
        };
        let skill = !is_builtin(name.as_str()) && has_skill(&self.session.skills, name.as_str());
        self.keep_line(line);
        if skill {
            self.send_agent_text(String::from_str(line));
        } else {
            self.run_slash(name.as_str(), arg.as_str());
        }
    }

    fn submit_images(&mut self)
        ensures
            final(self)@ == old(self)@.images_submitted(),
    {
        reveal(Scene::images_submitted);
        let line = self.draft.input.buf();
        self.remember(line.as_str());
        let staged = self.take_staged_blocks();
        self.empty_draft();
        self.send_staged(staged);
    }

    /// Submit the draft.
    pub fn submit(&mut self)
        ensures
            final(self)@ == old(self)@.submitted(),
    {
        reveal(Scene::submitted);
        if self.waiting_for_session_switch() {
            return;
        }
        let buf = self.draft.input.buf();
        let line = trimmed(buf.as_str());
        let images = !self.draft.pending_images.is_empty();
        if starts_with_char(line.as_str(), '/') {
            if images {
                self.tip_tr(
                    "send or delete the [image] chips first — /commands don't take images",
                    "先发送或删除草稿里的 [image] 图片 —— / 命令不接收图片",
                );
            } else {
                self.run_line(line.as_str());
            }
        } else if images {
            self.submit_images();
        } else if line.as_str().is_empty() {
        } else {
            self.keep_line(line.as_str());
            self.send_agent_text(line);
        }
    }

    /// Submit a line that was not typed.
    pub fn auto_prompt(&mut self, line: &str)
        ensures
            final(self)@ == old(self)@.typed(
                old(self)@.draft.input.replaced(line@),
            ).submitted(),
    {
        self.draft.input.set(String::from_str(line));
        self.submit();
    }
}

} // verus!
