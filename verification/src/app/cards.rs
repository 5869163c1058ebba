//! The read-only cards, and the words the client puts in the timeline or
//! leaves behind.

use vstd::prelude::*;
use vstd::string::*;
use crate::app::{App, Scene};
use crate::app::state::{PanelState, RunState, SessionState};
use crate::bus::SkillInfo;
use crate::commands;
use crate::commands::{permission_label, SKILLS_DIR};
use crate::input::keymap;
use crate::input::keymap::keys_markdown;
use crate::locale;
use crate::locale::Locale;
use crate::measure;
use crate::measure::{fmt_duration, fmt_tokens, percent};
use crate::picker::{Card, ViewOverlay};
use crate::text;
use crate::text::{cat, cat3, cat4, cat5, number, same};
use crate::transcript::{Note, Stats, Usage};

verus! {

pub const HELP_EN: &'static str = "- enter · send · queues a follow-up while a turn runs (an empty draft sends the queue head now)\n- ctrl+enter · steer the active turn immediately (legacy terminals fall back to plain enter)\n- ⌥↑ · queued follow-ups: ↑/↓ select · enter edit · ctrl+d twice deletes a row · esc close\n- ctrl+x · cut the selection · ctrl+shift+c · copy it\n- esc · interrupt (draft survives) · clears the draft when idle\n- ctrl+c · clear a draft; 2× quits with no draft (never interrupts)\n- shift+tab · cycle permission (workspace-write ⇄ full access) · /permission opens the preset picker\n- ctrl+p · model picker → effort picker\n- /effort · reasoning effort · /permission preset · /plan plan mode\n- /vim · toggle vim modal editing (/vim on|off, off by default)\n- /login · store the API key in the aby home (never echoed in full)\n- /logout · remove the stored API key (a --api-key override keeps running)\n- /resume · pick up a durable session — transcript replays, log continues\n- /image · stage a local image — /image ./pic.png [caption]\n- /clip · stage the clipboard image — /clip [caption] · ctrl+v also works\n- !cmd · run in the session's local shell (not the agent); starts in the workspace, keeps cd/env across commands\n- /<skill> · a hand-typed skill line — the agent injects the skill's body (skills never list under /)\n- /skill · list or run this workspace's skills (`.agents/skills/`) — `/skill ` opens the catalog, Tab completes\n- ctrl+o · expand thoughts + tool output · ctrl+l · clear\n- editing · readline chords + ⌘/⌥ arrows (ctrl+arrows elsewhere) · full map in /keys\n- click tool · expand/collapse that tool · wheel scrolls the conversation\n- pgup/pgdn · scroll · mouse wheel works · end follows the tail\n- mouse drag · select text — copied on release · 2×click copies a word\n\nPer turn: streamed reasoning, answer, tool calls with results, injected\ncontext, subagent lifecycles, token usage (incl. cache hits), end reason.";

pub const HELP_ZH: &'static str = "- enter · 发送；当前轮次运行时将后续消息排队（草稿为空时立即发送队首）\n- ctrl+enter · 立即 steer 当前轮次（老终端会退化成普通 enter）\n- ⌥↑ · 排队的后续消息：↑/↓ 选择 · enter 编辑 · 列表中 ctrl+d 连按两次删除 · esc 关闭\n- ctrl+x · 剪切选区 · ctrl+shift+c · 复制选区\n- esc · 中断（保留草稿）；空闲时清除草稿\n- ctrl+c · 有草稿先清除；无草稿时连按 2 次退出（不中断）\n- shift+tab · 轮换权限预设 · /permission 打开选择器\n- ctrl+p · 打开模型选择器，然后选择推理强度\n- /lang · 切换界面语言：/lang zh 或 /lang en\n- /login · 保存 API key 到 aby 主目录，不回显明文\n- /logout · 删除已保存的 API key\n- /effort · 推理强度 · /permission 权限预设 · /plan 计划模式\n- /vim · 切换 vim 模态编辑（/vim on|off，默认关闭）\n- /resume · 恢复持久会话并继续写入原日志\n- /image · 暂存本地图片：/image ./pic.png [说明]\n- /clip · 暂存剪贴板图片；ctrl+v 同样可用\n- !cmd · 在会话级本地 shell 中运行命令，不经过 Agent；初始目录为 workspace，cd/环境变量跨命令保留\n- /<skill> · 手打的技能行由 Agent 注入技能正文（技能不进 / 菜单）\n- /skill · 列出/调用本工作区的技能（`.agents/skills/`）：/skill <名字> [参数]；空格后是候选清单\n- ctrl+o · 展开思考和工具输出 · ctrl+l · 清屏\n- 编辑 · readline 组合键 + ⌘/⌥ 方向键 · 完整映射见 /keys\n- 点击工具 · 展开/折叠 · 滚轮滚动对话\n- pgup/pgdn · 翻页 · end 回到最新消息\n- 鼠标拖动 · 选择并复制文本 · 双击复制单词\n\n每轮会显示：流式思考与回答、工具调用与结果、注入上下文、Subagent 生命周期、\ntoken 用量（含缓存命中）以及轮次结束原因。";

pub const NO_KEY_EN: &'static str = "## No API key detected\n\n1. Open <https://platform.deepseek.com/> → API keys, create and copy a key\n2. Enter in the composer (takes effect immediately — no restart needed):\n\n   /login sk-xxxxxxxx\n\n3. The key lands in `~/.abylab/.credentials.yaml` (0600, owner-only);\n   `/status` shows its source · `/logout` removes the stored key\n\n`--api-key <key>` can override for this run only (never persisted).";

pub const NO_KEY_ZH: &'static str = "## 尚未检测到 API key\n\n1. 打开 <https://platform.deepseek.com/> → API keys，创建并复制你的 key\n2. 在输入框输入（保存后立刻生效，无需重启）：\n\n   /login sk-xxxxxxxx\n\n3. key 保存在 `~/.abylab/.credentials.yaml`（0600，仅本用户可读）；\n   `/status` 查看凭据来源 · `/logout` 删除已保存的 key\n\n本次运行也可以用 `--api-key <key>` 临时覆盖（不落盘）。";

/// The project's site, under the wordmark.
pub const SITE_URL: &'static str = "https://abylab.ai";

/// The wordmark.
pub open spec fn logo() -> Seq<Seq<char>> {
    seq!["▄▀█ █▄▄ █▄█ █   ▄▀█ █▄▄"@, "█▀█ █▄█  █  █▄▄ █▀█ █▄█"@]
}

/// The share of a session's input that came from the cache, in percent.
pub open spec fn cache_share(u: Usage) -> int {
    let p = measure::share(u.cached as int, u.input as int);
    if p <= u64::MAX {
        p
    } else {
        u64::MAX as int
    }
}

/// The counters of a session, as the status card lists them.
pub open spec fn counters(u: Usage, s: Stats) -> Seq<char> {
    let llm = if s.turn_millis >= s.tool_millis {
        s.turn_millis - s.tool_millis
    } else {
        0
    };
    let rows = "\n- tokens · ↑"@ + measure::token_count(u.input as int) + " ↓"@
        + measure::token_count(u.output as int) + " · cache "@ + text::decimal(
        cache_share(u) as nat,
    ) + "%\n- turns · "@ + text::decimal(s.turns as nat) + " · steps · "@ + text::decimal(
        s.steps as nat,
    ) + "\n- LLM · "@ + measure::duration(llm) + " · tool · "@ + measure::duration(
        s.tool_millis as int,
    );
    if s.ttft_count > 0 {
        rows + "\n- TTFT avg · "@ + measure::duration(
            s.ttft_total_millis as int / s.ttft_count as int,
        )
    } else {
        rows
    }
}

impl SessionState {
    pub open spec fn credentials(self) -> Seq<char> {
        if self.cfg.api_key is None {
            "no api key — /login <apikey> stores one"@
        } else {
            match self.cfg.source() {
                Some(s) => "api key present · "@ + s,
                None => "api key present"@,
            }
        }
    }

    /// The permission as the status card shows it: the preset reported, or the
    /// file policy, or the default.
    pub open spec fn shown_permission(self) -> Seq<char> {
        match self.modes.permission {
            Some(p) => p,
            None => match self.modes.sandbox {
                Some(s) => s,
                None => "danger-full-access"@,
            },
        }
    }

    pub open spec fn session_line(self) -> Seq<char> {
        if self.bound {
            "- session · "@ + self.id + (match self.title {
                Some(t) => " · "@ + t,
                None => ""@,
            }) + "\n"@
        } else {
            "- session · unbound\n"@
        }
    }

    pub open spec fn server_line(self) -> Seq<char> {
        match self.server {
            Some(s) => "- server · "@ + s + "\n"@,
            None => ""@,
        }
    }

    pub open spec fn effort_line(self) -> Seq<char> {
        match self.modes.effort {
            Some(e) => "\n- effort · "@ + e,
            None => ""@,
        }
    }
}

/// A permission as it reads in the interface language.
pub open spec fn permission_words(locale: Locale, id: Seq<char>) -> Seq<char> {
    if locale == Locale::Zh && id == "read-only"@ {
        "只读"@
    } else if locale == Locale::Zh && id == "workspace-write"@ {
        "工作区可写"@
    } else if locale == Locale::Zh && id == "danger-full-access"@ {
        "完全访问"@
    } else {
        commands::label_of(id)
    }
}

/// The line of a skill: how it is called, what it does, and where it is from.
pub open spec fn skill_line(s: SkillInfo) -> Seq<char> {
    "- `/"@ + s.name@ + (match s.input_hint {
        Some(h) => " "@ + h@,
        None => ""@,
    }) + "` · "@ + s.description@ + (match s.source {
        Some(p) => "\n  `"@ + p@ + "`"@,
        None => ""@,
    }) + "\n"@
}

/// The lines of the first `n` skills.
pub open spec fn skill_lines(skills: Seq<SkillInfo>, n: int) -> Seq<char>
    decreases n,
{
    if n <= 0 {
        Seq::empty()
    } else {
        skill_lines(skills, n - 1) + skill_line(skills[n - 1])
    }
}

impl Scene {
    pub open spec fn carded(self, title: Seq<char>, text: Seq<char>) -> Scene {
        Scene {
            panels: PanelState { card: Some(Card { title, text, scroll: 0 }), ..self.panels },
            ..self
        }
    }

    #[verifier::opaque]
    pub open spec fn helped(self) -> Scene {
        self.carded(self.tr("Help"@, "帮助"@), self.tr(HELP_EN@, HELP_ZH@))
    }

    #[verifier::opaque]
    pub open spec fn keys_shown(self) -> Scene {
        self.carded(
            self.tr("Keyboard shortcuts"@, "快捷键"@),
            keymap::keys_map(self.locale == Locale::Zh, self.host.mac),
        )
    }

    pub open spec fn state_words(self) -> Seq<char> {
        match self.session.state {
            RunState::Idle => self.tr("idle"@, "空闲"@),
            RunState::Starting => self.tr("starting"@, "启动中"@),
            RunState::Running => self.tr("running"@, "工作中"@),
        }
    }

    /// The status card: the run, the session, the key, the server, the model,
    /// the modes and the counters.
    #[verifier::opaque]
    pub open spec fn status_text(self) -> Seq<char> {
        let r = self.session;
        "- state · "@ + self.state_words() + "\n"@ + r.session_line() + "- credentials · "@
            + r.credentials() + "\n"@ + r.server_line() + "- model · "@ + r.cfg.model
            + r.effort_line() + "\n- permission · "@ + permission_words(
            self.locale,
            r.shown_permission(),
        ) + "\n- plan · "@ + (if r.modes.plan {
            "on"@
        } else {
            "off"@
        }) + counters(self.transcript.usage, self.transcript.stats)
    }

    #[verifier::opaque]
    pub open spec fn status_shown(self) -> Scene {
        self.carded(self.tr("Status"@, "状态"@), self.status_text())
    }

    /// The skills card: what can be invoked, or where to put what could be.
    #[verifier::opaque]
    pub open spec fn skills_text(self) -> Seq<char> {
        let skills = self.session.skills;
        let dir = self.session.cfg.workspace + "/"@ + SKILLS_DIR@;
        if skills.len() == 0 {
            "- "@ + self.tr("no skills in this workspace"@, "本工作区没有技能"@) + "\n- "@
                + self.tr("skills live in `"@, "技能放在 `"@) + dir + self.tr(
                "/`: `<name>.md` or `<name>/SKILL.md`"@,
                "/`：`<名字>.md` 或 `<名字>/SKILL.md`"@,
            ) + "\n"@ + self.tr(
                "A skill is a markdown file: optional `---` frontmatter with `name`, `description` and `input-hint`, then the instructions. abylab reads them at startup — restart after adding one."@,
                "技能就是一个 markdown 文件：可选的 `---` frontmatter 写 `name`、`description`、`input-hint`，然后是正文指令。abylab 在启动时读取，加完要重启。"@,
            )
        } else {
            skill_lines(skills, skills.len() as int) + self.tr(
                "\nA skill line ships as a prompt; the agent injects that file's body. Skills never list under `/` — this catalog and `/skill ` candidates are the only place they show up."@,
                "\n技能行会作为提示词发出，正文由 Agent 注入。技能不会出现在 / 菜单里：这里和 /skill 的习惯候选就是它们唯一的展示位置。"@,
            )
        }
    }

    #[verifier::opaque]
    pub open spec fn skills_shown(self) -> Scene {
        self.carded(self.tr("Skills"@, "技能"@), self.skills_text())
    }

    /// Where to get a key, and how to store it.
    #[verifier::opaque]
    pub open spec fn onboarded(self) -> Scene {
        self.telling(
            self.transcript.with(Note::Markdown { text: self.tr(NO_KEY_EN@, NO_KEY_ZH@) }),
        ).redrawn()
    }

    /// What is left behind on leaving: the session's id, and the ways back.
    pub open spec fn farewell(self) -> Seq<char> {
        let id = self.session.id;
        self.tr("Session id: "@, "会话 id："@) + id + self.tr(
            "\nResume it later: abylab --session-id "@,
            "\n下次继续：abylab --session-id "@,
        ) + id + self.tr(
            " · or pick it with /resume"@,
            " · 也可以在程序里用 /resume 选择"@,
        )
    }

    /// The model, and the effort asked for where there is one.
    pub open spec fn model_words(self) -> Seq<char> {
        let r = self.session;
        if r.modes.effort is Some && r.modes.effort->0.len() > 0 {
            r.cfg.model + " · "@ + self.tr("effort"@, "推理强度"@) + " "@ + r.modes.effort->0
        } else {
            r.cfg.model
        }
    }

    /// The wordmark, the site and the facts of a launch.
    #[verifier::opaque]
    pub open spec fn bannered(self, version: Seq<char>) -> Scene {
        self.telling(
            self.transcript.with(
                Note::Banner {
                    art: logo(),
                    url: SITE_URL@,
                    facts: seq![
                        (self.tr("version"@, "版本"@), version),
                        (self.tr("cwd"@, "工作目录"@), self.session.cfg.workspace),
                        (self.tr("permission"@, "权限"@), self.session.permission()),
                        (self.tr("model"@, "模型"@), self.model_words()),
                    ],
                },
            ),
        )
    }
}

fn counter_rows(u: Usage, s: Stats) -> (r: String)
    ensures
        r@ == counters(u, s),
{
    let mut t = String::from_str("\n- tokens · ↑");
    let v = fmt_tokens(u.input);
    t.append(v.as_str());
    t.append(" ↓");
    let v = fmt_tokens(u.output);
    t.append(v.as_str());
    t.append(" · cache ");
    let p: u128 = percent(u.cached, u.input);
    let p: u64 = if p <= u64::MAX as u128 {
        p as u64
    } else {
        u64::MAX
    };
    let v = number(p);
    t.append(v.as_str());
    t.append("%\n- turns · ");
    let v = number(s.turns);
    t.append(v.as_str());
    t.append(" · steps · ");
    let v = number(s.steps);
    t.append(v.as_str());
    t.append("\n- LLM · ");
    let v = fmt_duration(s.turn_millis.saturating_sub(s.tool_millis));
    t.append(v.as_str());
    t.append(" · tool · ");
    let v = fmt_duration(s.tool_millis);
    t.append(v.as_str());
    if s.ttft_count > 0 {
        t.append("\n- TTFT avg · ");
        let v = fmt_duration(s.ttft_total_millis / s.ttft_count);
        t.append(v.as_str());
    }
    t
}

fn skill_row(s: &SkillInfo) -> (r: String)
    ensures
        r@ == skill_line(*s),
{
    let hint = match &s.input_hint {
        Some(h) => cat(" ", h.as_str()),
        None => String::from_str(""),
    };
    let source = match &s.source {
        Some(p) => cat3("\n  `", p.as_str(), "`"),
        None => String::from_str(""),
    };
    let mut t = String::from_str("- `/");
    t.append(s.name.as_str());
    t.append(hint.as_str());
    t.append("` · ");
    t.append(s.description.as_str());
    t.append(source.as_str());
    t.append("\n");
    t
}

fn skill_rows(skills: &Vec<SkillInfo>) -> (r: String)
    ensures
        r@ == skill_lines(skills@, skills@.len() as int),
{
    let mut t = String::new();
    let mut i: usize = 0;
    assert(t@ == Seq::<char>::empty());
    while i < skills.len()
        invariant
            i <= skills.len(),
            t@ == skill_lines(skills@, i as int),
        decreases skills.len() - i,
    {
        let row = skill_row(&skills[i]);
        t.append(row.as_str());
        i += 1;
    }
    t
}

fn permission_phrase(locale: Locale, id: &str) -> (r: String)
    ensures
        r@ == permission_words(locale, id@),
{
    if locale == Locale::Zh {
        if same(id, "read-only") {
            return String::from_str("只读");
        }
        if same(id, "workspace-write") {
            return String::from_str("工作区可写");
        }
        if same(id, "danger-full-access") {
            return String::from_str("完全访问");
        }
    }
    permission_label(id)
}

impl App {
    fn show_card(&mut self, title: String, text: String)
        ensures
            final(self)@ == old(self)@.carded(title@, text@),
    {
        self.panels.view_overlay = Some(ViewOverlay { title, text, scroll: 0 });
    }

    pub fn push_help(&mut self)
        ensures
            final(self)@ == old(self)@.helped(),
    {
        reveal(Scene::helped);
        let title = String::from_str(self.locale.tr("Help", "帮助"));
        let text = String::from_str(self.locale.tr(HELP_EN, HELP_ZH));
        self.show_card(title, text);
    }

    pub fn push_keys(&mut self)
        ensures
            final(self)@ == old(self)@.keys_shown(),
    {
        reveal(Scene::keys_shown);
        let title = String::from_str(self.locale.tr("Keyboard shortcuts", "快捷键"));
        let text = keys_markdown(self.locale == Locale::Zh, self.host.mac);
        self.show_card(title, text);
    }

    /// Where the live key comes from, in words.
    pub fn credential_line(&self) -> (r: String)
        ensures
            r@ == self@.session.credentials(),
    {
        if !self.session.cfg.has_credentials() {
            return String::from_str("no api key — /login <apikey> stores one");
        }
        match self.session.cfg.credential_source() {
            Some(s) => cat("api key present · ", s),
            None => String::from_str("api key present"),
        }
    }

    fn status_body(&self) -> (r: String)
        ensures
            r@ == self@.status_text(),
    {
        reveal(Scene::status_text);
        let state = match self.session.state {
            RunState::Idle => self.locale.tr("idle", "空闲"),
            RunState::Starting => self.locale.tr("starting", "启动中"),
            RunState::Running => self.locale.tr("running", "工作中"),
        };
        let line = self.session_row();
        let key = self.credential_line();
        let server = match &self.session.server_info {
            Some(s) => cat3("- server · ", s.as_str(), "\n"),
            None => String::from_str(""),
        };
        let effort = match &self.session.modes.effort {
            Some(e) => cat("\n- effort · ", e.as_str()),
            None => String::from_str(""),
        };
        let perm = match &self.session.modes.permission {
            Some(p) => p.clone(),
            None => match &self.session.modes.sandbox {
                Some(s) => s.clone(),
                None => String::from_str("danger-full-access"),
            },
        };
        let perm = permission_phrase(self.locale, perm.as_str());
        let rows = counter_rows(self.transcript.usage, self.transcript.stats);
        let mut t = String::from_str("- state · ");
        t.append(state);
        t.append("\n");
        t.append(line.as_str());
        t.append("- credentials · ");
        t.append(key.as_str());
        t.append("\n");
        t.append(server.as_str());
        t.append("- model · ");
        t.append(self.session.cfg.model.as_str());
        t.append(effort.as_str());
        t.append("\n- permission · ");
        t.append(perm.as_str());
        t.append("\n- plan · ");
        t.append(
            if self.session.modes.plan {
                "on"
            } else {
                "off"
            },
        );
        t.append(rows.as_str());
        t
    }

    fn session_row(&self) -> (r: String)
        ensures
            r@ == self@.session.session_line(),
    {
        if !self.session.session_bound {
            return String::from_str("- session · unbound\n");
        }
        let title = match &self.session.session_title {
            Some(t) => cat(" · ", t.as_str()),
            None => String::from_str(""),
        };
        cat4("- session · ", self.session.session_id.as_str(), title.as_str(), "\n")
    }

    /// Open the status card.
    pub fn open_status_dialog(&mut self)
        ensures
            final(self)@ == old(self)@.status_shown(),
    {
        reveal(Scene::status_shown);
        let text = self.status_body();
        let title = String::from_str(self.locale.tr("Status", "状态"));
        self.show_card(title, text);
    }

    fn skills_body(&self) -> (r: String)
        ensures
            r@ == self@.skills_text(),
    {
        reveal(Scene::skills_text);
        let l = self.locale;
        if self.session.skills.len() == 0 {
            let dir = cat3(self.session.cfg.workspace.as_str(), "/", SKILLS_DIR);
            let mut t = String::from_str("- ");
            t.append(l.tr("no skills in this workspace", "本工作区没有技能"));
            t.append("\n- ");
            t.append(l.tr("skills live in `", "技能放在 `"));
            t.append(dir.as_str());
            t.append(
                l.tr(
                    "/`: `<name>.md` or `<name>/SKILL.md`",
                    "/`：`<名字>.md` 或 `<名字>/SKILL.md`",
                ),
            );
            t.append("\n");
            t.append(
                l.tr(
                    "A skill is a markdown file: optional `---` frontmatter with `name`, `description` and `input-hint`, then the instructions. abylab reads them at startup — restart after adding one.",
                    "技能就是一个 markdown 文件：可选的 `---` frontmatter 写 `name`、`description`、`input-hint`，然后是正文指令。abylab 在启动时读取，加完要重启。",
                ),
            );
            t
        } else {
            let mut t = skill_rows(&self.session.skills);
            t.append(
                l.tr(
                    "\nA skill line ships as a prompt; the agent injects that file's body. Skills never list under `/` — this catalog and `/skill ` candidates are the only place they show up.",
                    "\n技能行会作为提示词发出，正文由 Agent 注入。技能不会出现在 / 菜单里：这里和 /skill 的习惯候选就是它们唯一的展示位置。",
                ),
            );
            t
        }
    }

    /// Open the skills card.
    pub fn open_skills_dialog(&mut self)
        ensures
            final(self)@ == old(self)@.skills_shown(),
    {
        reveal(Scene::skills_shown);
        let text = self.skills_body();
        let title = String::from_str(self.locale.tr("Skills", "技能"));
        self.show_card(title, text);
    }

    /// Say where to get a key, and how to store it.
    pub fn push_no_key_onboarding(&mut self)
        ensures
            final(self)@ == old(self)@.onboarded(),
    {
        reveal(Scene::onboarded);
        let text = String::from_str(self.locale.tr(NO_KEY_EN, NO_KEY_ZH));
        self.transcript.push_markdown(text);
        self.needs_redraw = true;
    }

    /// What is left behind on leaving.
    pub fn exit_notice(&self) -> (r: String)
        ensures
            r@ == self@.farewell(),
    {
        let id = self.session.session_id.as_str();
        cat5(
            self.locale.tr("Session id: ", "会话 id："),
            id,
            self.locale.tr(
                "\nResume it later: abylab --session-id ",
                "\n下次继续：abylab --session-id ",
            ),
            id,
            self.locale.tr(" · or pick it with /resume", " · 也可以在程序里用 /resume 选择"),
        )
    }

    /// The model, and the effort asked for.
    pub fn model_fact(&self) -> (r: String)
        ensures
            r@ == self@.model_words(),
    {
        match &self.session.modes.effort {
            Some(e) => if e.as_str().is_empty() {
                self.session.cfg.model.clone()
            } else {
                cat5(
                    self.session.cfg.model.as_str(),
                    " · ",
                    self.locale.tr("effort", "推理强度"),
                    " ",
                    e.as_str(),
                )
            },
            None => self.session.cfg.model.clone(),
        }
    }

    /// Open the timeline with the wordmark and the facts of the launch.
    pub fn push_banner(&mut self, version: &str)
        ensures
            final(self)@ == old(self)@.bannered(version@),
    {
        reveal(Scene::bannered);
        let l = self.locale;
        let facts = vec![
            (String::from_str(l.tr("version", "版本")), String::from_str(version)),
            (
                String::from_str(l.tr("cwd", "工作目录")),
                self.session.cfg.workspace.clone(),
            ),
            (String::from_str(l.tr("permission", "权限")), self.current_permission()),
            (String::from_str(l.tr("model", "模型")), self.model_fact()),
        ];
        assert(facts@.map_values(|f: (String, String)| (f.0@, f.1@)) == seq![
            (self@.tr("version"@, "版本"@), version@),
            (self@.tr("cwd"@, "工作目录"@), self@.session.cfg.workspace),
            (self@.tr("permission"@, "权限"@), self@.session.permission()),
            (self@.tr("model"@, "模型"@), self@.model_words()),
        ]);
        let art = vec![
            String::from_str("▄▀█ █▄▄ █▄█ █   ▄▀█ █▄▄"),
            String::from_str("█▀█ █▄█  █  █▄▄ █▀█ █▄█"),
        ];
        assert(text::views(art@) == logo());
        self.transcript.push_banner(art, String::from_str(SITE_URL), facts);
    }
}

} // verus!
