//! What a run was launched with, and what it remembers between launches.

use vstd::prelude::*;
use vstd::string::*;
use crate::credentials::CREDENTIALS_FILENAME;
use crate::locale::Locale;
use crate::text;
use crate::text::{copy_opt, opt_same, starts_with, tail, trimmed};

verus! {

/// Where the live key comes from.
#[derive(Debug, Clone, Copy, PartialEq, Eq, Structural)]
pub enum KeyOrigin {
    /// The managed store, through `/login`.
    Stored,
    /// The `--api-key` flag of this run.
    Flag,
}

/// Which settings the command line gave for this run alone. One that is chosen
/// during the run is not among them any more.
#[derive(Debug, Clone, Copy, PartialEq, Eq, Structural)]
pub struct Flags {
    pub model: bool,
    pub theme: bool,
}

/// The configuration of a run.
#[derive(Debug, Clone, PartialEq, Eq)]
pub struct RuntimeConfig {
    pub workspace: String,
    pub home: String,
    pub sessions_root: String,
    pub provider: String,
    pub model: String,
    pub max_tokens: Option<u32>,
    pub base_url: Option<String>,
    pub api_key: Option<String>,
    pub key_origin: Option<KeyOrigin>,
    pub flags: Flags,
}

#[verifier::ext_equal]
pub struct Config {
    pub workspace: Seq<char>,
    pub home: Seq<char>,
    pub sessions_root: Seq<char>,
    pub provider: Seq<char>,
    pub model: Seq<char>,
    pub max_tokens: Option<u32>,
    pub base_url: Option<Seq<char>>,
    pub api_key: Option<Seq<char>>,
    pub key_origin: Option<KeyOrigin>,
    pub flags: Flags,
}

impl View for RuntimeConfig {
    type V = Config;

    open spec fn view(&self) -> Config {
        Config {
            workspace: self.workspace@,
            home: self.home@,
            sessions_root: self.sessions_root@,
            provider: self.provider@,
            model: self.model@,
            max_tokens: self.max_tokens,
            base_url: text::view_opt(self.base_url),
            api_key: text::view_opt(self.api_key),
            key_origin: self.key_origin,
            flags: self.flags,
        }
    }
}

impl Config {
    /// The model in force is one that was chosen, not only given for this run.
    pub open spec fn model_chosen(self) -> Config {
        Config { flags: Flags { model: false, ..self.flags }, ..self }
    }

    /// So is the mode.
    pub open spec fn theme_chosen(self) -> Config {
        Config { flags: Flags { theme: false, ..self.flags }, ..self }
    }

    /// The source of the live key, in words.
    pub open spec fn source(self) -> Option<Seq<char>> {
        match self.key_origin {
            Some(KeyOrigin::Stored) => Some(CREDENTIALS_FILENAME@),
            Some(KeyOrigin::Flag) => Some("--api-key"@),
            None => None,
        }
    }
}

impl RuntimeConfig {
    pub fn has_credentials(&self) -> (r: bool)
        ensures
            r == (self@.api_key is Some),
    {
        self.api_key.is_some()
    }

    /// The source of the live key, in words.
    pub fn credential_source(&self) -> (r: Option<&'static str>)
        ensures
            match r {
                Some(s) => self@.source() == Some(s@),
                None => self@.source() is None,
            },
    {
        match self.key_origin {
            Some(KeyOrigin::Stored) => Some(CREDENTIALS_FILENAME),
            Some(KeyOrigin::Flag) => Some("--api-key"),
            None => None,
        }
    }
}

/// The facts of a session's modes that the interface shows and keeps.
#[derive(Debug, Clone, PartialEq, Eq)]
pub struct Modes {
    pub plan: bool,
    pub sandbox: Option<String>,
    pub approval: Option<String>,
    pub permission: Option<String>,
    /// The reasoning effort last asked for; no host reports one.
    pub effort: Option<String>,
}

#[verifier::ext_equal]
pub struct ModeFacts {
    pub plan: bool,
    pub sandbox: Option<Seq<char>>,
    pub approval: Option<Seq<char>>,
    pub permission: Option<Seq<char>>,
    pub effort: Option<Seq<char>>,
}

impl View for Modes {
    type V = ModeFacts;

    open spec fn view(&self) -> ModeFacts {
        ModeFacts {
            plan: self.plan,
            sandbox: text::view_opt(self.sandbox),
            approval: text::view_opt(self.approval),
            permission: text::view_opt(self.permission),
            effort: text::view_opt(self.effort),
        }
    }
}

impl ModeFacts {
    pub open spec fn unknown() -> ModeFacts {
        ModeFacts { plan: false, sandbox: None, approval: None, permission: None, effort: None }
    }
}

impl Default for Modes {
    fn default() -> (r: Self)
        ensures
            r@ == ModeFacts::unknown(),
    {
        Modes { plan: false, sandbox: None, approval: None, permission: None, effort: None }
    }
}

impl Modes {
    pub fn copy(&self) -> (r: Self)
        ensures
            r@ == self@,
    {
        Modes {
            plan: self.plan,
            sandbox: copy_opt(&self.sandbox),
            approval: copy_opt(&self.approval),
            permission: copy_opt(&self.permission),
            effort: copy_opt(&self.effort),
        }
    }

    pub fn same_as(&self, other: &Modes) -> (r: bool)
        ensures
            r == (self@ == other@),
    {
        self.plan == other.plan && opt_same(&self.sandbox, &other.sandbox) && opt_same(
            &self.approval,
            &other.approval,
        ) && opt_same(&self.permission, &other.permission) && opt_same(&self.effort, &other.effort)
    }
}

/// The facts remembered for a workspace, `None` where there are none. Plan
/// mode is a switch of one session and is not remembered.
pub open spec fn remembered(cache: Option<ModeFacts>) -> ModeFacts {
    match cache {
        Some(m) => ModeFacts { plan: false, ..m },
        None => ModeFacts::unknown(),
    }
}

pub open spec fn view_modes(m: Option<Modes>) -> Option<ModeFacts> {
    match m {
        Some(m) => Some(m@),
        None => None,
    }
}

/// The modes a session starts with.
pub fn remembered_modes(cache: &Option<Modes>) -> (r: Modes)
    ensures
        r@ == remembered(view_modes(*cache)),
{
    match cache {
        Some(m) => {
            let mut modes = m.copy();
            modes.plan = false;
            modes
        },
        None => Modes::default(),
    }
}

/// The preferences kept in the home.
#[derive(Debug, Clone, PartialEq, Eq)]
pub struct UiSettings {
    pub language: Locale,
    pub model: Option<String>,
    pub effort: Option<String>,
    pub permission: Option<String>,
    pub theme: Option<String>,
    pub palette: Option<String>,
}

#[verifier::ext_equal]
pub struct Preferences {
    pub language: Locale,
    pub model: Option<Seq<char>>,
    pub effort: Option<Seq<char>>,
    pub permission: Option<Seq<char>>,
    pub theme: Option<Seq<char>>,
    pub palette: Option<Seq<char>>,
}

impl View for UiSettings {
    type V = Preferences;

    open spec fn view(&self) -> Preferences {
        Preferences {
            language: self.language,
            model: text::view_opt(self.model),
            effort: text::view_opt(self.effort),
            permission: text::view_opt(self.permission),
            theme: text::view_opt(self.theme),
            palette: text::view_opt(self.palette),
        }
    }
}

/// What a driver is launched with.
#[derive(Debug, Clone, PartialEq, Eq)]
pub struct Launch {
    pub model: String,
    pub reasoning: String,
    pub permission: Option<String>,
}

/// The launch defaults: the stock model where none is configured, and the
/// kept effort and permission where there are some.
pub fn launch(cfg: &RuntimeConfig, settings: &UiSettings) -> (r: Launch)
    ensures
        r.model@ == if cfg@.model.len() == 0 {
            "deepseek-flash"@
        } else {
            cfg@.model
        },
        r.reasoning@ == match settings@.effort {
            Some(effort) => effort,
            None => "high"@,
        },
        r.permission == settings.permission,
{
    let model = if cfg.model.as_str().is_empty() {
        String::from_str("deepseek-flash")
    } else {
        cfg.model.clone()
    };
    let reasoning = match &settings.effort {
        Some(effort) => effort.clone(),
        None => String::from_str("high"),
    };
    Launch { model, reasoning, permission: copy_opt(&settings.permission) }
}

/// The branch that a repository's `HEAD` names; a detached one names none.
pub open spec fn branch_of(head: Seq<char>) -> Option<Seq<char>> {
    let line = text::trim(head);
    let mark = "ref: refs/heads/"@;
    if mark.is_prefix_of(line) {
        Some(line.skip(mark.len() as int))
    } else {
        None
    }
}

/// The branch checked out, by the text of `HEAD`.
pub fn head_branch(head: &str) -> (r: Option<String>)
    ensures
        text::view_opt(r) == branch_of(head@),
{
    let line = trimmed(head);
    if starts_with(line.as_str(), "ref: refs/heads/") {
        let n: usize = "ref: refs/heads/".unicode_len();
        Some(tail(line.as_str(), n))
    } else {
        None
    }
}

} // verus!
