//! The application: one state, and what every event does to it. What an event
//! asks of the world outside is left in the controller as effects.

use vstd::prelude::*;
use vstd::string::*;
use crate::appearance;
use crate::appearance::{Appearance, Look, Mode, PalettePack};
use crate::attachments::{Staged, Tray};
use crate::commands::{Phrases, Wording};
use crate::controller::{Controller, Deed, Desk, Effect};
use crate::input::area::Area;
use crate::input::composer::{Composer, ComposerEditor};
use crate::input::vim::{VimMode, VimState};
use crate::locale::Locale;
use crate::runtime;
use crate::runtime::{ModeFacts, Modes, Preferences, RuntimeConfig, UiSettings};
use crate::runtime::remembered_modes;
use crate::selection::{ChatView, Pane, Rect};
use crate::text;
use crate::text::copy_opt;
use crate::transcript::{NoticeLevel, Timeline, Transcript};
use self::state::{
    Chat, ChatState, Child, CtrlCQuitChord, Draft, DraftState, Host, HostFacts, Line, PanelState,
    Panels, PromptQueue, RunState, Session, SessionState, SubagentView, Waiting,
};

pub mod card_laws;
pub mod cards;
pub mod draft;
pub mod event_laws;
pub mod handle;
pub mod key_laws;
pub mod keys;
pub mod menu;
pub mod mouse;
pub mod mouse_laws;
pub mod overlay_laws;
pub mod overlays;
pub mod pickers;
pub mod prompt;
pub mod prompt_laws;
pub mod queue;
pub mod queue_edit;
pub mod session;
pub mod session_laws;
pub mod slash;
pub mod slash_laws;
pub mod state;
pub mod steady;
pub mod theme;

verus! {

/// The frames of the running indicator.
pub open spec fn spinner_frames() -> Seq<char> {
    seq!['⠋', '⠙', '⠹', '⠸', '⠼', '⠴', '⠦', '⠧', '⠇', '⠏']
}

/// Two clicks within this many milliseconds are a double click.
pub const DOUBLE_CLICK_WINDOW: u64 = 400;

/// How long a first ctrl+c counts.
pub const CTRL_C_QUIT_WINDOW: u64 = 1500;

/// How long a first press of the quit key waits to be confirmed.
pub const QUIT_CONFIRM_WINDOW: u64 = 1500;

/// How long a tip stays.
pub const TIP_TTL: u64 = 4000;

/// How long a prompt that was jumped to stays washed.
pub const PROMPT_FLASH_TTL: u64 = 5000;

/// How often the workspace's branch is looked at.
pub const GIT_CHECK_INTERVAL: u64 = 5000;

pub struct App {
    pub look: Appearance,
    /// The mode that was kept at launch. It is kept on while a mode given for
    /// this run alone is in force.
    pub kept_theme: Option<String>,
    pub locale: Locale,
    pub phrases: Phrases,
    /// A passing remark, and when it was made.
    pub tip: Option<(String, u64)>,
    pub needs_redraw: bool,
    pub quit: bool,
    pub spinner_idx: usize,
    /// The usage hint the next new session opens with.
    pub session_tip_idx: usize,
    pub ctrl_c_armed: Option<CtrlCQuitChord>,
    /// When the quit key was pressed and not confirmed yet.
    pub quit_armed: Option<u64>,
    pub git_branch: Option<String>,
    pub git_check_at: u64,
    pub transcript: Transcript,
    pub subagents: Vec<SubagentView>,
    /// The subagent on show, none for the main session.
    pub active_subagent: Option<String>,
    pub draft: Draft,
    pub chat: Chat,
    pub panels: Panels,
    pub session: Session,
    pub queue: PromptQueue,
    pub ctl: Controller,
    pub host: Host,
}

/// What an application holds.
pub struct Scene {
    pub look: Look,
    pub kept_theme: Option<Seq<char>>,
    pub locale: Locale,
    pub phrases: Wording,
    pub tip: Option<(Seq<char>, u64)>,
    pub needs_redraw: bool,
    pub quit: bool,
    pub spinner_idx: usize,
    pub session_tip_idx: usize,
    pub ctrl_c: Option<CtrlCQuitChord>,
    pub quit_armed: Option<u64>,
    pub git_branch: Option<Seq<char>>,
    pub git_check_at: u64,
    pub transcript: Timeline,
    pub subagents: Seq<Child>,
    pub active: Option<Seq<char>>,
    pub draft: DraftState,
    pub chat: ChatState,
    pub panels: PanelState,
    pub session: SessionState,
    pub queue: Line,
    pub ctl: Desk,
    pub host: HostFacts,
}

impl View for App {
    type V = Scene;

    open spec fn view(&self) -> Scene {
        Scene {
            look: self.look@,
            kept_theme: text::view_opt(self.kept_theme),
            locale: self.locale,
            phrases: self.phrases@,
            tip: match self.tip {
                Some((t, at)) => Some((t@, at)),
                None => None,
            },
            needs_redraw: self.needs_redraw,
            quit: self.quit,
            spinner_idx: self.spinner_idx,
            session_tip_idx: self.session_tip_idx,
            ctrl_c: self.ctrl_c_armed,
            quit_armed: self.quit_armed,
            git_branch: text::view_opt(self.git_branch),
            git_check_at: self.git_check_at,
            transcript: self.transcript@,
            subagents: state::children(self.subagents@),
            active: text::view_opt(self.active_subagent),
            draft: self.draft@,
            chat: self.chat@,
            panels: self.panels@,
            session: self.session@,
            queue: self.queue@,
            ctl: self.ctl@,
            host: self.host@,
        }
    }
}

/// The time since `then`.
pub open spec fn since(now: u64, then: u64) -> int {
    if now >= then {
        now - then
    } else {
        0
    }
}

impl Scene {
    /// The screen is to be drawn again.
    pub open spec fn redrawn(self) -> Scene {
        Scene { needs_redraw: true, ..self }
    }

    /// A passing remark.
    pub open spec fn told(self, text: Seq<char>) -> Scene {
        Scene { tip: Some((text, self.host.now)), needs_redraw: true, ..self }
    }

    /// A phrase in the interface language.
    pub open spec fn tr(self, en: Seq<char>, zh: Seq<char>) -> Seq<char> {
        crate::locale::say(self.locale, en, zh)
    }

    /// A remark in the interface language.
    pub open spec fn told_tr(self, en: Seq<char>, zh: Seq<char>) -> Scene {
        self.told(self.tr(en, zh))
    }

    pub open spec fn noticed(self, level: NoticeLevel, text: Seq<char>) -> Scene {
        Scene { transcript: self.transcript.noticed(level, text), ..self }
    }

    pub open spec fn done(self, deed: Deed) -> Scene {
        Scene { ctl: self.ctl.with(deed), ..self }
    }

    pub open spec fn sent(self, order: crate::bus::Order) -> Scene {
        self.done(Deed::Send(order))
    }

    pub open spec fn run(self, session: SessionState) -> Scene {
        Scene { session, ..self }
    }

    /// The preferences to keep: as they stand. A model or a mode given for this
    /// run alone stays out; what was kept before stays in its place.
    pub open spec fn preferences(self) -> Preferences {
        Preferences {
            language: self.locale,
            model: if self.session.cfg.flags.model {
                self.session.kept_model
            } else {
                Some(self.session.cfg.model)
            },
            effort: self.session.modes.effort,
            permission: self.session.modes.permission,
            theme: if self.session.cfg.flags.theme {
                self.kept_theme
            } else {
                Some(self.look.mode.spelled())
            },
            palette: Some(self.look.active),
        }
    }

    pub open spec fn settings_saved(self) -> Scene {
        self.done(Deed::SaveSettings(self.preferences()))
    }
}

/// The draft of a fresh application.
pub open spec fn fresh_draft() -> DraftState {
    DraftState {
        input: Composer {
            area: Area::fresh(Seq::empty()),
            history: Seq::empty(),
            hist_pos: None,
            stash: Seq::empty(),
            layout: None,
            scroll_top: 0,
        },
        images: Tray::fresh(),
        wrap_width: 80,
        area: Rect::nowhere(),
        input_sel: None,
        input_selecting: false,
        input_top: 0,
        att_chips: Seq::empty(),
        hover_att: None,
        slash_sel: 0,
        vim: VimState { mode: VimMode::Off, pending: None },
        file_menu: None,
        dismissed: None,
    }
}

pub open spec fn fresh_chat() -> ChatState {
    ChatState {
        view: Pane::blank(),
        sel: None,
        selecting: false,
        last_click: None,
        scroll_up: 0,
        jump_cell: None,
        flash: None,
        flash_lines: None,
    }
}

pub open spec fn fresh_panels() -> PanelState {
    PanelState {
        picker: None,
        page_rows: 0,
        ask: None,
        card: None,
        plan: None,
        todo: None,
        plan_chip: None,
        hover_plan_chip: false,
        jump_btn: None,
        hover_jump_btn: false,
        expand_btn: None,
        hover_expand_btn: false,
        scroll_btn: None,
        hover_scroll_btn: false,
        expanded: false,
    }
}

/// The modes of a launch: what is remembered for the workspace, and the kept
/// preferences where nothing is.
pub open spec fn launch_modes(known: Option<ModeFacts>, settings: Preferences) -> ModeFacts {
    let m = runtime::remembered(known);
    ModeFacts {
        effort: if m.effort is None {
            settings.effort
        } else {
            m.effort
        },
        permission: if m.permission is None {
            settings.permission
        } else {
            m.permission
        },
        ..m
    }
}

/// A fresh application.
pub open spec fn launched(
    look: Look,
    phrases: Wording,
    cfg: runtime::Config,
    session_id: Seq<char>,
    settings: Preferences,
    attached: bool,
    host: HostFacts,
) -> Scene {
    Scene {
        look,
        kept_theme: settings.theme,
        locale: settings.language,
        phrases,
        tip: None,
        needs_redraw: true,
        quit: false,
        spinner_idx: 0,
        session_tip_idx: 0,
        ctrl_c: None,
        quit_armed: None,
        git_branch: host.branch,
        git_check_at: host.now,
        transcript: Timeline { locale: settings.language, ..Timeline::fresh(session_id) },
        subagents: Seq::empty(),
        active: None,
        draft: fresh_draft(),
        chat: fresh_chat(),
        panels: fresh_panels(),
        session: SessionState {
            id: session_id,
            cfg,
            bound: true,
            switch: None,
            title: None,
            load_session: false,
            state: RunState::Idle,
            note: Seq::empty(),
            run_started: None,
            pending: false,
            server: None,
            selected_model: None,
            kept_model: settings.model,
            modes: launch_modes(host.known_modes, settings),
            skills: Seq::empty(),
            models: Seq::empty(),
            efforts: Seq::empty(),
        },
        queue: Line {
            waiting: Seq::empty(),
            queued: 0,
            edit: None,
            steers: Seq::empty(),
            next_id: 1,
            armed: None,
        },
        ctl: Desk { effects: Seq::empty(), attached },
        host,
    }
}

fn new_draft() -> (r: Draft)
    ensures
        r@ == fresh_draft(),
{
    let r = Draft {
        input: ComposerEditor::new(),
        pending_images: Staged::default(),
        wrap_width: 80,
        area: Rect::none(),
        input_sel: None,
        input_selecting: false,
        input_top: 0,
        att_chips: Vec::new(),
        hover_att: None,
        slash_sel: 0,
        vim: VimState::default(),
        file_menu: None,
        file_menu_dismissed: None,
    };
    assert(r@.att_chips == Seq::<(Rect, usize)>::empty());
    r
}

fn new_panels() -> (r: Panels)
    ensures
        r@ == fresh_panels(),
{
    Panels {
        picker: None,
        picker_page_rows: 0,
        permission_ask: None,
        view_overlay: None,
        plan: None,
        todo_dialog: None,
        plan_chip: None,
        hover_plan_chip: false,
        prompt_jump_btn: None,
        hover_prompt_jump_btn: false,
        expand_btn: None,
        hover_expand_btn: false,
        scroll_btn: None,
        hover_scroll_btn: false,
        composer_expanded: false,
    }
}

fn new_session(
    session_id: String,
    cfg: RuntimeConfig,
    kept_model: Option<String>,
    modes: Modes,
) -> (r: Session)
    ensures
        r@ == (SessionState {
            id: session_id@,
            cfg: cfg@,
            bound: true,
            switch: None,
            title: None,
            load_session: false,
            state: RunState::Idle,
            note: Seq::empty(),
            run_started: None,
            pending: false,
            server: None,
            selected_model: None,
            kept_model: text::view_opt(kept_model),
            modes: modes@,
            skills: Seq::empty(),
            models: Seq::empty(),
            efforts: Seq::empty(),
        }),
{
    let r = Session {
        session_id,
        cfg,
        session_bound: true,
        session_switch: None,
        session_title: None,
        load_session: false,
        state: RunState::Idle,
        state_note: String::new(),
        run_started: None,
        prompt_pending: false,
        server_info: None,
        selected_model: None,
        kept_model,
        modes,
        skills: Vec::new(),
        last_models: Vec::new(),
        effort_choices: Vec::new(),
    };
    assert(r@.note == Seq::<char>::empty());
    r
}

fn new_queue() -> (r: PromptQueue)
    ensures
        r@ == (Line {
            waiting: Seq::empty(),
            queued: 0,
            edit: None,
            steers: Seq::empty(),
            next_id: 1,
            armed: None,
        }),
{
    let r = PromptQueue {
        prompt_queue: Vec::new(),
        queued: 0,
        queue_edit: None,
        pending_steers: Vec::new(),
        next_prompt_id: 1,
        queue_delete_armed: None,
    };
    assert(r@.waiting == Seq::<Waiting>::empty());
    assert(r@.steers == Seq::<Waiting>::empty());
    r
}

impl App {
    /// A fresh application. `mode` and `painted` are the appearance the
    /// terminal was started with, `settings` the preferences kept in the home.
    pub fn new(
        palettes: Vec<PalettePack>,
        mode: Mode,
        painted: String,
        phrases: Phrases,
        cfg: RuntimeConfig,
        session_id: String,
        settings: UiSettings,
        attached: bool,
        host: Host,
    ) -> (r: Self)
        ensures
            r@ == launched(
                appearance::launched(
                    appearance::packs(palettes@),
                    mode,
                    painted@,
                    settings@.palette,
                ),
                phrases@,
                cfg@,
                session_id@,
                settings@,
                attached,
                host@,
            ),
    {
        let look = Appearance::new(palettes, mode, painted, &settings.palette);
        let locale = settings.language;
        let mut modes = remembered_modes(&host.known_modes);
        if modes.effort.is_none() {
            modes.effort = copy_opt(&settings.effort);
        }
        if modes.permission.is_none() {
            modes.permission = copy_opt(&settings.permission);
        }
        assert(modes@ == launch_modes(host@.known_modes, settings@));
        let mut transcript = Transcript::new(session_id.clone());
        transcript.set_locale(locale);
        let git_branch = copy_opt(&host.branch);
        let git_check_at: u64 = host.now;
        let r = App {
            look,
            kept_theme: settings.theme,
            locale,
            phrases,
            tip: None,
            needs_redraw: true,
            quit: false,
            spinner_idx: 0,
            session_tip_idx: 0,
            ctrl_c_armed: None,
            quit_armed: None,
            git_branch,
            git_check_at,
            transcript,
            subagents: Vec::new(),
            active_subagent: None,
            draft: new_draft(),
            chat: Chat {
                view: ChatView::new(),
                sel: None,
                selecting: false,
                last_click: None,
                scroll_up: 0,
                prompt_jump_cell: None,
                prompt_flash: None,
                prompt_flash_lines: None,
            },
            panels: new_panels(),
            session: new_session(session_id, cfg, settings.model, modes),
            queue: new_queue(),
            ctl: Controller::new(attached),
            host,
        };
        assert(r@.subagents == Seq::<Child>::empty());
        r
    }

    /// The frame of the running indicator.
    pub fn spinner(&self) -> (r: char)
        ensures
            r == spinner_frames()[(self@.spinner_idx % 10) as int],
    {
        let frames: [char; 10] = ['⠋', '⠙', '⠹', '⠸', '⠼', '⠴', '⠦', '⠧', '⠇', '⠏'];
        frames[self.spinner_idx % 10]
    }

    /// A passing remark.
    pub fn show_tip(&mut self, text: String)
        ensures
            final(self)@ == old(self)@.told(text@),
    {
        self.tip = Some((text, self.host.now));
        self.needs_redraw = true;
    }

    /// A passing remark in the interface language.
    pub fn tip_tr(&mut self, en: &'static str, zh: &'static str)
        ensures
            final(self)@ == old(self)@.told_tr(en@, zh@),
    {
        let t = String::from_str(self.locale.tr(en, zh));
        self.show_tip(t);
    }

    pub fn notice(&mut self, level: NoticeLevel, text: String)
        ensures
            final(self)@ == old(self)@.noticed(level, text@),
    {
        self.transcript.push_notice(level, text);
    }

    /// Leave the preferences to be kept.
    pub fn save_settings(&mut self)
        ensures
            final(self)@ == old(self)@.settings_saved(),
    {
        let model = if self.session.cfg.flags.model {
            copy_opt(&self.session.kept_model)
        } else {
            Some(self.session.cfg.model.clone())
        };
        let theme = if self.session.cfg.flags.theme {
            copy_opt(&self.kept_theme)
        } else {
            Some(String::from_str(self.look.mode.as_str()))
        };
        let settings = UiSettings {
            language: self.locale,
            model,
            effort: copy_opt(&self.session.modes.effort),
            permission: copy_opt(&self.session.modes.permission),
            theme,
            palette: Some(self.look.active_palette_id.clone()),
        };
        self.ctl.push(Effect::SaveSettings(settings));
    }
}

/// A launch keeps the model and the mode that it runs with, but for those given
/// for the run alone: there it keeps what was kept before.
pub proof fn runs_keep_what_was_kept(
    look: Look,
    phrases: Wording,
    cfg: runtime::Config,
    session_id: Seq<char>,
    settings: Preferences,
    attached: bool,
    host: HostFacts,
)
    ensures
        ({
            let kept = launched(
                look,
                phrases,
                cfg,
                session_id,
                settings,
                attached,
                host,
            ).preferences();
            &&& kept.model == if cfg.flags.model {
                settings.model
            } else {
                Some(cfg.model)
            }
            &&& kept.theme == if cfg.flags.theme {
                settings.theme
            } else {
                Some(look.mode.spelled())
            }
        }),
{
}

} // verus!
