//! Every event the application can receive, and the passing of time.

use vstd::prelude::*;
use vstd::string::*;
use crate::app;
use crate::app::{App, Scene, CTRL_C_QUIT_WINDOW, GIT_CHECK_INTERVAL, TIP_TTL};
use crate::app::state;
use crate::app::state::{Chat, ChatState, Child, RunState, SessionState, SubagentView};
use crate::bus::{AppEvent, TermEvent};
use crate::controller::{Deed, Effect};
use crate::events::UiEvent;
use crate::input::area;
use crate::input::csi;
use crate::input::csi::decode_leaked_csi_u_keys;
use crate::input::keys::{KeyEvent, KeyEventKind};
use crate::input::normalize;
use crate::input::normalize::rescue_key;
use crate::text;
use crate::text::{copy_opt, opt_same, same, unify_newlines};

verus! {

/// A subagent is at work, or its timeline is being written.
pub open spec fn at_work(all: Seq<Child>) -> bool {
    exists|i: int|
        0 <= i < all.len() && ((#[trigger] all[i]).running || all[i].transcript.streaming)
}

fn any_at_work(all: &Vec<SubagentView>) -> (r: bool)
    ensures
        r == at_work(state::children(all@)),
{
    let ghost c = state::children(all@);
    let mut i: usize = 0;
    while i < all.len()
        invariant
            i <= all.len(),
            c == state::children(all@),
            forall|k: int|
                0 <= k < i ==> !((#[trigger] c[k]).running || c[k].transcript.streaming),
        decreases all.len() - i,
    {
        assert(c[i as int] == all@[i as int]@);
        if all[i].running || all[i].transcript.streaming {
            return true;
        }
        i += 1;
    }
    false
}

impl ChatState {
    /// The wash of a prompt that was jumped to gone.
    pub open spec fn unwashed(self) -> ChatState {
        ChatState { flash: None, flash_lines: None, ..self }
    }
}

impl Chat {
    fn unwash(&mut self)
        ensures
            final(self)@ == old(self)@.unwashed(),
    {
        self.prompt_flash = None;
        self.prompt_flash_lines = None;
    }
}

impl Scene {
    /// The workspace's branch looked at, every so often.
    #[verifier::opaque]
    pub open spec fn branch_checked(self) -> Scene {
        if app::since(self.host.now, self.git_check_at) < GIT_CHECK_INTERVAL {
            self
        } else {
            let s = Scene { git_check_at: self.host.now, ..self };
            if self.host.branch == self.git_branch {
                s
            } else {
                (Scene { git_branch: self.host.branch, ..s }).redrawn()
            }
        }
    }

    #[verifier::opaque]
    pub open spec fn spun(self) -> Scene {
        if self.session.state != RunState::Idle || self.transcript.streaming || at_work(
            self.subagents,
        ) {
            (Scene {
                spinner_idx: if self.spinner_idx == usize::MAX {
                    0
                } else {
                    (self.spinner_idx + 1) as usize
                },
                ..self
            }).redrawn()
        } else {
            self
        }
    }

    #[verifier::opaque]
    pub open spec fn tip_faded(self) -> Scene {
        if self.tip is Some && app::since(self.host.now, (self.tip->0).1) > TIP_TTL {
            (Scene { tip: None, ..self }).redrawn()
        } else {
            self
        }
    }

    #[verifier::opaque]
    pub open spec fn flash_faded(self) -> Scene {
        if self.chat.flash is Some && self.host.now >= (self.chat.flash->0).1 {
            self.chatting(self.chat.unwashed()).redrawn()
        } else {
            self
        }
    }

    #[verifier::opaque]
    pub open spec fn chord_faded(self) -> Scene {
        let s = if self.ctrl_c is Some && app::since(self.host.now, self.ctrl_c->0.started)
            > CTRL_C_QUIT_WINDOW {
            Scene { ctrl_c: None, ..self }
        } else {
            self
        };
        if self.quit_armed is Some && !self.quit_confirmed() {
            Scene { quit_armed: None, ..s }
        } else {
            s
        }
    }

    /// Time passed: the indicator turns, and what is passing fades.
    pub open spec fn ticked(self) -> Scene {
        self.branch_checked().spun().tip_faded().flash_faded().chord_faded()
    }

    /// Keys handled in order, those let go of left out.
    pub open spec fn all_keyed(self, keys: Seq<KeyEvent>, n: int) -> Scene
        decreases n,
    {
        if n <= 0 {
            self
        } else {
            let s = self.all_keyed(keys, n - 1);
            if keys[n - 1].kind == KeyEventKind::Release {
                s
            } else {
                s.keyed(normalize::rescued(keys[n - 1], s.host.held))
            }
        }
    }

    /// Text pasted: as the keys it spells where a terminal leaked their
    /// reports, else into the draft with its lines kept.
    #[verifier::opaque]
    pub open spec fn pasted(self, t: Seq<char>) -> Scene {
        match csi::leaked(t) {
            Some(keys) => self.all_keyed(keys, keys.len() as int),
            None => {
                let c = self.draft.input;
                self.typed(
                    c.edited(c.area.inserted(text::unified(t))),
                ).tray_settled().redrawn()
            },
        }
    }

    /// What the terminal delivered.
    #[verifier::opaque]
    pub open spec fn term_taken(self, ev: TermEvent) -> Scene {
        match ev {
            TermEvent::Key(key) => if key.kind == KeyEventKind::Release {
                self
            } else {
                self.keyed(normalize::rescued(key, self.host.held))
            },
            TermEvent::Mouse(m) => self.moused(m),
            TermEvent::Resize => self.redrawn(),
            TermEvent::Paste(t) => self.pasted(t@),
            TermEvent::Other => self,
        }
    }

    /// A fact that the session on show is idle.
    pub open spec fn falls_idle(self, ui: UiEvent) -> bool {
        match ui {
            UiEvent::SessionStatus { session, running } => !running && session@ == self.session.id,
            _ => false,
        }
    }

    /// What an event does. A turn that ends hands the queue's head over.
    #[verifier::opaque]
    pub open spec fn event_taken(self, ev: AppEvent) -> Scene {
        match ev {
            AppEvent::Terminate => Scene { quit: true, ..self },
            AppEvent::Term(t) => self.term_taken(t),
            AppEvent::Ui(ui) => if self.falls_idle(ui) {
                self.fact_taken(ui).next_sent()
            } else {
                self.fact_taken(ui)
            },
            AppEvent::RuntimeStderr(_) => self,
            AppEvent::RuntimeExited(code) => self.runtime_gone(code),
            AppEvent::Ctl(r) => self.report_taken(r).redrawn(),
            AppEvent::PermissionAsk { title, options } => self.asked(title@, options@),
        }
    }

    /// What changed since `from` left to be kept: the modes in their cache,
    /// and with the model among the preferences.
    #[verifier::opaque]
    pub open spec fn kept_since(self, from: Scene) -> Scene {
        let moded = self.session.modes != from.session.modes;
        let s = if moded {
            self.done(Deed::SaveModes(self.session.modes))
        } else {
            self
        };
        if moded || self.session.cfg.model != from.session.cfg.model {
            s.settings_saved()
        } else {
            s
        }
    }

    /// The picked model no longer pending, once a turn has run on it.
    #[verifier::opaque]
    pub open spec fn pick_settled(self) -> Scene {
        if self.session.selected_model is Some && self.session.selected_model
            == self.transcript.last_model {
            self.run(SessionState { selected_model: None, ..self.session })
        } else {
            self
        }
    }

    /// The drag over the draft unlit, once the text is no longer the one in
    /// `from`: the cells it covered show other text now.
    #[verifier::opaque]
    pub open spec fn drag_settled(self, from: Scene) -> Scene {
        if self.draft.input.area.text != from.draft.input.area.text {
            self.drafted(self.draft.undragged())
        } else {
            self
        }
    }

    /// An event handled.
    pub open spec fn handled(self, ev: AppEvent) -> Scene {
        self.event_taken(ev).preview_settled().kept_since(self).pick_settled().drag_settled(self)
    }
}

impl App {
    /// Look at the workspace's branch, every so often.
    pub fn refresh_git_branch(&mut self)
        ensures
            final(self)@ == old(self)@.branch_checked(),
    {
        reveal(Scene::branch_checked);
        if self.host.now.saturating_sub(self.git_check_at) < GIT_CHECK_INTERVAL {
            return;
        }
        self.git_check_at = self.host.now;
        if !opt_same(&self.host.branch, &self.git_branch) {
            self.git_branch = copy_opt(&self.host.branch);
            self.needs_redraw = true;
        }
    }

    fn spin(&mut self)
        ensures
            final(self)@ == old(self)@.spun(),
    {
        reveal(Scene::spun);
        if self.session.state != RunState::Idle || self.transcript.streaming || any_at_work(
            &self.subagents,
        ) {
            self.spinner_idx = if self.spinner_idx == usize::MAX {
                0
            } else {
                self.spinner_idx + 1
            };
            self.needs_redraw = true;
        }
    }

    fn fade_tip(&mut self)
        ensures
            final(self)@ == old(self)@.tip_faded(),
    {
        reveal(Scene::tip_faded);
        let old_tip = match &self.tip {
            Some((_, at)) => self.host.now.saturating_sub(*at) > TIP_TTL,
            None => false,
        };
        if old_tip {
            self.tip = None;
            self.needs_redraw = true;
        }
    }

    fn fade_flash(&mut self)
        ensures
            final(self)@ == old(self)@.flash_faded(),
    {
        reveal(Scene::flash_faded);
        match self.chat.prompt_flash {
            Some((_, until)) => {
                if self.host.now >= until {
                    self.chat.unwash();
                    self.needs_redraw = true;
                }
            },
            None => {},
        }
    }

    fn fade_chord(&mut self)
        ensures
            final(self)@ == old(self)@.chord_faded(),
    {
        reveal(Scene::chord_faded);
        match self.ctrl_c_armed {
            Some(c) => {
                if self.host.now.saturating_sub(c.started) > CTRL_C_QUIT_WINDOW {
                    self.ctrl_c_armed = None;
                }
            },
            None => {},
        }
        if self.quit_armed.is_some() && !self.is_quit_confirmed() {
            self.quit_armed = None;
        }
    }

    /// Let time pass.
    pub fn tick(&mut self)
        ensures
            final(self)@ == old(self)@.ticked(),
    {
        self.refresh_git_branch();
        self.spin();
        self.fade_tip();
        self.fade_flash();
        self.fade_chord();
    }

    fn handle_keys(&mut self, keys: &Vec<KeyEvent>)
        ensures
            final(self)@ == old(self)@.all_keyed(keys@, keys@.len() as int),
    {
        let ghost start = self@;
        let mut i: usize = 0;
        while i < keys.len()
            invariant
                i <= keys.len(),
                self@ == start.all_keyed(keys@, i as int),
            decreases keys.len() - i,
        {
            if keys[i].kind != KeyEventKind::Release {
                let key = rescue_key(keys[i], self.host.held);
                self.handle_key(&key);
            }
            i += 1;
        }
    }

    fn paste(&mut self, t: &str)
        ensures
            final(self)@ == old(self)@.pasted(t@),
    {
        reveal(Scene::pasted);
        match decode_leaked_csi_u_keys(t) {
            Some(keys) => self.handle_keys(&keys),
            None => {
                let clean = unify_newlines(t);
                proof {
                    no_return_is_left(t@);
                }
                self.draft.input.insert_str(clean.as_str());
                self.reconcile_attachments();
                self.needs_redraw = true;
            },
        }
    }

    /// Handle what the terminal delivered.
    pub fn handle_term(&mut self, ev: TermEvent)
        ensures
            final(self)@ == old(self)@.term_taken(ev),
    {
        reveal(Scene::term_taken);
        match ev {
            TermEvent::Key(key) => {
                if key.kind != KeyEventKind::Release {
                    let key = rescue_key(key, self.host.held);
                    self.handle_key(&key);
                }
            },
            TermEvent::Mouse(m) => self.handle_mouse(m),
            TermEvent::Resize => {
                self.needs_redraw = true;
            },
            TermEvent::Paste(t) => self.paste(t.as_str()),
            TermEvent::Other => {},
        }
    }

    fn is_falling_idle(&self, ui: &UiEvent) -> (r: bool)
        ensures
            r == self@.falls_idle(*ui),
    {
        match ui {
            UiEvent::SessionStatus { session, running } => !*running && same(
                session.as_str(),
                self.session.session_id.as_str(),
            ),
            _ => false,
        }
    }

    fn take_ui(&mut self, ui: UiEvent)
        ensures
            final(self)@ == if old(self)@.falls_idle(ui) {
                old(self)@.fact_taken(ui).next_sent()
            } else {
                old(self)@.fact_taken(ui)
            },
    {
        let idle = self.is_falling_idle(&ui);
        self.apply_ui(ui);
        if idle {
            self.dispatch_next_queued();
        }
    }

    fn handle_inner(&mut self, ev: AppEvent)
        ensures
            final(self)@ == old(self)@.event_taken(ev),
    {
        reveal(Scene::event_taken);
        match ev {
            AppEvent::Terminate => {
                self.quit = true;
            },
            AppEvent::Term(t) => self.handle_term(t),
            AppEvent::Ui(ui) => self.take_ui(ui),
            AppEvent::RuntimeStderr(_) => {},
            AppEvent::RuntimeExited(code) => self.runtime_exited(code),
            AppEvent::Ctl(r) => {
                self.take_report(r);
                self.needs_redraw = true;
            },
            AppEvent::PermissionAsk { title, options } => {
                self.open_permission_ask(title, options);
            },
        }
    }

    fn settle_pick(&mut self)
        ensures
            final(self)@ == old(self)@.pick_settled(),
    {
        reveal(Scene::pick_settled);
        if self.session.selected_model.is_some() && opt_same(
            &self.session.selected_model,
            &self.transcript.last_model,
        ) {
            self.session.selected_model = None;
        }
    }

    /// Handle an event.
    pub fn handle(&mut self, ev: AppEvent)
        ensures
            final(self)@ == old(self)@.handled(ev),
    {
        let modes = self.session.modes.copy();
        let model = self.session.cfg.model.clone();
        let draft = self.draft.input.buf();
        let ghost from = self@;
        self.handle_inner(ev);
        self.reconcile_theme_preview();
        let ghost before = self@;
        let moded = !self.session.modes.same_as(&modes);
        let changed = !same(self.session.cfg.model.as_str(), model.as_str());
        if moded {
            let kept = self.session.modes.copy();
            self.ctl.push(Effect::SaveModes(kept));
        }
        if moded || changed {
            self.save_settings();
        }
        assert(self@ == before.kept_since(from)) by {
            reveal(Scene::kept_since);
        }
        self.settle_pick();
        reveal(Scene::drag_settled);
        if !same(self.draft.input.buf().as_str(), draft.as_str()) {
            self.draft.input_sel = None;
        }
    }
}

/// No edit leaves a drag lit over the draft, whatever made it.
pub proof fn edits_unlight_the_drag(scene: Scene, ev: AppEvent)
    requires
        scene.handled(ev).draft.input.area.text != scene.draft.input.area.text,
    ensures
        scene.handled(ev).draft.input_sel is None,
{
    reveal(Scene::drag_settled);
}

proof fn no_return_is_left(s: Seq<char>)
    ensures
        area::unreturned(text::unified(s)) == text::unified(s),
    decreases s.len(),
{
    if s.len() > 0 {
        let rest = if s[0] == '\r' && s.len() > 1 && s[1] == '\n' {
            s.skip(2)
        } else {
            s.skip(1)
        };
        let c = if s[0] == '\r' {
            '\n'
        } else {
            s[0]
        };
        no_return_is_left(rest);
        assert(text::unified(s) == seq![c] + text::unified(rest));
        assert((seq![c] + text::unified(rest)).skip(1) == text::unified(rest));
    }
}

} // verus!
