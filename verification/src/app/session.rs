//! What the session and its driver report, and what that changes.

use vstd::prelude::*;
use vstd::string::*;
use crate::app::{App, Scene};
use crate::app::queue;
use crate::app::state;
use crate::app::state::{
    Chat, ChatState, Child, DraftState, Line, PanelState, Panels, RunState, Session, SessionState,
    SessionSwitch, SubagentView, Switch, Waiting,
};
use crate::bus::{Cmd, CtlEvent, Order};
use crate::events;
use crate::events::{ui_session, UiEvent};
use crate::input::vim::VimState;
use crate::measure::wide_number;
use crate::picker::PickerKind;
use crate::runtime;
use crate::runtime::{remembered_modes, Config, ModeFacts, Modes};
use crate::text;
use crate::text::{cat, cat3, cat4, copy_list, same};
use crate::transcript::{Note, NoticeLevel, Timeline, Transcript};

verus! {

/// The first subagent of an id from `i` on.
pub open spec fn child_at(c: Seq<Child>, id: Seq<char>, i: int) -> Option<int>
    decreases c.len() - i,
{
    if 0 <= i < c.len() {
        if c[i].id == id {
            Some(i)
        } else {
            child_at(c, id, i + 1)
        }
    } else {
        None
    }
}

impl SessionState {
    pub open spec fn at_rest(self) -> SessionState {
        SessionState { state: RunState::Idle, run_started: None, ..self }
    }

    /// The turn is over, one way or another.
    pub open spec fn ended(self) -> SessionState {
        SessionState { pending: false, note: Seq::empty(), ..self.at_rest() }
    }

    pub open spec fn starting(self, now: u64, note: Seq<char>) -> SessionState {
        SessionState { state: RunState::Starting, run_started: Some(now), note, ..self }
    }

    /// The runtime is ready; what was handed over already is on its way.
    pub open spec fn ready(self, server: Seq<char>) -> SessionState {
        let s = SessionState { server: Some(server), ..self };
        if self.pending {
            s
        } else {
            SessionState { note: Seq::empty(), ..s.at_rest() }
        }
    }

    /// A prompt has been taken up.
    pub open spec fn taken_up(self) -> SessionState {
        SessionState {
            pending: false,
            state: if self.state == RunState::Starting {
                RunState::Running
            } else {
                self.state
            },
            note: Seq::empty(),
            ..self
        }
    }

    pub open spec fn running(self, now: u64) -> SessionState {
        SessionState {
            state: RunState::Running,
            run_started: if self.run_started is None {
                Some(now)
            } else {
                self.run_started
            },
            ..self
        }
    }

    /// What a fact changes in what is known of the session.
    pub open spec fn folded(self, ui: UiEvent, now: u64) -> SessionState {
        let m = self.modes;
        match ui {
            UiEvent::PlanMode { active, .. } => SessionState {
                modes: ModeFacts { plan: active, ..m },
                ..self
            },
            UiEvent::SandboxMode { mode, .. } => SessionState {
                modes: ModeFacts { sandbox: Some(mode@), ..m },
                ..self
            },
            UiEvent::ApprovalPolicy { policy, .. } => SessionState {
                modes: ModeFacts { approval: Some(policy@), ..m },
                ..self
            },
            UiEvent::PermissionPreset { preset, .. } => SessionState {
                modes: ModeFacts { permission: Some(preset@), ..m },
                ..self
            },
            UiEvent::SessionTitle { title, .. } => SessionState { title: Some(title@), ..self },
            UiEvent::SessionStatus { running, .. } => if running {
                self.running(now)
            } else {
                self.ended()
            },
            _ => self,
        }
    }

    pub open spec fn named(self, id: Seq<char>) -> SessionState {
        SessionState { id, bound: true, ..self }
    }

    /// The model and the effort that a binding reports. To report the model in
    /// force is to choose none.
    pub open spec fn adopting(self, model: Option<Seq<char>>, effort: Option<Seq<char>>) -> SessionState {
        SessionState {
            cfg: match model {
                Some(m) => if m == self.cfg.model {
                    self.cfg
                } else {
                    Config { model: m, ..self.cfg.model_chosen() }
                },
                None => self.cfg,
            },
            modes: ModeFacts {
                effort: match effort {
                    Some(e) => Some(e),
                    None => self.modes.effort,
                },
                ..self.modes
            },
            ..self
        }
    }

    /// The session put away.
    pub open spec fn left(self, known: Option<ModeFacts>) -> SessionState {
        SessionState {
            switch: None,
            modes: runtime::remembered(known),
            selected_model: None,
            title: None,
            pending: false,
            state: RunState::Idle,
            run_started: None,
            bound: false,
            ..self
        }
    }
}

impl PanelState {
    /// The checklist of a snapshot; an empty one closes its dialog.
    pub open spec fn planned(self, ui: UiEvent) -> PanelState {
        if ui is Plan {
            let plan = events::progress_of(ui);
            PanelState {
                plan,
                todo: if plan is None {
                    None
                } else {
                    self.todo
                },
                ..self
            }
        } else {
            self
        }
    }

    pub open spec fn planless(self) -> PanelState {
        PanelState { plan: None, todo: None, plan_chip: None, hover_plan_chip: false, ..self }
    }
}

impl ChatState {
    pub open spec fn left(self) -> ChatState {
        ChatState {
            jump_cell: None,
            flash: None,
            flash_lines: None,
            sel: None,
            scroll_up: 0,
            ..self
        }
    }
}

impl Session {
    fn rest(&mut self)
        ensures
            final(self)@ == old(self)@.at_rest(),
    {
        self.state = RunState::Idle;
        self.run_started = None;
    }

    fn end(&mut self)
        ensures
            final(self)@ == old(self)@.ended(),
    {
        self.prompt_pending = false;
        self.rest();
        self.state_note = String::new();
        assert(self.state_note@ == Seq::<char>::empty());
    }

    fn fail(&mut self)
        ensures
            final(self)@ == (SessionState { pending: false, ..old(self)@.at_rest() }),
    {
        self.prompt_pending = false;
        self.rest();
    }

    fn start(&mut self, now: u64, note: String)
        ensures
            final(self)@ == old(self)@.starting(now, note@),
    {
        self.state = RunState::Starting;
        self.run_started = Some(now);
        self.state_note = note;
    }

    fn become_ready(&mut self, server: String)
        ensures
            final(self)@ == old(self)@.ready(server@),
    {
        self.server_info = Some(server);
        if !self.prompt_pending {
            self.rest();
            self.state_note = String::new();
            assert(self.state_note@ == Seq::<char>::empty());
        }
    }

    fn take_up(&mut self)
        ensures
            final(self)@ == old(self)@.taken_up(),
    {
        self.prompt_pending = false;
        if self.state == RunState::Starting {
            self.state = RunState::Running;
        }
        self.state_note = String::new();
        assert(self.state_note@ == Seq::<char>::empty());
    }

    fn fold(&mut self, ui: &UiEvent, now: u64)
        ensures
            final(self)@ == old(self)@.folded(*ui, now),
    {
        match ui {
            UiEvent::PlanMode { active, .. } => {
                self.modes.plan = *active;
            },
            UiEvent::SandboxMode { mode, .. } => {
                self.modes.sandbox = Some(mode.clone());
            },
            UiEvent::ApprovalPolicy { policy, .. } => {
                self.modes.approval = Some(policy.clone());
            },
            UiEvent::PermissionPreset { preset, .. } => {
                self.modes.permission = Some(preset.clone());
            },
            UiEvent::SessionTitle { title, .. } => {
                self.session_title = Some(title.clone());
            },
            UiEvent::SessionStatus { running, .. } => {
                if *running {
                    self.state = RunState::Running;
                    if self.run_started.is_none() {
                        self.run_started = Some(now);
                    }
                } else {
                    self.end();
                }
            },
            _ => {},
        }
    }

    fn name(&mut self, id: String)
        ensures
            final(self)@ == old(self)@.named(id@),
    {
        self.session_id = id;
        self.session_bound = true;
    }

    fn adopt(&mut self, model: Option<String>, effort: Option<String>)
        ensures
            final(self)@ == old(self)@.adopting(text::view_opt(model), text::view_opt(effort)),
    {
        if let Some(m) = model {
            if !same(m.as_str(), self.cfg.model.as_str()) {
                self.cfg.model = m;
                self.cfg.flags.model = false;
            }
        }
        if let Some(e) = effort {
            self.modes.effort = Some(e);
        }
    }

    fn leave(&mut self, known: &Option<Modes>)
        ensures
            final(self)@ == old(self)@.left(runtime::view_modes(*known)),
    {
        self.session_switch = None;
        self.modes = remembered_modes(known);
        self.selected_model = None;
        self.session_title = None;
        self.prompt_pending = false;
        self.state = RunState::Idle;
        self.run_started = None;
        self.session_bound = false;
    }
}

impl Panels {
    fn fold_plan(&mut self, ui: &UiEvent)
        ensures
            final(self)@ == old(self)@.planned(*ui),
    {
        if let UiEvent::Plan { .. } = ui {
            let plan = ui.plan_progress();
            if plan.is_none() {
                self.todo_dialog = None;
            }
            self.plan = plan;
        }
    }

    fn drop_plan(&mut self)
        ensures
            final(self)@ == old(self)@.planless(),
    {
        self.plan = None;
        self.todo_dialog = None;
        self.plan_chip = None;
        self.hover_plan_chip = false;
    }
}

impl Chat {
    fn leave(&mut self)
        ensures
            final(self)@ == old(self)@.left(),
    {
        self.prompt_jump_cell = None;
        self.prompt_flash = None;
        self.prompt_flash_lines = None;
        self.sel = None;
        self.scroll_up = 0;
    }
}

impl Scene {
    pub open spec fn raising(self, subagents: Seq<Child>) -> Scene {
        Scene { subagents, ..self }
    }

    /// A fact told to a subagent's view.
    pub open spec fn told_child(self, i: int, ui: UiEvent) -> Scene {
        let c = self.subagents[i];
        self.raising(
            self.subagents.update(
                i,
                Child { transcript: c.transcript.heard(ui), ..c },
            ),
        )
    }

    /// A fact told to the view of a session: the main one, or a subagent's.
    pub open spec fn told_session(self, id: Seq<char>, ui: UiEvent) -> Scene {
        if id == self.session.id {
            self.telling(self.transcript.heard(ui))
        } else {
            match child_at(self.subagents, id, 0) {
                Some(i) => self.told_child(i, ui),
                None => self,
            }
        }
    }

    /// A view for a new subagent.
    #[verifier::opaque]
    pub open spec fn child_born(
        self,
        parent: Seq<char>,
        child: Seq<char>,
        label: Option<Seq<char>>,
    ) -> Scene {
        if child_at(self.subagents, child, 0) is Some {
            self
        } else {
            self.raising(
                self.subagents.push(
                    Child {
                        id: child,
                        parent,
                        label: match label {
                            Some(l) => l,
                            None => self.tr("subagent"@, "子代理"@) + " "@ + text::decimal(
                                (self.subagents.len() + 1) as nat,
                            ),
                        },
                        running: true,
                        transcript: Timeline { locale: self.locale, ..Timeline::fresh(child) },
                    },
                ),
            )
        }
    }

    /// A subagent has finished; its parent's view is told.
    #[verifier::opaque]
    pub open spec fn child_finished(self, child: Seq<char>, ui: UiEvent) -> Scene {
        match child_at(self.subagents, child, 0) {
            Some(i) => {
                let c = self.subagents[i];
                self.raising(
                    self.subagents.update(i, Child { running: false, ..c }),
                ).told_session(c.parent, ui)
            },
            None => self,
        }
    }

    /// What a fact of the session on show changes besides the timeline.
    pub open spec fn fact_folded(self, ui: UiEvent) -> Scene {
        Scene {
            session: self.session.folded(ui, self.host.now),
            panels: self.panels.planned(ui),
            ..self
        }
    }

    /// Whether a fact of the session on show goes in the timeline: the
    /// permission facts do not, nor does a plan mode that is in force.
    pub open spec fn worth_telling(self, ui: UiEvent) -> bool {
        match ui {
            UiEvent::PlanMode { active, .. } => self.session.modes.plan != active,
            UiEvent::SandboxMode { .. } => false,
            UiEvent::ApprovalPolicy { .. } => false,
            UiEvent::PermissionPreset { .. } => false,
            _ => true,
        }
    }

    /// A fact of a session taken in.
    #[verifier::opaque]
    pub open spec fn fact_taken(self, ui: UiEvent) -> Scene {
        (match ui {
            UiEvent::SubagentStarted { parent, child, label } => self.child_born(
                parent@,
                child@,
                text::view_opt(label),
            ).told_session(parent@, ui),
            UiEvent::SubagentFinished { child } => self.child_finished(child@, ui),
            _ => {
                let to = events::session_of(ui);
                let here = to == Some(self.session.id);
                if !here && to is Some && child_at(self.subagents, to->0, 0) is Some {
                    self.told_child(child_at(self.subagents, to->0, 0)->0, ui)
                } else {
                    let s = if here {
                        self.fact_folded(ui)
                    } else {
                        self
                    };
                    if here && !self.worth_telling(ui) {
                        s
                    } else {
                        s.telling(s.transcript.heard(ui))
                    }
                }
            },
        }).redrawn()
    }

    // --- the driver's reports -------------------------------------------------

    /// The subagents' views closed.
    #[verifier::opaque]
    pub open spec fn childless(self) -> Scene {
        let s = Scene { subagents: Seq::empty(), active: None, ..self };
        if s.panels.picker is Some && s.panels.picker->0.kind == PickerKind::Subagent {
            s.picking(None)
        } else {
            s
        }
    }

    /// Everything of the session on show put away. What is kept in mind for
    /// the workspace's modes is taken up again.
    #[verifier::opaque]
    pub open spec fn session_left(self) -> Scene {
        let s = self.childless();
        Scene {
            transcript: s.transcript.cleared(),
            draft: DraftState { vim: VimState { pending: None, ..s.draft.vim }, ..s.draft },
            panels: s.panels.planless(),
            chat: s.chat.left(),
            session: s.session.left(s.host.known_modes),
            queue: s.queue.emptied(),
            ..s
        }
    }

    /// The usage hint of a new session.
    #[verifier::opaque]
    pub open spec fn hinted(self) -> Scene {
        let hint = self.phrases.tip(self.locale, self.session_tip_idx as int);
        Scene {
            session_tip_idx: self.phrases.next_tip(self.session_tip_idx as int) as usize,
            ..self.telling(
                self.transcript.with(
                    Note::Markdown { text: "- **"@ + self.tr("Tip"@, "提示"@) + "** · "@ + hint },
                ),
            )
        }
    }

    /// Whether a binding is the one that the switch under way waits for.
    pub open spec fn switches_to(self, id: Seq<char>) -> bool {
        match self.session.switch {
            Some(Switch::New) => self.session.id != id,
            Some(Switch::Resume(target)) => target == id,
            None => false,
        }
    }

    /// The old session put away for another one.
    pub open spec fn made_room(self, id: Seq<char>) -> Scene {
        if self.switches_to(id) || (self.session.bound && self.session.id != id) {
            self.session_left()
        } else if self.session.id != id {
            self.childless()
        } else {
            self
        }
    }

    /// A session bound: its id is the one to use, and its model and effort are
    /// the ones in force.
    #[verifier::opaque]
    pub open spec fn session_bound(
        self,
        id: Seq<char>,
        notice: Option<Seq<char>>,
        model: Option<Seq<char>>,
        effort: Option<Seq<char>>,
    ) -> Scene {
        let new = self.switches_to(id) && self.session.switch is Some && self.session.switch->0
            is New;
        let a = self.made_room(id);
        let b = a.telling(Timeline { root: id, ..a.transcript }).run(a.session.named(id));
        let c = if new {
            b.hinted()
        } else {
            b
        };
        let d = c.run(c.session.adopting(model, effort));
        let e = match notice {
            Some(n) => d.noticed(NoticeLevel::Info, n),
            None => d,
        };
        e.sent(Order::FetchSkills)
    }

    /// A message sent into the turn has settled: put off, it joins the queue
    /// as the very prompt that was sent.
    #[verifier::opaque]
    pub open spec fn steer_settled(self, id: u64, deferred: bool) -> Scene {
        match queue::index_of(self.queue.steers, id, 0) {
            Some(i) => {
                let w = self.queue.steers[i];
                let s = self.queueing(self.queue.settled(id));
                if deferred {
                    s.telling(s.transcript.marked(w.cells, true)).queueing(
                        s.queue.enqueued(w.pieces, w.cells),
                    ).told_tr(
                        "agent deferred Send Now — queued after the active turn"@,
                        "Agent 推迟了立即发送 —— 已排到本轮之后"@,
                    )
                } else {
                    s
                }
            },
            None => self,
        }
    }

    /// A report of the driver taken in.
    #[verifier::opaque]
    pub open spec fn report_taken(self, ev: CtlEvent) -> Scene {
        let r = self.session;
        match ev {
            CtlEvent::Starting { .. } => self.run(
                r.starting(self.host.now, self.tr("starting runtime"@, "正在启动运行时"@)),
            ),
            CtlEvent::Ready { server } => self.run(r.ready(server@)),
            CtlEvent::PromptQueued { .. } => self.run(r.taken_up()),
            CtlEvent::SteerSettled { message_id, deferred } => self.steer_settled(
                message_id,
                deferred,
            ),
            CtlEvent::Queue { .. } => self,
            CtlEvent::QueueClaimed { .. } => self,
            CtlEvent::QueueRemoved { .. } => self,
            CtlEvent::SteerAdmitted { .. } => self,
            CtlEvent::Error(err) => self.run(
                SessionState { pending: false, ..r.at_rest() },
            ).noticed(NoticeLevel::Error, err@),
            CtlEvent::CancelRequested => self.noted(
                self.tr("cancelling"@, "正在取消"@),
            ).telling(self.transcript.cancelled()),
            CtlEvent::Interrupted => self.run(r.ended()).telling(self.transcript.cancelled()).noticed(
                NoticeLevel::Warn,
                self.tr("interrupted — turn cancelled"@, "已中断 —— 本轮已取消"@),
            ),
            CtlEvent::Skills { skills } => self.run(SessionState { skills: skills@, ..r }),
            CtlEvent::Catalog { models } => self.models_listed(models@),
            CtlEvent::Efforts { efforts, default } => {
                let s = if efforts@.len() > 0 {
                    self.run(SessionState { efforts: efforts@, ..r })
                } else {
                    self
                };
                s.efforts_opened(efforts@, default)
            },
            CtlEvent::TuiOpDone(m) => self.noticed(NoticeLevel::Info, m@),
            CtlEvent::TuiOpFailed(m) => self.noticed(NoticeLevel::Warn, m@),
            CtlEvent::SessionSwitchFailed(m) => {
                let s = self.run(SessionState { switch: None, ..r }).noticed(
                    NoticeLevel::Warn,
                    m@,
                );
                if r.state == RunState::Idle && !r.pending {
                    s.next_sent()
                } else {
                    s
                }
            },
            CtlEvent::AgentCaps { load_session } => self.run(SessionState { load_session, ..r }),
            CtlEvent::SessionBound { session_id, notice, model, effort } => self.session_bound(
                session_id@,
                text::view_opt(notice),
                text::view_opt(model),
                text::view_opt(effort),
            ),
            CtlEvent::SessionList { sessions, prefix } => self.sessions_listed(
                sessions@,
                prefix,
            ),
        }
    }

    /// The runtime has gone, and with it the queue's chance to be sent.
    #[verifier::opaque]
    pub open spec fn runtime_gone(self, code: Option<i32>) -> Scene {
        let cells = queue::cells_of(self.queue.waiting, self.queue.waiting.len() as int);
        let r = self.session;
        let a = self.run(SessionState { switch: None, pending: false, ..r });
        let b = a.queueing(a.queue.lined(Seq::empty())).withdrawn(cells);
        let c = b.queueing(Line { edit: None, steers: Seq::empty(), ..b.queue });
        let d = if r.state != RunState::Idle {
            c.run(c.session.at_rest())
        } else {
            c
        };
        let e = if code is Some && code->0 != 0 {
            d.noticed(
                NoticeLevel::Warn,
                d.tr("runtime exited with code"@, "运行时退出，代码"@) + " ("@ + signed(
                    code->0 as int,
                ) + ") — "@ + d.tr("the next prompt restarts it"@, "下一条消息会重新拉起"@),
            )
        } else {
            d
        };
        e.redrawn()
    }
}

/// A number in decimal, with its sign.
pub open spec fn signed(n: int) -> Seq<char> {
    if n < 0 {
        "-"@ + text::decimal((-n) as nat)
    } else {
        text::decimal(n as nat)
    }
}

fn signed_number(n: i32) -> (r: String)
    ensures
        r@ == signed(n as int),
{
    if n < 0 {
        let m: i64 = -(n as i64);
        let d = wide_number(m as u128);
        cat("-", d.as_str())
    } else {
        wide_number(n as u128)
    }
}

pub fn find_child(v: &Vec<SubagentView>, id: &str) -> (r: Option<usize>)
    ensures
        match r {
            Some(i) => child_at(state::children(v@), id@, 0) == Some(i as int) && i < v@.len(),
            None => child_at(state::children(v@), id@, 0) is None,
        },
{
    let ghost all = state::children(v@);
    let mut i: usize = 0;
    while i < v.len()
        invariant
            i <= v.len(),
            all == state::children(v@),
            child_at(all, id@, 0) == child_at(all, id@, i as int),
        decreases v.len() - i,
    {
        assert(all[i as int] == v@[i as int]@);
        if same(v[i].id.as_str(), id) {
            return Some(i);
        }
        i += 1;
    }
    None
}

impl App {
    fn tell_child(&mut self, i: usize, ui: UiEvent)
        requires
            i < old(self)@.subagents.len(),
        ensures
            final(self)@ == old(self)@.told_child(i as int, ui),
    {
        let ghost before = self@.subagents;
        assert(before[i as int] == self.subagents@[i as int]@);
        self.subagents[i].transcript.apply(ui);
        assert(state::children(self.subagents@) == before.update(
            i as int,
            Child {
                transcript: before[i as int].transcript.heard(ui),
                ..before[i as int]
            },
        ));
    }

    fn tell_session(&mut self, id: &str, ui: UiEvent)
        ensures
            final(self)@ == old(self)@.told_session(id@, ui),
    {
        if same(id, self.session.session_id.as_str()) {
            self.transcript.apply(ui);
        } else if let Some(i) = find_child(&self.subagents, id) {
            self.tell_child(i, ui);
        }
    }

    fn add_child(&mut self, parent: &String, child: &String, label: &Option<String>)
        ensures
            final(self)@ == old(self)@.child_born(parent@, child@, text::view_opt(*label)),
    {
        reveal(Scene::child_born);
        if find_child(&self.subagents, child.as_str()).is_some() {
            return;
        }
        let name = match label {
            Some(l) => l.clone(),
            None => {
                let n = wide_number(self.subagents.len() as u128 + 1);
                cat3(self.locale.tr("subagent", "子代理"), " ", n.as_str())
            },
        };
        let mut transcript = Transcript::new(child.clone());
        transcript.set_locale(self.locale);
        let view = SubagentView {
            id: child.clone(),
            parent: parent.clone(),
            label: name,
            running: true,
            transcript,
        };
        let ghost c = view@;
        let ghost before = self@.subagents;
        self.subagents.push(view);
        assert(state::children(self.subagents@) == before.push(c));
    }

    fn finish_child(&mut self, child: &str, ui: UiEvent)
        ensures
            final(self)@ == old(self)@.child_finished(child@, ui),
    {
        reveal(Scene::child_finished);
        if let Some(i) = find_child(&self.subagents, child) {
            let ghost before = self@.subagents;
            assert(before[i as int] == self.subagents@[i as int]@);
            let parent = self.subagents[i].parent.clone();
            self.subagents[i].running = false;
            assert(state::children(self.subagents@) == before.update(
                i as int,
                Child { running: false, ..before[i as int] },
            ));
            self.tell_session(parent.as_str(), ui);
        }
    }

    fn fold_fact(&mut self, ui: &UiEvent)
        ensures
            final(self)@ == old(self)@.fact_folded(*ui),
    {
        self.session.fold(ui, self.host.now);
        self.panels.fold_plan(ui);
    }

    fn is_worth_telling(&self, ui: &UiEvent) -> (r: bool)
        ensures
            r == self@.worth_telling(*ui),
    {
        match ui {
            UiEvent::PlanMode { active, .. } => self.session.modes.plan != *active,
            UiEvent::SandboxMode { .. } => false,
            UiEvent::ApprovalPolicy { .. } => false,
            UiEvent::PermissionPreset { .. } => false,
            _ => true,
        }
    }

    fn take_fact(&mut self, ui: UiEvent)
        requires
            !(ui is SubagentStarted) && !(ui is SubagentFinished),
        ensures
            final(self)@.redrawn() == old(self)@.fact_taken(ui),
    {
        reveal(Scene::fact_taken);
        let mut here = false;
        if let Some(id) = ui_session(&ui) {
            here = same(id.as_str(), self.session.session_id.as_str());
            if !here {
                if let Some(i) = find_child(&self.subagents, id.as_str()) {
                    self.tell_child(i, ui);
                    return;
                }
            }
        }
        let telling = !here || self.is_worth_telling(&ui);
        if here {
            self.fold_fact(&ui);
        }
        if telling {
            self.transcript.apply(ui);
        }
    }

    /// Take a fact of a session in.
    pub fn apply_ui(&mut self, ui: UiEvent)
        ensures
            final(self)@ == old(self)@.fact_taken(ui),
    {
        let (started, finished) = match &ui {
            UiEvent::SubagentStarted { .. } => (true, false),
            UiEvent::SubagentFinished { .. } => (false, true),
            _ => (false, false),
        };
        if started {
            reveal(Scene::fact_taken);
            let parent = match &ui {
                UiEvent::SubagentStarted { parent, child, label } => {
                    self.add_child(parent, child, label);
                    parent.clone()
                },
                _ => String::new(),
            };
            self.tell_session(parent.as_str(), ui);
        } else if finished {
            reveal(Scene::fact_taken);
            let child = match &ui {
                UiEvent::SubagentFinished { child } => child.clone(),
                _ => String::new(),
            };
            self.finish_child(child.as_str(), ui);
        } else {
            self.take_fact(ui);
        }
        self.needs_redraw = true;
    }

    /// Close the subagents' views.
    pub fn reset_subagent_views(&mut self)
        ensures
            final(self)@ == old(self)@.childless(),
    {
        reveal(Scene::childless);
        self.subagents.clear();
        assert(state::children(self.subagents@) == Seq::<Child>::empty());
        self.active_subagent = None;
        let open = match &self.panels.picker {
            Some(p) => p.kind == PickerKind::Subagent,
            None => false,
        };
        if open {
            self.set_picker(None);
        }
    }

    /// Put everything of the session on show away.
    pub fn reset_session_ui(&mut self)
        ensures
            final(self)@ == old(self)@.session_left(),
    {
        reveal(Scene::session_left);
        self.reset_subagent_views();
        self.draft.vim.reset_pending();
        self.transcript.clear();
        self.panels.drop_plan();
        self.chat.leave();
        self.session.leave(&self.host.known_modes);
        self.queue.empty();
    }

    /// Open a new session with a usage hint.
    pub fn push_session_tip(&mut self)
        ensures
            final(self)@ == old(self)@.hinted(),
    {
        reveal(Scene::hinted);
        let hint = self.phrases.session_tip(self.locale, self.session_tip_idx);
        self.session_tip_idx = self.phrases.following(self.session_tip_idx);
        let t = cat4("- **", self.locale.tr("Tip", "提示"), "** · ", hint.as_str());
        self.transcript.push_markdown(t);
    }

    fn make_room(&mut self, id: &str)
        ensures
            final(self)@ == old(self)@.made_room(id@),
    {
        let other = !same(id, self.session.session_id.as_str());
        let switched = self.is_switch_to(id);
        if switched || (self.session.session_bound && other) {
            self.reset_session_ui();
        } else if other {
            self.reset_subagent_views();
        }
    }

    fn is_switch_to(&self, id: &str) -> (r: bool)
        ensures
            r == self@.switches_to(id@),
    {
        match &self.session.session_switch {
            Some(SessionSwitch::New) => !same(self.session.session_id.as_str(), id),
            Some(SessionSwitch::Resume(target)) => same(target.as_str(), id),
            None => false,
        }
    }

    /// A session has been bound.
    pub fn bind_session(
        &mut self,
        session_id: String,
        notice: Option<String>,
        model: Option<String>,
        effort: Option<String>,
    )
        ensures
            final(self)@ == old(self)@.session_bound(
                session_id@,
                text::view_opt(notice),
                text::view_opt(model),
                text::view_opt(effort),
            ),
    {
        reveal(Scene::session_bound);
        let new = self.is_switch_to(session_id.as_str()) && matches!(
            self.session.session_switch,
            Some(SessionSwitch::New)
        );
        self.make_room(session_id.as_str());
        self.session.name(session_id.clone());
        self.transcript.set_root_session(session_id);
        if new {
            self.push_session_tip();
        }
        self.session.adopt(model, effort);
        if let Some(n) = notice {
            self.notice(NoticeLevel::Info, n);
        }
        self.ctl.send(Cmd::FetchSkills);
    }

    fn settle_steer(&mut self, id: u64, deferred: bool)
        ensures
            final(self)@ == old(self)@.steer_settled(id, deferred),
    {
        reveal(Scene::steer_settled);
        if let Some(p) = self.queue.take_steer(id) {
            if deferred {
                self.transcript.mark_prompt_queued(&p.cells);
                self.enqueue_prompt(p.blocks, p.cells);
                self.tip_tr(
                    "agent deferred Send Now — queued after the active turn",
                    "Agent 推迟了立即发送 —— 已排到本轮之后",
                );
            }
        } else {
            proof {
                no_such_id(self@.queue.steers, old(self)@.queue.steers, id);
            }
        }
    }

    fn cancel_work(&mut self)
        ensures
            final(self)@ == old(self)@.noted(old(self)@.tr("cancelling"@, "正在取消"@)).telling(
                old(self)@.transcript.cancelled(),
            ),
    {
        self.session.state_note = String::from_str(self.locale.tr("cancelling", "正在取消"));
        self.transcript.cancel_open_work();
    }

    fn stop_turn(&mut self)
        ensures
            final(self)@ == old(self)@.run(old(self)@.session.ended()).telling(
                old(self)@.transcript.cancelled(),
            ).noticed(
                NoticeLevel::Warn,
                old(self)@.tr("interrupted — turn cancelled"@, "已中断 —— 本轮已取消"@),
            ),
    {
        self.session.end();
        self.transcript.cancel_open_work();
        let t = String::from_str(
            self.locale.tr("interrupted — turn cancelled", "已中断 —— 本轮已取消"),
        );
        self.notice(NoticeLevel::Warn, t);
    }

    fn take_efforts(&mut self, efforts: &Vec<String>, default: &Option<String>)
        ensures
            final(self)@ == ({
                let s = if efforts@.len() > 0 {
                    old(self)@.run(SessionState { efforts: efforts@, ..old(self)@.session })
                } else {
                    old(self)@
                };
                s.efforts_opened(efforts@, *default)
            }),
    {
        if efforts.len() > 0 {
            self.session.effort_choices = copy_list(efforts);
        }
        self.open_effort_picker(efforts, default);
    }

    fn fail_switch(&mut self, m: String)
        ensures
            final(self)@ == ({
                let r = old(self)@.session;
                let s = old(self)@.run(SessionState { switch: None, ..r }).noticed(
                    NoticeLevel::Warn,
                    m@,
                );
                if r.state == RunState::Idle && !r.pending {
                    s.next_sent()
                } else {
                    s
                }
            }),
    {
        self.session.session_switch = None;
        self.notice(NoticeLevel::Warn, m);
        if self.session.state == RunState::Idle && !self.session.prompt_pending {
            self.dispatch_next_queued();
        }
    }

    /// Take a report of the driver in.
    pub fn take_report(&mut self, ev: CtlEvent)
        ensures
            final(self)@ == old(self)@.report_taken(ev),
    {
        reveal(Scene::report_taken);
        match ev {
            CtlEvent::Starting { .. } => {
                let note = String::from_str(
                    self.locale.tr("starting runtime", "正在启动运行时"),
                );
                self.session.start(self.host.now, note);
            },
            CtlEvent::Ready { server } => self.session.become_ready(server),
            CtlEvent::PromptQueued { .. } => self.session.take_up(),
            CtlEvent::SteerSettled { message_id, deferred } => self.settle_steer(
                message_id,
                deferred,
            ),
            CtlEvent::Queue { .. } => {},
            CtlEvent::QueueClaimed { .. } => {},
            CtlEvent::QueueRemoved { .. } => {},
            CtlEvent::SteerAdmitted { .. } => {},
            CtlEvent::Error(err) => {
                self.session.fail();
                self.notice(NoticeLevel::Error, err);
            },
            CtlEvent::CancelRequested => self.cancel_work(),
            CtlEvent::Interrupted => self.stop_turn(),
            CtlEvent::Skills { skills } => {
                self.session.skills = skills;
            },
            CtlEvent::Catalog { models } => self.list_models(models),
            CtlEvent::Efforts { efforts, default } => self.take_efforts(&efforts, &default),
            CtlEvent::TuiOpDone(m) => self.notice(NoticeLevel::Info, m),
            CtlEvent::TuiOpFailed(m) => self.notice(NoticeLevel::Warn, m),
            CtlEvent::SessionSwitchFailed(m) => self.fail_switch(m),
            CtlEvent::AgentCaps { load_session } => {
                self.session.load_session = load_session;
            },
            CtlEvent::SessionBound { session_id, notice, model, effort } => self.bind_session(
                session_id,
                notice,
                model,
                effort,
            ),
            CtlEvent::SessionList { sessions, prefix } => self.on_acp_session_list(
                &sessions,
                &prefix,
            ),
        }
    }

    /// The runtime has exited.
    pub fn runtime_exited(&mut self, code: Option<i32>)
        ensures
            final(self)@ == old(self)@.runtime_gone(code),
    {
        reveal(Scene::runtime_gone);
        reveal(Scene::withdrawn);
        let running = self.session.state != RunState::Idle;
        self.session.session_switch = None;
        self.session.prompt_pending = false;
        let dropped = self.queue.all_cells();
        self.queue.prompt_queue.clear();
        self.queue.queued = 0;
        assert(state::waiting(self.queue.prompt_queue@) == Seq::<Waiting>::empty());
        self.withdraw_prompt_echo(&dropped);
        self.queue.queue_edit = None;
        self.queue.pending_steers.clear();
        assert(state::waiting(self.queue.pending_steers@) == Seq::<Waiting>::empty());
        if running {
            self.session.rest();
        }
        if let Some(c) = code {
            if c != 0 {
                let n = signed_number(c);
                let t = text::cat5(
                    self.locale.tr("runtime exited with code", "运行时退出，代码"),
                    " (",
                    n.as_str(),
                    ") — ",
                    self.locale.tr("the next prompt restarts it", "下一条消息会重新拉起"),
                );
                self.notice(NoticeLevel::Warn, t);
            }
        }
        self.needs_redraw = true;
    }
}

proof fn no_such_id(left: Seq<Waiting>, all: Seq<Waiting>, id: u64)
    requires
        left == queue::others(all, id),
        queue::index_of(all, id, 0) is None,
    ensures
        left == all,
{
    none_of_id(all, id, 0);
    others_of_none(all, id);
}

proof fn none_of_id(all: Seq<Waiting>, id: u64, i: int)
    requires
        0 <= i <= all.len(),
        queue::index_of(all, id, i) is None,
    ensures
        forall|k: int| i <= k < all.len() ==> (#[trigger] all[k]).id != id,
    decreases all.len() - i,
{
    if i < all.len() {
        none_of_id(all, id, i + 1);
    }
}

proof fn others_of_none(all: Seq<Waiting>, id: u64)
    requires
        forall|k: int| 0 <= k < all.len() ==> (#[trigger] all[k]).id != id,
    ensures
        queue::others(all, id) == all,
    decreases all.len(),
{
    if all.len() > 0 {
        assert(all.drop_last().len() == all.len() - 1);
        assert forall|k: int| 0 <= k < all.drop_last().len() implies (#[trigger] all.drop_last()[k]).id
            != id by {
            assert(all[k].id != id);
        }
        others_of_none(all.drop_last(), id);
        assert(all.drop_last().push(all.last()) == all);
    }
}

/// A failed switch leaves the session on show, its queue and the draft as
/// they are. Only a session at rest whose queue holds something or is being
/// edited goes on as at the end of a turn.
pub proof fn failed_switch_keeps_the_session(scene: Scene, why: String)
    requires
        scene.session.state != RunState::Idle || scene.session.pending || (
        scene.queue.waiting.len() == 0 && scene.queue.edit is None),
    ensures
        ({
            let s = scene.report_taken(CtlEvent::SessionSwitchFailed(why));
            &&& s.session == (SessionState { switch: None, ..scene.session })
            &&& s.queue == scene.queue
            &&& s.draft == scene.draft
            &&& s.subagents == scene.subagents
            &&& s.transcript == scene.transcript.warn(why@)
            &&& s.ctl == scene.ctl
        }),
{
    reveal(Scene::report_taken);
    reveal(Scene::next_sent);
}

/// While a switch is under way nothing that is typed or waiting is sent: not
/// the draft, not a text, not the queue when the turn ends.
pub proof fn switch_holds_what_is_sent(scene: Scene, line: Seq<char>)
    requires
        scene.session.switch is Some,
    ensures
        scene.next_sent() == scene,
        scene.text_sent(line) == scene.switch_remark(),
        scene.submitted() == scene.switch_remark(),
        scene.sent_now() == scene.switch_remark(),
{
    reveal(Scene::next_sent);
    reveal(Scene::text_sent);
    reveal(Scene::sent_now);
    reveal(Scene::submitted);
}

} // verus!
